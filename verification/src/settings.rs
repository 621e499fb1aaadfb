//! The Settings window: what it offers, what it shows, and what a click changes.
//!
//! Texts are the keys under which translations are found; the window translates
//! them when it paints.

use vstd::prelude::*;
use crate::config::AppSettings;
use crate::platform::Platform;
use crate::repeat::{
    RepeatConfig, DEFAULT_REPEAT_DELAY_MS, DEFAULT_REPEAT_ENABLED, DEFAULT_REPEAT_INTERVAL_MS,
};
use crate::text;
use crate::text::{push_decimal, same_text};

verus! {

/// The least start delay, in milliseconds.
pub const REPEAT_DELAY_MIN: u32 = 100;

/// The greatest start delay, in milliseconds.
pub const REPEAT_DELAY_MAX: u32 = 1000;

/// The step of the start delay, in milliseconds.
pub const REPEAT_DELAY_STEP: u32 = 50;

/// The least time between repeats, in milliseconds.
pub const REPEAT_INTERVAL_MIN: u32 = 20;

/// The greatest time between repeats, in milliseconds.
pub const REPEAT_INTERVAL_MAX: u32 = 300;

/// The step of the time between repeats, in milliseconds.
pub const REPEAT_INTERVAL_STEP: u32 = 10;

// ---------------------------------------------------------------------------
// Languages
// ---------------------------------------------------------------------------

/// One entry of the language picker.
#[derive(Clone, Copy, Debug)]
pub struct LanguageOption {
    /// What it is called.
    pub label: &'static str,
    /// The locale it stands for, empty for the one of the system.
    pub value: &'static str,
    /// Whether the label is translated.
    pub localize_label: bool,
}

/// The view of a [`LanguageOption`].
pub struct OptionView {
    /// What it is called.
    pub label: Seq<char>,
    /// The locale it stands for.
    pub value: Seq<char>,
    /// Whether the label is translated.
    pub localize_label: bool,
}

impl View for LanguageOption {
    type V = OptionView;

    open spec fn view(&self) -> OptionView {
        OptionView {
            label: self.label@,
            value: self.value@,
            localize_label: self.localize_label,
        }
    }
}

impl LanguageOption {
    /// The title to show, given the translation of the system entry.
    pub fn title(&self, follow_system: &str) -> (r: String)
        ensures
            r@ == (if self@.localize_label {
                follow_system@
            } else {
                self@.label
            }),
    {
        if self.localize_label {
            follow_system.to_owned()
        } else {
            self.label.to_owned()
        }
    }

    /// The locale that the entry stands for.
    pub fn value(&self) -> (r: &'static str)
        ensures
            r@ == self@.value,
    {
        self.value
    }
}

/// The entry that follows the system.
pub open spec fn follow_system() -> OptionView {
    OptionView { label: "Follow system"@, value: Seq::empty(), localize_label: true }
}

/// The entry for a supported locale, given as code and name.
pub open spec fn locale_option(locale: (&'static str, &'static str)) -> OptionView {
    OptionView { label: locale.1@, value: locale.0@, localize_label: false }
}

/// The entries of the language picker.
pub open spec fn picker(supported: Seq<(&'static str, &'static str)>) -> Seq<OptionView> {
    seq![follow_system()] + supported.map_values(
        |l: (&'static str, &'static str)| locale_option(l),
    )
}

/// The views of a list of entries.
pub open spec fn option_views(options: Seq<LanguageOption>) -> Seq<OptionView> {
    options.map_values(|o: LanguageOption| o@)
}

/// The entries of the language picker: the system's language first, then every
/// supported locale (code and name) in order.
pub fn language_options(supported: &[(&'static str, &'static str)]) -> (r: Vec<LanguageOption>)
    ensures
        option_views(r@) == picker(supported@),
{
    let mut options: Vec<LanguageOption> = Vec::new();
    options.push(LanguageOption { label: "Follow system", value: "", localize_label: true });
    proof {
        reveal_strlit("");
    }
    assert(""@ =~= Seq::<char>::empty());
    for i in 0..supported.len()
        invariant
            options.len() == i + 1,
            options@[0]@ == follow_system(),
            forall|j: int|
                0 <= j < i ==> (#[trigger] options@[j + 1])@ == locale_option(supported@[j]),
    {
        let (code, name) = supported[i];
        options.push(LanguageOption { label: name, value: code, localize_label: false });
    }
    assert forall|k: int| 0 <= k < options.len() implies option_views(options@)[k] == picker(
        supported@,
    )[k] by {
        if k > 0 {
            assert(options@[(k - 1) + 1]@ == locale_option(supported@[k - 1]));
        }
    }
    assert(option_views(options@) =~= picker(supported@));
    options
}

/// The first entry with this value.
pub open spec fn position(options: Seq<OptionView>, value: Seq<char>) -> Option<nat>
    decreases options.len(),
{
    if options.len() == 0 {
        None
    } else if options[0].value == value {
        Some(0)
    } else {
        match position(options.drop_first(), value) {
            Some(n) => Some(n + 1),
            None => None,
        }
    }
}

/// The row that is selected for a stored preference: its own, or the first one
/// where the preference is unset or unknown.
pub open spec fn selected_row(current: Option<Seq<char>>, options: Seq<OptionView>) -> nat {
    let value = match current {
        Some(code) => code,
        None => Seq::empty(),
    };
    match position(options, value) {
        Some(n) => n,
        None => 0,
    }
}

/// The view of a borrowed preference.
pub open spec fn preference_view(current: Option<&str>) -> Option<Seq<char>> {
    match current {
        Some(code) => Some(code@),
        None => None,
    }
}

/// The row that is selected for the stored preference.
pub fn selected_language_index(current: Option<&str>, options: &Vec<LanguageOption>) -> (r: usize)
    ensures
        r == selected_row(preference_view(current), option_views(options@)),
{
    proof {
        reveal_strlit("");
        assert(""@ =~= Seq::<char>::empty());
    }
    let value = match current {
        Some(code) => code,
        None => "",
    };
    let ghost views = option_views(options@);
    assert(views.skip(0) =~= views);
    for i in 0..options.len()
        invariant
            views == option_views(options@),
            value@ == (match preference_view(current) {
                Some(code) => code,
                None => Seq::empty(),
            }),
            position(views, value@) == match position(views.skip(i as int), value@) {
                Some(n) => Some((n + i) as nat),
                None => None,
            },
    {
        let ghost rest = views.skip(i as int);
        assert(rest[0] == options@[i as int]@);
        assert(rest.drop_first() =~= views.skip(i + 1));
        if same_text(options[i].value, value) {
            return i;
        }
    }
    assert(views.skip(options.len() as int).len() == 0);
    0
}

/// The preference that a chosen entry stands for: the entry of the system
/// clears it.
pub open spec fn preference(value: Option<Seq<char>>) -> Option<Seq<char>> {
    match value {
        Some(code) if code.len() > 0 => Some(code),
        _ => None,
    }
}

/// What the choice of a language leads to, apart from a repaint.
#[derive(Debug)]
pub struct LanguageChange {
    /// The preference to store.
    pub language: Option<String>,
    /// Whether the tray has to re-localize its menu.
    pub refresh_tray: bool,
}

// ---------------------------------------------------------------------------
// Sliders
// ---------------------------------------------------------------------------

/// A slider over milliseconds.
#[derive(Clone, Copy, Debug, PartialEq, Eq, Structural)]
pub struct SliderRange {
    /// Its least value.
    pub min: u32,
    /// Its greatest value.
    pub max: u32,
    /// Its step.
    pub step: u32,
    /// The value it starts at.
    pub value: u32,
}

/// `raw` brought into `[lo, hi]`.
pub open spec fn clamped(raw: u32, lo: u32, hi: u32) -> u32 {
    if raw < lo {
        lo
    } else if hi < raw {
        hi
    } else {
        raw
    }
}

/// Brings a slider's rounded value into `[lo, hi]` milliseconds.
pub fn clamp_ms(raw: u32, lo: u32, hi: u32) -> (r: u32)
    requires
        lo <= hi,
    ensures
        r == clamped(raw, lo, hi),
{
    if raw < lo {
        lo
    } else if hi < raw {
        hi
    } else {
        raw
    }
}

/// The preferences after the slider of the start delay was released.
pub open spec fn delay_released(a: AppSettings, raw: u32) -> AppSettings {
    AppSettings { key_repeat_delay_ms: clamped(raw, REPEAT_DELAY_MIN, REPEAT_DELAY_MAX), ..a }
}

/// The preferences after the slider of the repeat rate was released.
pub open spec fn interval_released(a: AppSettings, raw: u32) -> AppSettings {
    AppSettings {
        key_repeat_interval_ms: clamped(raw, REPEAT_INTERVAL_MIN, REPEAT_INTERVAL_MAX),
        ..a
    }
}

/// The slider of the start delay was released at `raw` milliseconds.
pub fn release_delay(settings: &mut AppSettings, raw: u32)
    ensures
        *final(settings) == delay_released(*old(settings), raw),
{
    settings.key_repeat_delay_ms = clamp_ms(raw, REPEAT_DELAY_MIN, REPEAT_DELAY_MAX);
}

/// The slider of the repeat rate was released at `raw` milliseconds.
pub fn release_interval(settings: &mut AppSettings, raw: u32)
    ensures
        *final(settings) == interval_released(*old(settings), raw),
{
    settings.key_repeat_interval_ms = clamp_ms(raw, REPEAT_INTERVAL_MIN, REPEAT_INTERVAL_MAX);
}

/// The sliders of the form.
#[derive(Clone, Copy, Debug, PartialEq, Eq, Structural)]
pub enum SliderId {
    /// The start delay.
    Delay,
    /// The repeat rate.
    Interval,
}

/// What a slider reports, with its value rounded to whole milliseconds.
#[derive(Clone, Copy, Debug, PartialEq, Eq, Structural)]
pub enum SliderEvent {
    /// It is being dragged and stands here.
    Change(u32),
    /// It was released here.
    Release(u32),
}

/// The preferences after `event` of `slider`: only a release is committed, not
/// every tick of a drag.
pub open spec fn slid(a: AppSettings, slider: SliderId, event: SliderEvent) -> AppSettings {
    match event {
        SliderEvent::Change(_) => a,
        SliderEvent::Release(raw) => match slider {
            SliderId::Delay => delay_released(a, raw),
            SliderId::Interval => interval_released(a, raw),
        },
    }
}

/// Takes in what a slider reports. Returns whether the preferences were
/// committed, so that they have to be persisted and the windows repainted.
pub fn on_slider_event(settings: &mut AppSettings, slider: SliderId, event: SliderEvent) -> (r:
    bool)
    ensures
        *final(settings) == slid(*old(settings), slider, event),
        r == (event is Release),
{
    match event {
        SliderEvent::Change(_) => false,
        SliderEvent::Release(raw) => {
            match slider {
                SliderId::Delay => release_delay(settings, raw),
                SliderId::Interval => release_interval(settings, raw),
            }
            true
        },
    }
}

// ---------------------------------------------------------------------------
// The form
// ---------------------------------------------------------------------------

/// The switches of the form.
#[derive(Clone, Copy, Debug, PartialEq, Eq, Structural)]
pub enum SwitchId {
    /// Start OpenLogi at login.
    LaunchAtLogin,
    /// Ask for updates once per launch.
    CheckForUpdates,
    /// Show the tray or menu-bar icon.
    ShowInMenuBar,
    /// Repeat while held.
    KeyRepeat,
}

/// A row with a switch.
#[derive(Clone, Copy, Debug)]
pub struct SwitchRow {
    /// Which switch.
    pub switch: SwitchId,
    /// The id of its element.
    pub id: &'static str,
    /// Its title.
    pub title: &'static str,
    /// Its description.
    pub description: &'static str,
    /// Whether it is on.
    pub checked: bool,
}

/// The view of a [`SwitchRow`].
pub struct SwitchView {
    /// Which switch.
    pub switch: SwitchId,
    /// The id of its element.
    pub id: Seq<char>,
    /// Its title.
    pub title: Seq<char>,
    /// Its description.
    pub description: Seq<char>,
    /// Whether it is on.
    pub checked: bool,
}

impl View for SwitchRow {
    type V = SwitchView;

    open spec fn view(&self) -> SwitchView {
        SwitchView {
            switch: self.switch,
            id: self.id@,
            title: self.title@,
            description: self.description@,
            checked: self.checked,
        }
    }
}

/// A row with a slider.
#[derive(Debug)]
pub struct SliderRow {
    /// Its title.
    pub title: &'static str,
    /// The value beside the title.
    pub value: String,
    /// Its description.
    pub description: &'static str,
}

/// The view of a [`SliderRow`].
pub struct SliderView {
    /// Its title.
    pub title: Seq<char>,
    /// The value beside the title.
    pub value: Seq<char>,
    /// Its description.
    pub description: Seq<char>,
}

impl View for SliderRow {
    type V = SliderView;

    open spec fn view(&self) -> SliderView {
        SliderView {
            title: self.title@,
            value: self.value@,
            description: self.description@,
        }
    }
}

/// The form, group by group.
#[derive(Debug)]
pub struct SettingsForm {
    /// The title of the window's content.
    pub title: &'static str,
    /// The title of the first group.
    pub general_title: &'static str,
    /// The rows of the first group.
    pub general: Vec<SwitchRow>,
    /// The title of the key-repeat group.
    pub repeat_title: &'static str,
    /// The switch of the key-repeat group.
    pub repeat: SwitchRow,
    /// The slider of the start delay.
    pub delay: SliderRow,
    /// The slider of the repeat rate.
    pub interval: SliderRow,
    /// The title of the language group.
    pub language_title: &'static str,
    /// The description of the language picker.
    pub language_description: &'static str,
}

/// The view of a [`SettingsForm`].
pub struct FormView {
    /// The title of the window's content.
    pub title: Seq<char>,
    /// The title of the first group.
    pub general_title: Seq<char>,
    /// The rows of the first group.
    pub general: Seq<SwitchView>,
    /// The title of the key-repeat group.
    pub repeat_title: Seq<char>,
    /// The switch of the key-repeat group.
    pub repeat: SwitchView,
    /// The slider of the start delay.
    pub delay: SliderView,
    /// The slider of the repeat rate.
    pub interval: SliderView,
    /// The title of the language group.
    pub language_title: Seq<char>,
    /// The description of the language picker.
    pub language_description: Seq<char>,
}

impl View for SettingsForm {
    type V = FormView;

    open spec fn view(&self) -> FormView {
        FormView {
            title: self.title@,
            general_title: self.general_title@,
            general: self.general@.map_values(|r: SwitchRow| r@),
            repeat_title: self.repeat_title@,
            repeat: self.repeat@,
            delay: self.delay@,
            interval: self.interval@,
            language_title: self.language_title@,
            language_description: self.language_description@,
        }
    }
}

/// What the form shows of the preferences.
pub struct Shown {
    /// Start at login.
    pub launch: bool,
    /// Ask for updates.
    pub updates: bool,
    /// Show the icon.
    pub in_menu_bar: bool,
    /// Repeat while held.
    pub repeat: bool,
    /// The start delay.
    pub delay_ms: u32,
    /// The time between repeats.
    pub interval_ms: u32,
}

/// What the form shows, with fallbacks while there are no preferences yet.
pub open spec fn shown(settings: Option<AppSettings>) -> Shown {
    match settings {
        Some(a) => Shown {
            launch: a.launch_at_login,
            updates: a.check_for_updates,
            in_menu_bar: a.show_in_menu_bar,
            repeat: a.key_repeat_enabled,
            delay_ms: a.key_repeat_delay_ms,
            interval_ms: a.key_repeat_interval_ms,
        },
        None => Shown {
            launch: false,
            updates: false,
            in_menu_bar: false,
            repeat: DEFAULT_REPEAT_ENABLED,
            delay_ms: DEFAULT_REPEAT_DELAY_MS,
            interval_ms: DEFAULT_REPEAT_INTERVAL_MS,
        },
    }
}

/// The preferences behind an optional reference.
pub open spec fn settings_value(settings: Option<&AppSettings>) -> Option<AppSettings> {
    match settings {
        Some(a) => Some(*a),
        None => None,
    }
}

/// The launch-at-login row.
pub open spec fn launch_row(platform: Platform, checked: bool) -> SwitchView {
    SwitchView {
        switch: SwitchId::LaunchAtLogin,
        id: "launch-at-login"@,
        title: "Launch at login"@,
        description: if platform is MacOs {
            "Automatically start OpenLogi when you log in to macOS."@
        } else {
            "Automatically start OpenLogi when you log in."@
        },
        checked,
    }
}

/// The check-for-updates row.
pub open spec fn updates_row(checked: bool) -> SwitchView {
    SwitchView {
        switch: SwitchId::CheckForUpdates,
        id: "check-for-updates"@,
        title: "Check for updates"@,
        description:
            "Check once per launch for a new version (query only — no automatic download)."@,
        checked,
    }
}

/// The row of the tray icon, on platforms that have a tray.
pub open spec fn tray_rows(platform: Platform, checked: bool) -> Seq<SwitchView> {
    match platform {
        Platform::MacOs => seq![
            SwitchView {
                switch: SwitchId::ShowInMenuBar,
                id: "show-in-menu-bar"@,
                title: "Show in menu bar"@,
                description:
                    "Keep OpenLogi's icon in the menu bar. When off, it stays in the Dock instead."@,
                checked,
            },
        ],
        Platform::Windows => seq![
            SwitchView {
                switch: SwitchId::ShowInMenuBar,
                id: "show-in-menu-bar"@,
                title: "Show in tray"@,
                description:
                    "Keep OpenLogi's icon in the notification area so it keeps running when you close the window."@,
                checked,
            },
        ],
        Platform::Other => Seq::empty(),
    }
}

/// The repeat-while-held row.
pub open spec fn repeat_row(checked: bool) -> SwitchView {
    SwitchView {
        switch: SwitchId::KeyRepeat,
        id: "key-repeat-enabled"@,
        title: "Repeat while held"@,
        description:
            "Holding a side button bound to volume or scrolling repeats the action, like a held key."@,
        checked,
    }
}

/// A number of milliseconds, as the form writes it.
pub open spec fn ms_text(ms: u32) -> Seq<char> {
    text::decimal(ms as nat) + " ms"@
}

/// The form for the preferences in `s`.
pub open spec fn form(s: Shown, platform: Platform) -> FormView {
    FormView {
        title: "Settings"@,
        general_title: "General"@,
        general: seq![launch_row(platform, s.launch), updates_row(s.updates)] + tray_rows(
            platform,
            s.in_menu_bar,
        ),
        repeat_title: "Key repeat"@,
        repeat: repeat_row(s.repeat),
        delay: SliderView {
            title: "Start delay"@,
            value: ms_text(s.delay_ms),
            description: "How long to hold before the repeat begins."@,
        },
        interval: SliderView {
            title: "Repeat rate"@,
            value: ms_text(s.interval_ms),
            description: "Time between repeats — smaller is faster."@,
        },
        language_title: "Language"@,
        language_description: "Choose the interface language."@,
    }
}

/// Writes a number of milliseconds.
fn ms_label(ms: u32) -> (r: String)
    ensures
        r@ == ms_text(ms),
{
    let mut s = String::new();
    push_decimal(&mut s, ms as u64);
    s.append(" ms");
    assert(s@ =~= ms_text(ms));
    s
}

/// The state of the Settings window that outlives a repaint.
#[derive(Debug)]
pub struct SettingsView {
    /// The entries of the language picker.
    pub languages: Vec<LanguageOption>,
    /// The row of the picker that is selected at first.
    pub selected: usize,
    /// The slider of the start delay.
    pub delay: SliderRange,
    /// The slider of the repeat rate.
    pub interval: SliderRange,
}

/// The stored language preference, if there are preferences.
pub open spec fn stored_language(settings: Option<&AppSettings>) -> Option<Seq<char>> {
    match settings {
        Some(a) => match a.language {
            Some(code) => Some(code@),
            None => None,
        },
        None => None,
    }
}

impl SettingsView {
    /// The window as it opens, for the stored preferences (`None` while there
    /// are none) and the supported locales.
    pub fn new(settings: Option<&AppSettings>, supported: &[(&'static str, &'static str)]) -> (r:
        SettingsView)
        ensures
            option_views(r.languages@) == picker(supported@),
            r.selected == selected_row(stored_language(settings), picker(supported@)),
            r.delay == (SliderRange {
                min: REPEAT_DELAY_MIN,
                max: REPEAT_DELAY_MAX,
                step: REPEAT_DELAY_STEP,
                value: shown(settings_value(settings)).delay_ms,
            }),
            r.interval == (SliderRange {
                min: REPEAT_INTERVAL_MIN,
                max: REPEAT_INTERVAL_MAX,
                step: REPEAT_INTERVAL_STEP,
                value: shown(settings_value(settings)).interval_ms,
            }),
    {
        let languages = language_options(supported);
        let current: Option<&str> = match settings {
            Some(a) => match &a.language {
                Some(code) => Some(code.as_str()),
                None => None,
            },
            None => None,
        };
        let selected: usize = selected_language_index(current, &languages);
        let (delay_ms, interval_ms): (u32, u32) = match settings {
            Some(a) => (a.key_repeat_delay_ms, a.key_repeat_interval_ms),
            None => (DEFAULT_REPEAT_DELAY_MS, DEFAULT_REPEAT_INTERVAL_MS),
        };
        SettingsView {
            languages,
            selected,
            delay: SliderRange {
                min: REPEAT_DELAY_MIN,
                max: REPEAT_DELAY_MAX,
                step: REPEAT_DELAY_STEP,
                value: delay_ms,
            },
            interval: SliderRange {
                min: REPEAT_INTERVAL_MIN,
                max: REPEAT_INTERVAL_MAX,
                step: REPEAT_INTERVAL_STEP,
                value: interval_ms,
            },
        }
    }

    /// Takes in the value of the entry that was chosen. The titles in the tray
    /// are in no window, so they are refreshed where there is a tray.
    pub fn on_language_select(selected: Option<&str>, platform: Platform) -> (r: LanguageChange)
        ensures
            text::text_view(r.language) == preference(preference_view(selected)),
            r.refresh_tray == (platform is MacOs || platform is Windows),
    {
        let language = match selected {
            Some(code) => if code.is_empty() {
                None
            } else {
                Some(code.to_owned())
            },
            None => None,
        };
        let refresh_tray = match platform {
            Platform::MacOs | Platform::Windows => true,
            Platform::Other => false,
        };
        LanguageChange { language, refresh_tray }
    }

    /// The form to paint, for the stored preferences.
    pub fn render(settings: Option<&AppSettings>, platform: Platform) -> (r: SettingsForm)
        ensures
            r@ == form(shown(settings_value(settings)), platform),
    {
        let (launch, updates, in_menu_bar) = match settings {
            Some(a) => (a.launch_at_login, a.check_for_updates, a.show_in_menu_bar),
            None => (false, false, false),
        };
        let (repeat_on, delay_ms, interval_ms): (bool, u32, u32) = match settings {
            Some(a) => (a.key_repeat_enabled, a.key_repeat_delay_ms, a.key_repeat_interval_ms),
            None => (DEFAULT_REPEAT_ENABLED, DEFAULT_REPEAT_DELAY_MS, DEFAULT_REPEAT_INTERVAL_MS),
        };
        let launch_description = match platform {
            Platform::MacOs => "Automatically start OpenLogi when you log in to macOS.",
            _ => "Automatically start OpenLogi when you log in.",
        };
        let mut general: Vec<SwitchRow> = Vec::new();
        general.push(
            SwitchRow {
                switch: SwitchId::LaunchAtLogin,
                id: "launch-at-login",
                title: "Launch at login",
                description: launch_description,
                checked: launch,
            },
        );
        general.push(
            SwitchRow {
                switch: SwitchId::CheckForUpdates,
                id: "check-for-updates",
                title: "Check for updates",
                description:
                    "Check once per launch for a new version (query only — no automatic download).",
                checked: updates,
            },
        );
        match platform {
            Platform::MacOs => {
                general.push(
                    SwitchRow {
                        switch: SwitchId::ShowInMenuBar,
                        id: "show-in-menu-bar",
                        title: "Show in menu bar",
                        description:
                            "Keep OpenLogi's icon in the menu bar. When off, it stays in the Dock instead.",
                        checked: in_menu_bar,
                    },
                );
            },
            Platform::Windows => {
                general.push(
                    SwitchRow {
                        switch: SwitchId::ShowInMenuBar,
                        id: "show-in-menu-bar",
                        title: "Show in tray",
                        description:
                            "Keep OpenLogi's icon in the notification area so it keeps running when you close the window.",
                        checked: in_menu_bar,
                    },
                );
            },
            Platform::Other => {},
        }
        let ghost s = shown(settings_value(settings));
        assert(general@.map_values(|r: SwitchRow| r@) =~= form(s, platform).general);
        SettingsForm {
            title: "Settings",
            general_title: "General",
            general,
            repeat_title: "Key repeat",
            repeat: SwitchRow {
                switch: SwitchId::KeyRepeat,
                id: "key-repeat-enabled",
                title: "Repeat while held",
                description:
                    "Holding a side button bound to volume or scrolling repeats the action, like a held key.",
                checked: repeat_on,
            },
            delay: SliderRow {
                title: "Start delay",
                value: ms_label(delay_ms),
                description: "How long to hold before the repeat begins.",
            },
            interval: SliderRow {
                title: "Repeat rate",
                value: ms_label(interval_ms),
                description: "Time between repeats — smaller is faster.",
            },
            language_title: "Language",
            language_description: "Choose the interface language.",
        }
    }
}

/// The preferences after a switch was set.
pub open spec fn switched(a: AppSettings, switch: SwitchId, enabled: bool) -> AppSettings {
    match switch {
        SwitchId::LaunchAtLogin => AppSettings { launch_at_login: enabled, ..a },
        SwitchId::CheckForUpdates => AppSettings { check_for_updates: enabled, ..a },
        SwitchId::ShowInMenuBar => AppSettings { show_in_menu_bar: enabled, ..a },
        SwitchId::KeyRepeat => AppSettings { key_repeat_enabled: enabled, ..a },
    }
}

/// A switch of the form was clicked.
pub fn set_switch(settings: &mut AppSettings, switch: SwitchId, enabled: bool)
    ensures
        *final(settings) == switched(*old(settings), switch, enabled),
{
    match switch {
        SwitchId::LaunchAtLogin => {
            settings.launch_at_login = enabled;
        },
        SwitchId::CheckForUpdates => {
            settings.check_for_updates = enabled;
        },
        SwitchId::ShowInMenuBar => {
            settings.show_in_menu_bar = enabled;
        },
        SwitchId::KeyRepeat => {
            settings.key_repeat_enabled = enabled;
        },
    }
}

// ---------------------------------------------------------------------------
// Laws
// ---------------------------------------------------------------------------

/// An entry with the value is found, if there is one, and the first such.
proof fn lemma_position(options: Seq<OptionView>, value: Seq<char>)
    ensures
        match position(options, value) {
            Some(n) => {
                &&& n < options.len()
                &&& options[n as int].value == value
                &&& forall|j: int| 0 <= j < n ==> (#[trigger] options[j]).value != value
            },
            None => forall|j: int|
                0 <= j < options.len() ==> (#[trigger] options[j]).value != value,
        },
    decreases options.len(),
{
    if options.len() > 0 && options[0].value != value {
        let rest = options.drop_first();
        lemma_position(rest, value);
        match position(rest, value) {
            Some(n) => {
                assert(rest[n as int] == options[n as int + 1]);
                assert forall|j: int| 0 <= j < n + 1 implies (#[trigger] options[j]).value
                    != value by {
                    if j > 0 {
                        assert(rest[j - 1] == options[j]);
                    }
                }
            },
            None => {
                assert forall|j: int| 0 <= j < options.len() implies (#[trigger] options[j]).value
                    != value by {
                    if j > 0 {
                        assert(rest[j - 1] == options[j]);
                    }
                }
            },
        }
    }
}

/// The picker shows what is stored: the row that is selected for a preference
/// stands for that preference, if it is unset or supported.
pub proof fn law_picker_round_trip(
    current: Option<Seq<char>>,
    supported: Seq<(&'static str, &'static str)>,
)
    requires
        current matches Some(code) ==> code.len() > 0 && exists|i: int|
            0 <= i < supported.len() && (#[trigger] supported[i]).0@ == code,
    ensures
        selected_row(current, picker(supported)) < picker(supported).len(),
        preference(
            Some(picker(supported)[selected_row(current, picker(supported)) as int].value),
        ) == current,
{
    let options = picker(supported);
    match current {
        Some(code) => {
            lemma_position(options, code);
            let i = choose|i: int|
                0 <= i < supported.len() && (#[trigger] supported[i]).0@ == code;
            assert(options[i + 1].value == code);
        },
        None => {
            lemma_position(options, Seq::empty());
            assert(options[0].value == Seq::<char>::empty());
        },
    }
}

/// A preference that is not supported any more selects the system's language.
pub proof fn law_unknown_language_follows_the_system(
    code: Seq<char>,
    supported: Seq<(&'static str, &'static str)>,
)
    requires
        forall|i: int| 0 <= i < supported.len() ==> (#[trigger] supported[i]).0@ != code,
    ensures
        selected_row(Some(code), picker(supported)) == 0,
        picker(supported)[0] == follow_system(),
{
    let options = picker(supported);
    lemma_position(options, code);
    match position(options, code) {
        Some(n) => {
            if n > 0 {
                assert(options[n as int].value == supported[n - 1].0@);
            }
        },
        None => {},
    }
}

/// A released slider never leaves its range: a value within it is taken as it
/// is, one beyond an end becomes that end, and a greater value never becomes the
/// smaller one.
pub proof fn law_released_values_stay_in_range(raw: u32, other: u32, lo: u32, hi: u32)
    requires
        lo <= hi,
    ensures
        lo <= clamped(raw, lo, hi) <= hi,
        lo <= raw <= hi ==> clamped(raw, lo, hi) == raw,
        raw < lo ==> clamped(raw, lo, hi) == lo,
        raw > hi ==> clamped(raw, lo, hi) == hi,
        raw <= other ==> clamped(raw, lo, hi) <= clamped(other, lo, hi),
        clamped(clamped(raw, lo, hi), lo, hi) == clamped(raw, lo, hi),
{
}

/// A click on a switch shows: its row is on exactly as clicked, and nothing else
/// in the form changes.
pub proof fn law_switch_shows(a: AppSettings, switch: SwitchId, enabled: bool, platform: Platform)
    ensures
        ({
            let before = form(shown(Some(a)), platform);
            let after = form(shown(Some(switched(a, switch, enabled))), platform);
            &&& after.general.len() == before.general.len()
            &&& forall|i: int|
                0 <= i < before.general.len() ==> #[trigger] after.general[i] == (SwitchView {
                    checked: if before.general[i].switch == switch {
                        enabled
                    } else {
                        before.general[i].checked
                    },
                    ..before.general[i]
                })
            &&& after.repeat == (SwitchView {
                checked: if switch is KeyRepeat {
                    enabled
                } else {
                    before.repeat.checked
                },
                ..before.repeat
            })
            &&& after.delay == before.delay
            &&& after.interval == before.interval
        }),
{
}

/// The runtime configuration of the preferences.
pub open spec fn repeat_config(a: AppSettings) -> RepeatConfig {
    RepeatConfig::resolved(a.key_repeat_enabled, a.key_repeat_delay_ms, a.key_repeat_interval_ms)
}

/// A released slider shows and takes effect: its value stands beside its title,
/// the runtime configuration uses it, and nothing else changes in either.
pub proof fn law_released_slider_shows_and_takes_effect(
    a: AppSettings,
    raw: u32,
    platform: Platform,
)
    ensures
        ({
            let before = form(shown(Some(a)), platform);
            let value = clamped(raw, REPEAT_DELAY_MIN, REPEAT_DELAY_MAX);
            let b = delay_released(a, raw);
            &&& form(shown(Some(b)), platform) == (FormView {
                delay: SliderView { value: ms_text(value), ..before.delay },
                ..before
            })
            &&& repeat_config(b) == (RepeatConfig { delay: value as u64, ..repeat_config(a) })
        }),
        ({
            let before = form(shown(Some(a)), platform);
            let value = clamped(raw, REPEAT_INTERVAL_MIN, REPEAT_INTERVAL_MAX);
            let b = interval_released(a, raw);
            &&& form(shown(Some(b)), platform) == (FormView {
                interval: SliderView { value: ms_text(value), ..before.interval },
                ..before
            })
            &&& repeat_config(b) == (RepeatConfig { interval: value as u64, ..repeat_config(a) })
        }),
{
}

/// The form shows the preferences as they are: each switch is on exactly when its
/// preference is, in this order, and each slider shows its milliseconds. The
/// tray has a row exactly where there is a tray.
pub proof fn law_form_shows_the_preferences(a: AppSettings, platform: Platform)
    ensures
        ({
            let f = form(shown(Some(a)), platform);
            &&& f.general.len() == if platform is Other {
                2int
            } else {
                3int
            }
            &&& f.general[0].switch is LaunchAtLogin && f.general[0].checked == a.launch_at_login
            &&& f.general[1].switch is CheckForUpdates && f.general[1].checked
                == a.check_for_updates
            &&& !(platform is Other) ==> f.general[2].switch is ShowInMenuBar
                && f.general[2].checked == a.show_in_menu_bar
            &&& f.repeat.switch is KeyRepeat && f.repeat.checked == a.key_repeat_enabled
            &&& f.delay.value == text::decimal(a.key_repeat_delay_ms as nat) + " ms"@
            &&& f.interval.value == text::decimal(a.key_repeat_interval_ms as nat) + " ms"@
        }),
{
}

/// Without preferences the form shows what stands in for them: everything off,
/// but for key-repeat with its default times.
pub proof fn law_form_falls_back(platform: Platform)
    ensures
        ({
            let f = form(shown(None), platform);
            &&& forall|i: int| 0 <= i < f.general.len() ==> !(#[trigger] f.general[i]).checked
            &&& f.repeat.checked == DEFAULT_REPEAT_ENABLED
            &&& f.delay.value == text::decimal(DEFAULT_REPEAT_DELAY_MS as nat) + " ms"@
            &&& f.interval.value == text::decimal(DEFAULT_REPEAT_INTERVAL_MS as nat) + " ms"@
        }),
{
}

/// The words of the form do not depend on the preferences: only where the
/// platform differs do the launch description and the tray row.
pub proof fn law_form_wording(s: Shown, platform: Platform)
    ensures
        ({
            let f = form(s, platform);
            &&& f.title == "Settings"@ && f.general_title == "General"@
            &&& f.repeat_title == "Key repeat"@ && f.language_title == "Language"@
            &&& f.language_description == "Choose the interface language."@
            &&& f.general[0].id == "launch-at-login"@ && f.general[0].title == "Launch at login"@
            &&& platform is MacOs ==> f.general[0].description
                == "Automatically start OpenLogi when you log in to macOS."@
            &&& !(platform is MacOs) ==> f.general[0].description
                == "Automatically start OpenLogi when you log in."@
            &&& f.general[1].id == "check-for-updates"@ && f.general[1].title
                == "Check for updates"@
            &&& f.general[1].description
                == "Check once per launch for a new version (query only — no automatic download)."@
            &&& platform is MacOs ==> f.general[2].id == "show-in-menu-bar"@ && f.general[2].title
                == "Show in menu bar"@ && f.general[2].description
                == "Keep OpenLogi's icon in the menu bar. When off, it stays in the Dock instead."@
            &&& platform is Windows ==> f.general[2].id == "show-in-menu-bar"@
                && f.general[2].title == "Show in tray"@ && f.general[2].description
                == "Keep OpenLogi's icon in the notification area so it keeps running when you close the window."@
            &&& f.repeat.id == "key-repeat-enabled"@ && f.repeat.title == "Repeat while held"@
            &&& f.repeat.description
                == "Holding a side button bound to volume or scrolling repeats the action, like a held key."@
            &&& f.delay.title == "Start delay"@ && f.delay.description
                == "How long to hold before the repeat begins."@
            &&& f.interval.title == "Repeat rate"@ && f.interval.description
                == "Time between repeats — smaller is faster."@
        }),
{
}

/// A click on a switch stores just that: its own preference becomes what was
/// clicked, and every other one, the language and both times stay.
pub proof fn law_switch_stores_its_own_preference(
    a: AppSettings,
    switch: SwitchId,
    enabled: bool,
)
    ensures
        ({
            let b = switched(a, switch, enabled);
            &&& b.language == a.language
            &&& b.key_repeat_delay_ms == a.key_repeat_delay_ms
            &&& b.key_repeat_interval_ms == a.key_repeat_interval_ms
            &&& b.launch_at_login == if switch is LaunchAtLogin {
                enabled
            } else {
                a.launch_at_login
            }
            &&& b.check_for_updates == if switch is CheckForUpdates {
                enabled
            } else {
                a.check_for_updates
            }
            &&& b.show_in_menu_bar == if switch is ShowInMenuBar {
                enabled
            } else {
                a.show_in_menu_bar
            }
            &&& b.key_repeat_enabled == if switch is KeyRepeat {
                enabled
            } else {
                a.key_repeat_enabled
            }
        }),
{
}

/// A slider stores just its own time, and only when it is released: the value
/// where it stands within its bounds, the nearer bound otherwise. A drag stores
/// nothing.
pub proof fn law_slider_stores_its_own_time(a: AppSettings, slider: SliderId, raw: u32)
    ensures
        slid(a, slider, SliderEvent::Change(raw)) == a,
        ({
            let b = slid(a, slider, SliderEvent::Release(raw));
            &&& b.language == a.language
            &&& b.launch_at_login == a.launch_at_login
            &&& b.check_for_updates == a.check_for_updates
            &&& b.show_in_menu_bar == a.show_in_menu_bar
            &&& b.key_repeat_enabled == a.key_repeat_enabled
            &&& slider is Delay ==> b.key_repeat_interval_ms == a.key_repeat_interval_ms
            &&& slider is Interval ==> b.key_repeat_delay_ms == a.key_repeat_delay_ms
            &&& slider is Delay ==> REPEAT_DELAY_MIN <= b.key_repeat_delay_ms <= REPEAT_DELAY_MAX
            &&& slider is Delay && REPEAT_DELAY_MIN <= raw <= REPEAT_DELAY_MAX
                ==> b.key_repeat_delay_ms == raw
            &&& slider is Delay && raw < REPEAT_DELAY_MIN ==> b.key_repeat_delay_ms
                == REPEAT_DELAY_MIN
            &&& slider is Delay && raw > REPEAT_DELAY_MAX ==> b.key_repeat_delay_ms
                == REPEAT_DELAY_MAX
            &&& slider is Interval && REPEAT_INTERVAL_MIN <= raw <= REPEAT_INTERVAL_MAX
                ==> b.key_repeat_interval_ms == raw
            &&& slider is Interval && raw < REPEAT_INTERVAL_MIN ==> b.key_repeat_interval_ms
                == REPEAT_INTERVAL_MIN
            &&& slider is Interval && raw > REPEAT_INTERVAL_MAX ==> b.key_repeat_interval_ms
                == REPEAT_INTERVAL_MAX
        }),
        delay_released(a, raw) == slid(a, SliderId::Delay, SliderEvent::Release(raw)),
        interval_released(a, raw) == slid(a, SliderId::Interval, SliderEvent::Release(raw)),
{
}

/// The picker lists the system's language first, under an empty value and with a
/// translated label, and then every supported locale in order, each under its
/// own code and name as they are.
pub proof fn law_picker_lists_every_locale(supported: Seq<(&'static str, &'static str)>, i: int)
    ensures
        picker(supported).len() == supported.len() + 1,
        picker(supported)[0].value.len() == 0,
        picker(supported)[0].label == "Follow system"@,
        picker(supported)[0].localize_label,
        0 <= i < supported.len() ==> picker(supported)[i + 1].value == supported[i].0@
            && picker(supported)[i + 1].label == supported[i].1@
            && !picker(supported)[i + 1].localize_label,
{
}

/// The row that is selected is the first one with the stored value, an empty one
/// where nothing is stored.
pub proof fn law_first_matching_row_is_selected(
    current: Option<Seq<char>>,
    options: Seq<OptionView>,
    i: int,
)
    requires
        0 <= i < options.len(),
        current matches Some(code) ==> options[i].value == code && forall|j: int|
            0 <= j < i ==> (#[trigger] options[j]).value != code,
        current is None ==> options[i].value == Seq::<char>::empty() && forall|j: int|
            0 <= j < i ==> (#[trigger] options[j]).value != Seq::<char>::empty(),
    ensures
        selected_row(current, options) == i,
{
    let value = match current {
        Some(code) => code,
        None => Seq::empty(),
    };
    lemma_position(options, value);
    match position(options, value) {
        Some(n) => {
            if n < i {
                assert(options[n as int].value != value);
            }
            if i < n {
                assert(options[i].value != value);
            }
        },
        None => {
            assert(options[i].value != value);
        },
    }
}

/// Choosing a locale stores its code; choosing the system's language, or
/// nothing, stores none.
pub proof fn law_chosen_language_is_stored(code: Seq<char>)
    ensures
        code.len() > 0 ==> preference(Some(code)) == Some(code),
        preference(Some(Seq::empty())) is None,
        preference(None) is None,
{
}

/// Options, rows and preferences are seen as they are.
pub proof fn law_rows_are_seen_as_they_are(
    option: LanguageOption,
    switch: SwitchRow,
    slider: SliderRow,
    form: SettingsForm,
    settings: AppSettings,
    code: &str,
)
    ensures
        form@.title == form.title@,
        form@.general_title == form.general_title@,
        form@.general.len() == form.general@.len(),
        forall|i: int|
            0 <= i < form.general@.len() ==> #[trigger] form@.general[i] == form.general@[i]@,
        form@.repeat_title == form.repeat_title@,
        form@.repeat == form.repeat@,
        form@.delay == form.delay@,
        form@.interval == form.interval@,
        form@.language_title == form.language_title@,
        form@.language_description == form.language_description@,
        option@.label == option.label@,
        option@.value == option.value@,
        option@.localize_label == option.localize_label,
        switch@.switch == switch.switch,
        switch@.id == switch.id@,
        switch@.title == switch.title@,
        switch@.description == switch.description@,
        switch@.checked == switch.checked,
        slider@.title == slider.title@,
        slider@.value == slider.value@,
        slider@.description == slider.description@,
        settings_value(Some(&settings)) == Some(settings),
        settings_value(None) is None,
        settings.language matches Some(l) ==> stored_language(Some(&settings)) == Some(l@),
        settings.language is None ==> stored_language(Some(&settings)) is None,
        stored_language(None) is None,
        preference_view(Some(code)) == Some(code@),
        preference_view(None) is None,
{
}

} // verus!
