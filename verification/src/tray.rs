//! System-tray and status-item presence.
//!
//! macOS has a status item in the menu bar, Windows an icon in the notification
//! area that a hidden window owns. Both show the device line and the same two
//! commands, and both report clicks as a [`TrayEvent`]. What is shown and what
//! each window message leads to is decided here.

use vstd::prelude::*;
use crate::utf16;
use crate::utf16::wide;
use crate::win_hook::{WM_LBUTTONUP, WM_RBUTTONUP};

verus! {

/// A request raised by clicking the tray icon or its menu, or by a live language
/// switch.
#[derive(Clone, Copy, Debug, PartialEq, Eq, Structural)]
pub enum TrayEvent {
    /// Open the main window.
    Open,
    /// Quit the app.
    Quit,
    /// Recompute the labels for the current locale.
    Refresh,
}

/// The first message id that an app may use for itself.
pub const WM_APP: u32 = 32768;

/// A window is being destroyed.
pub const WM_DESTROY: u32 = 2;

/// Icon callback message: mouse events on the tray icon land here.
pub const WM_TRAYICON: u32 = WM_APP + 1;

/// Asks the tray window to add or remove the icon (wParam != 0: add).
pub const WM_TRAY_SETVISIBLE: u32 = WM_APP + 2;

/// Asks the tray window to destroy itself.
pub const WM_TRAY_QUIT: u32 = WM_APP + 3;

/// The id of the open command in the menu.
pub const ID_OPEN: usize = 1;

/// The id of the quit command in the menu.
pub const ID_QUIT: usize = 2;

/// The name that window and tooltip carry.
pub const APP_NAME: &'static str = "OpenLogi";

/// The class of the hidden window.
pub const WINDOW_CLASS: &'static str = "OpenLogiTrayWindow";

/// How the app shows up on macOS.
#[derive(Clone, Copy, Debug, PartialEq, Eq, Structural)]
pub enum ActivationPolicy {
    /// In the Dock, with a menu bar.
    Regular,
    /// As a status item only.
    Accessory,
}

/// Shows the app in the Dock and the menu bar, which is asked for when a window
/// opens.
pub fn show_in_dock() -> (r: ActivationPolicy)
    ensures
        r == ActivationPolicy::Regular,
{
    ActivationPolicy::Regular
}

/// Drops the app out of the Dock, which is asked for when the last window
/// closes.
pub fn hide_from_dock() -> (r: ActivationPolicy)
    ensures
        r == ActivationPolicy::Accessory,
{
    ActivationPolicy::Accessory
}

/// The titles of a menu that persists (the status item of macOS has one).
#[derive(Debug)]
pub struct MenuLabels {
    /// The device line.
    pub device: String,
    /// The open command.
    pub open: String,
    /// The quit command.
    pub quit: String,
}

/// The view of [`MenuLabels`].
pub struct LabelsView {
    /// The device line.
    pub device: Seq<char>,
    /// The open command.
    pub open: Seq<char>,
    /// The quit command.
    pub quit: Seq<char>,
}

impl View for MenuLabels {
    type V = LabelsView;

    open spec fn view(&self) -> LabelsView {
        LabelsView { device: self.device@, open: self.open@, quit: self.quit@ }
    }
}

/// Everything the tray remembers.
#[derive(Debug)]
pub struct Tray {
    window: isize,
    visible: bool,
    device_status: String,
    labels: Option<MenuLabels>,
}

/// The view of a [`Tray`].
pub struct TrayView {
    /// The handle of the hidden window, zero before it exists.
    pub window: isize,
    /// Whether the icon is shown.
    pub visible: bool,
    /// The device line, empty before there was one.
    pub device_status: Seq<char>,
    /// The titles of the persistent menu, once it is installed.
    pub labels: Option<LabelsView>,
}

impl View for Tray {
    type V = TrayView;

    closed spec fn view(&self) -> TrayView {
        TrayView {
            window: self.window,
            visible: self.visible,
            device_status: self.device_status@,
            labels: match self.labels {
                Some(l) => Some(l@),
                None => None,
            },
        }
    }
}

/// The tray before anything is installed.
pub open spec fn absent() -> TrayView {
    TrayView { window: 0, visible: false, device_status: Seq::empty(), labels: None }
}

/// A message to post to the tray window.
#[derive(Clone, Copy, Debug, PartialEq, Eq, Structural)]
pub struct TrayPost {
    /// The window.
    pub window: isize,
    /// The message.
    pub msg: u32,
    /// Its first parameter.
    pub wparam: usize,
}

/// What a change of visibility asks for.
#[derive(Clone, Copy, Debug, PartialEq, Eq, Structural)]
pub enum VisibilityOrder {
    /// Post this message to the tray window.
    Post(TrayPost),
    /// Show or hide the status item.
    StatusItem(bool),
}

impl Tray {
    /// The tray before anything is installed.
    pub fn new() -> (r: Tray)
        ensures
            r@ == absent(),
    {
        Tray { window: 0, visible: false, device_status: String::new(), labels: None }
    }

    /// The handle of the hidden window, zero before it exists.
    pub fn window(&self) -> (r: isize)
        ensures
            r == self@.window,
    {
        self.window
    }

    /// Whether the icon is shown.
    pub fn is_visible(&self) -> (r: bool)
        ensures
            r == self@.visible,
    {
        self.visible
    }

    /// Takes in the hidden window. Returns whether there is one; its icon is
    /// then to be added at once.
    pub fn window_created(&mut self, window: isize) -> (r: bool)
        ensures
            r == (window != 0),
            final(self)@ == (if window == 0 {
                old(self)@
            } else {
                TrayView { window, visible: true, ..old(self)@ }
            }),
    {
        if window == 0 {
            return false;
        }
        self.window = window;
        self.visible = true;
        true
    }

    /// Installs the persistent menu, with the idle text as its device line.
    pub fn build_menu(&mut self, idle: &str, open: &str, quit: &str)
        ensures
            final(self)@ == (TrayView {
                labels: Some(LabelsView { device: idle@, open: open@, quit: quit@ }),
                ..old(self)@
            }),
    {
        self.labels = Some(
            MenuLabels { device: idle.to_owned(), open: open.to_owned(), quit: quit.to_owned() },
        );
    }

    /// The titles of the persistent menu.
    pub fn labels(&self) -> (r: Option<&MenuLabels>)
        ensures
            match r {
                Some(l) => self@.labels == Some(l@),
                None => self@.labels is None,
            },
    {
        self.labels.as_ref()
    }
}

/// What showing or hiding the icon asks for: a message to the window that owns
/// it, or the status item itself where a persistent menu is installed, and
/// nothing before either is.
pub open spec fn visibility_order(tray: TrayView, visible: bool) -> Option<VisibilityOrder> {
    if tray.window != 0 {
        Some(
            VisibilityOrder::Post(
                TrayPost {
                    window: tray.window,
                    msg: WM_TRAY_SETVISIBLE,
                    wparam: if visible {
                        1
                    } else {
                        0
                    },
                },
            ),
        )
    } else if tray.labels is Some {
        Some(VisibilityOrder::StatusItem(visible))
    } else {
        None
    }
}

/// Shows or hides the icon without tearing anything down. A no-op before the
/// tray is installed.
pub fn set_visible(tray: &Tray, visible: bool) -> (r: Option<VisibilityOrder>)
    ensures
        r == visibility_order(tray@, visible),
{
    if tray.window != 0 {
        let wparam: usize = if visible {
            1
        } else {
            0
        };
        Some(
            VisibilityOrder::Post(
                TrayPost { window: tray.window, msg: WM_TRAY_SETVISIBLE, wparam },
            ),
        )
    } else if tray.labels.is_some() {
        Some(VisibilityOrder::StatusItem(visible))
    } else {
        None
    }
}

/// Updates the device line, e.g. `"MX Master 3S · 80%"`, and its title in the
/// persistent menu where there is one.
pub fn set_device_status(tray: &mut Tray, text: &str)
    ensures
        final(tray)@ == (TrayView {
            device_status: text@,
            labels: match old(tray)@.labels {
                Some(l) => Some(LabelsView { device: text@, ..l }),
                None => None,
            },
            ..old(tray)@
        }),
{
    tray.device_status = text.to_owned();
    match tray.labels.take() {
        Some(l) => {
            tray.labels =
            Some(MenuLabels { device: text.to_owned(), open: l.open, quit: l.quit });
        },
        None => {},
    }
}

/// Re-titles the commands of the persistent menu for the current locale. Without
/// one there is nothing to re-title: a menu that is built whenever it opens has
/// current titles anyway.
pub fn refresh_labels(tray: &mut Tray, open: &str, quit: &str)
    ensures
        final(tray)@ == (TrayView {
            labels: match old(tray)@.labels {
                Some(l) => Some(LabelsView { open: open@, quit: quit@, ..l }),
                None => None,
            },
            ..old(tray)@
        }),
{
    match tray.labels.take() {
        Some(l) => {
            tray.labels =
            Some(MenuLabels { device: l.device, open: open.to_owned(), quit: quit.to_owned() });
        },
        None => {},
    }
}

/// Asks for the device line to be recomputed after a locale switch.
pub fn request_refresh() -> (r: TrayEvent)
    ensures
        r == TrayEvent::Refresh,
{
    TrayEvent::Refresh
}

// ---------------------------------------------------------------------------
// The window procedure
// ---------------------------------------------------------------------------

/// What a window message leads to.
#[derive(Clone, Copy, Debug, PartialEq, Eq, Structural)]
pub enum TrayOrder {
    /// Report this event.
    Post(TrayEvent),
    /// Pop up the menu.
    ShowMenu,
    /// Add the icon.
    AddIcon,
    /// Remove the icon.
    DeleteIcon,
    /// Destroy the window.
    DestroyWindow,
    /// Remove the icon and end the message loop.
    DeleteIconAndQuit,
    /// The message is handled and leads to nothing.
    Handled,
    /// Leave the message to the default procedure.
    Default,
}

/// The mouse message in the low word of `lparam`.
pub open spec fn low_word(lparam: isize) -> int {
    lparam as int % 0x10000
}

/// What a window message leads to.
pub open spec fn message_order(visible: bool, msg: u32, wparam: usize, lparam: isize) -> TrayOrder {
    if msg == WM_TRAYICON {
        if low_word(lparam) == WM_LBUTTONUP {
            TrayOrder::Post(TrayEvent::Open)
        } else if low_word(lparam) == WM_RBUTTONUP {
            TrayOrder::ShowMenu
        } else {
            TrayOrder::Handled
        }
    } else if msg == WM_TRAY_SETVISIBLE {
        if wparam != 0 && !visible {
            TrayOrder::AddIcon
        } else if wparam == 0 && visible {
            TrayOrder::DeleteIcon
        } else {
            TrayOrder::Handled
        }
    } else if msg == WM_TRAY_QUIT {
        TrayOrder::DestroyWindow
    } else if msg == WM_DESTROY {
        TrayOrder::DeleteIconAndQuit
    } else {
        TrayOrder::Default
    }
}

/// Whether the icon counts as shown after a window message.
pub open spec fn visible_after(visible: bool, msg: u32, wparam: usize) -> bool {
    if msg == WM_TRAY_SETVISIBLE {
        wparam != 0
    } else {
        visible
    }
}

/// Reads the low word of `lparam`.
fn low_word_of(lparam: isize) -> (r: u32)
    ensures
        r == low_word(lparam),
{
    let wide: i64 = lparam as i64;
    let low: i64 = wide & 0xFFFF;
    assert(low == wide % 0x10000 && 0 <= low <= 0xFFFF) by (bit_vector)
        requires
            low == wide & 0xFFFF,
    ;
    low as u32
}

/// The procedure of the hidden tray window. Visibility requests are idempotent:
/// an icon that is shown is not added again, and one that is not is not
/// removed.
pub fn wndproc(tray: &mut Tray, msg: u32, wparam: usize, lparam: isize) -> (r: TrayOrder)
    ensures
        r == message_order(old(tray)@.visible, msg, wparam, lparam),
        final(tray)@ == (TrayView {
            visible: visible_after(old(tray)@.visible, msg, wparam),
            ..old(tray)@
        }),
{
    if msg == WM_TRAYICON {
        let mouse: u32 = low_word_of(lparam);
        if mouse == WM_LBUTTONUP {
            TrayOrder::Post(TrayEvent::Open)
        } else if mouse == WM_RBUTTONUP {
            TrayOrder::ShowMenu
        } else {
            TrayOrder::Handled
        }
    } else if msg == WM_TRAY_SETVISIBLE {
        let want = wparam != 0;
        if want && !tray.visible {
            tray.visible = true;
            TrayOrder::AddIcon
        } else if !want && tray.visible {
            tray.visible = false;
            TrayOrder::DeleteIcon
        } else {
            TrayOrder::Handled
        }
    } else if msg == WM_TRAY_QUIT {
        TrayOrder::DestroyWindow
    } else if msg == WM_DESTROY {
        TrayOrder::DeleteIconAndQuit
    } else {
        TrayOrder::Default
    }
}

/// One entry of the context menu, its text in null-terminated UTF-16.
#[derive(Debug)]
pub enum MenuEntry {
    /// A line that cannot be chosen.
    Grayed(Vec<u16>),
    /// A separator.
    Separator,
    /// A command with its id.
    Command(usize, Vec<u16>),
}

/// The view of a [`MenuEntry`].
pub enum EntryView {
    /// A line that cannot be chosen.
    Grayed(Seq<u16>),
    /// A separator.
    Separator,
    /// A command with its id.
    Command(usize, Seq<u16>),
}

impl View for MenuEntry {
    type V = EntryView;

    open spec fn view(&self) -> EntryView {
        match self {
            MenuEntry::Grayed(s) => EntryView::Grayed(s@),
            MenuEntry::Separator => EntryView::Separator,
            MenuEntry::Command(id, s) => EntryView::Command(*id, s@),
        }
    }
}

/// The device line that the menu shows: the status, or `idle` without one.
pub open spec fn device_line(status: Seq<char>, idle: Seq<char>) -> Seq<char> {
    if status.len() > 0 {
        status
    } else {
        idle
    }
}

/// The entries of the context menu, with titles for the current locale.
pub fn show_context_menu(tray: &Tray, idle: &str, open: &str, quit: &str) -> (r: Vec<MenuEntry>)
    ensures
        r@.map_values(|e: MenuEntry| e@) == seq![
            EntryView::Grayed(utf16::wide_form(device_line(tray@.device_status, idle@))),
            EntryView::Separator,
            EntryView::Command(ID_OPEN, utf16::wide_form(open@)),
            EntryView::Command(ID_QUIT, utf16::wide_form(quit@)),
        ],
{
    let device = if tray.device_status.as_str().is_empty() {
        wide(idle)
    } else {
        wide(tray.device_status.as_str())
    };
    let mut entries: Vec<MenuEntry> = Vec::new();
    entries.push(MenuEntry::Grayed(device));
    entries.push(MenuEntry::Separator);
    entries.push(MenuEntry::Command(ID_OPEN, wide(open)));
    entries.push(MenuEntry::Command(ID_QUIT, wide(quit)));
    assert(entries@.map_values(|e: MenuEntry| e@) =~= seq![
        EntryView::Grayed(utf16::wide_form(device_line(tray@.device_status, idle@))),
        EntryView::Separator,
        EntryView::Command(ID_OPEN, utf16::wide_form(open@)),
        EntryView::Command(ID_QUIT, utf16::wide_form(quit@)),
    ]);
    entries
}

/// The event that a choice in the context menu stands for. A menu that was
/// dismissed chooses nothing.
pub fn chosen(command: i32) -> (r: Option<TrayEvent>)
    ensures
        r == (if command == ID_OPEN {
            Some(TrayEvent::Open)
        } else if command == ID_QUIT {
            Some(TrayEvent::Quit)
        } else {
            None
        }),
{
    if command == ID_OPEN as i32 {
        Some(TrayEvent::Open)
    } else if command == ID_QUIT as i32 {
        Some(TrayEvent::Quit)
    } else {
        None
    }
}

/// The tooltip in a buffer of `capacity` code units: as much of the
/// null-terminated text as fits, and zeros behind it.
pub fn tooltip(tip: &str, capacity: usize) -> (r: Vec<u16>)
    ensures
        r@ == Seq::new(
            capacity as nat,
            |i: int|
                if i < utf16::wide_form(tip@).len() {
                    utf16::wide_form(tip@)[i]
                } else {
                    0
                },
        ),
{
    let units = wide(tip);
    let mut buffer: Vec<u16> = Vec::new();
    for i in 0..capacity
        invariant
            units@ == utf16::wide_form(tip@),
            buffer.len() == i,
            forall|j: int|
                0 <= j < i ==> #[trigger] buffer@[j] == (if j < units@.len() {
                    units@[j]
                } else {
                    0
                }),
    {
        if i < units.len() {
            buffer.push(units[i]);
        } else {
            buffer.push(0);
        }
    }
    assert(buffer@ =~= Seq::new(
        capacity as nat,
        |i: int|
            if i < utf16::wide_form(tip@).len() {
                utf16::wide_form(tip@)[i]
            } else {
                0
            },
    ));
    buffer
}

// ---------------------------------------------------------------------------
// Laws
// ---------------------------------------------------------------------------

/// Whether the icon is there after `order` was carried out.
pub open spec fn icon_after(icon: bool, order: TrayOrder) -> bool {
    match order {
        TrayOrder::AddIcon => true,
        TrayOrder::DeleteIcon => false,
        TrayOrder::DeleteIconAndQuit => false,
        _ => icon,
    }
}

/// The tray knows whether its icon is there, until the window is destroyed: no
/// other message makes the two differ, and the icon is never added twice or
/// removed twice.
pub proof fn law_tray_knows_its_icon(icon: bool, msg: u32, wparam: usize, lparam: isize)
    requires
        msg != WM_DESTROY,
    ensures
        icon_after(icon, message_order(icon, msg, wparam, lparam)) == visible_after(
            icon,
            msg,
            wparam,
        ),
        message_order(icon, msg, wparam, lparam) == TrayOrder::AddIcon ==> !icon,
        message_order(icon, msg, wparam, lparam) == TrayOrder::DeleteIcon ==> icon,
{
}

/// A visibility request takes effect, and asking for the same again does
/// nothing.
pub proof fn law_visibility_is_idempotent(icon: bool, wparam: usize, lparam: isize)
    ensures
        visible_after(icon, WM_TRAY_SETVISIBLE, wparam) == (wparam != 0),
        message_order(
            visible_after(icon, WM_TRAY_SETVISIBLE, wparam),
            WM_TRAY_SETVISIBLE,
            wparam,
            lparam,
        ) == TrayOrder::Handled,
{
}

/// Quitting takes the icon along: destroying the window always removes it.
pub proof fn law_destroy_removes_the_icon(icon: bool, wparam: usize, lparam: isize)
    ensures
        !icon_after(icon, message_order(icon, WM_DESTROY, wparam, lparam)),
{
}

/// What a click on the icon leads to: the primary button opens the app, the
/// secondary one the menu, and nothing else does anything, whatever stands in
/// the upper words.
pub proof fn law_clicks_on_the_icon(visible: bool, wparam: usize, lparam: isize)
    ensures
        lparam as int % 0x10000 == WM_LBUTTONUP ==> message_order(
            visible,
            WM_TRAYICON,
            wparam,
            lparam,
        ) == TrayOrder::Post(TrayEvent::Open),
        lparam as int % 0x10000 == WM_RBUTTONUP ==> message_order(
            visible,
            WM_TRAYICON,
            wparam,
            lparam,
        ) is ShowMenu,
        lparam as int % 0x10000 != WM_LBUTTONUP && lparam as int % 0x10000 != WM_RBUTTONUP
            ==> message_order(visible, WM_TRAYICON, wparam, lparam) is Handled,
        visible_after(visible, WM_TRAYICON, wparam) == visible,
{
}

/// A visibility request adds the icon exactly when it is asked for and not there,
/// and removes it exactly when it is not asked for and there.
pub proof fn law_visibility_requests(visible: bool, wparam: usize, lparam: isize)
    ensures
        message_order(visible, WM_TRAY_SETVISIBLE, wparam, lparam) is AddIcon <==> wparam != 0
            && !visible,
        message_order(visible, WM_TRAY_SETVISIBLE, wparam, lparam) is DeleteIcon <==> wparam == 0
            && visible,
        (wparam != 0) == visible ==> message_order(visible, WM_TRAY_SETVISIBLE, wparam, lparam)
            is Handled,
{
}

/// The request to quit destroys the window, its destruction removes the icon and
/// ends the loop, and every foreign message is left to the default procedure.
pub proof fn law_end_of_the_tray_window(
    visible: bool,
    msg: u32,
    wparam: usize,
    lparam: isize,
)
    ensures
        message_order(visible, WM_TRAY_QUIT, wparam, lparam) is DestroyWindow,
        message_order(visible, WM_DESTROY, wparam, lparam) is DeleteIconAndQuit,
        msg != WM_TRAYICON && msg != WM_TRAY_SETVISIBLE && msg != WM_TRAY_QUIT && msg != WM_DESTROY
            ==> message_order(visible, msg, wparam, lparam) is Default && visible_after(
            visible,
            msg,
            wparam,
        ) == visible,
{
}

/// A change of visibility goes where the icon is: to the window that owns it, as
/// a request that the window understands as just that; to the status item where
/// there is a persistent menu instead; and nowhere before either is there.
pub proof fn law_visibility_goes_where_the_icon_is(
    tray: TrayView,
    visible: bool,
    shown: bool,
)
    ensures
        tray.window != 0 ==> (visibility_order(tray, visible) matches Some(
            VisibilityOrder::Post(p),
        ) && p.window == tray.window && p.msg == WM_TRAY_SETVISIBLE && visible_after(
            shown,
            p.msg,
            p.wparam,
        ) == visible),
        tray.window == 0 && tray.labels is Some ==> visibility_order(tray, visible) == Some(
            VisibilityOrder::StatusItem(visible),
        ),
        tray.window == 0 && tray.labels is None ==> visibility_order(tray, visible) is None,
        absent().window == 0,
        absent().labels is None,
        !absent().visible,
        absent().device_status.len() == 0,
{
}

/// The menu shows the device status, in full, unless there is none.
pub proof fn law_menu_shows_the_status(status: Seq<char>, idle: Seq<char>)
    ensures
        status.len() > 0 ==> device_line(status, idle) == status,
        device_line(Seq::empty(), idle) == idle,
{
    assert(status.len() == 0 ==> status =~= Seq::<char>::empty());
}

/// Menu entries and labels are seen as they are.
pub proof fn law_menus_are_seen_as_they_are(entry: MenuEntry, labels: MenuLabels)
    ensures
        entry matches MenuEntry::Grayed(s) ==> entry@ == EntryView::Grayed(s@),
        entry is Separator ==> entry@ is Separator,
        entry matches MenuEntry::Command(id, s) ==> entry@ == EntryView::Command(id, s@),
        labels@.device == labels.device@,
        labels@.open == labels.open@,
        labels@.quit == labels.quit@,
{
}

} // verus!
