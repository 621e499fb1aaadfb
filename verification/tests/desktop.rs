//! Launch-at-login, the tray, and the settings form.

use openlogi::config::AppSettings;
use openlogi::launch_agent::{
    plist_path, reconcile, reconcile_macos, reconcile_windows, render_plist, run_command,
    run_outcome, AutostartHost, AutostartOrder, RunOutcome, LABEL, RUN_SUBKEY, RUN_VALUE,
};
use openlogi::platform::Platform;
use openlogi::repeat::RepeatConfig;
use openlogi::settings::{
    clamp_ms, language_options, on_slider_event, release_delay, release_interval,
    selected_language_index, set_switch, SettingsForm, SettingsView, SliderEvent, SliderId,
    SliderRange, SwitchId,
};
use openlogi::tray::{
    chosen, hide_from_dock, refresh_labels, request_refresh, set_device_status, set_visible,
    show_context_menu, show_in_dock, tooltip, wndproc, ActivationPolicy, MenuEntry, Tray,
    TrayEvent, TrayOrder, TrayPost, VisibilityOrder, WM_APP, WM_DESTROY, WM_TRAYICON,
    WM_TRAY_QUIT, WM_TRAY_SETVISIBLE,
};
use windows_sys::Win32::UI::WindowsAndMessaging as win;

fn wide(s: &str) -> Vec<u16> {
    s.encode_utf16().chain(std::iter::once(0)).collect()
}

const EXE: &str = "/Applications/OpenLogi.app/Contents/MacOS/openlogi-gui";

#[test]
fn rendered_plist_contains_expected_keys() {
    let body = render_plist("/Applications/OpenLogi.app/Contents/MacOS/openlogi-gui");
    assert!(body.contains(LABEL));
    assert!(body.contains("/Applications/OpenLogi.app/Contents/MacOS/openlogi-gui"));
    assert!(body.contains("RunAtLoad"));
    assert!(body.contains("--minimized"));
}

#[test]
fn rendered_plist_is_exact() {
    let want = [
        "<?xml version=\"1.0\" encoding=\"UTF-8\"?>",
        "<!DOCTYPE plist PUBLIC \"-//Apple//DTD PLIST 1.0//EN\" \"http://www.apple.com/DTD/PropertyList-1.0.dtd\">",
        "<plist version=\"1.0\">",
        "<dict>",
        "  <key>Label</key>",
        "  <string>org.openlogi.openlogi</string>",
        "  <key>ProgramArguments</key>",
        "  <array>",
        "    <string>/opt/openlogi</string>",
        "    <string>--minimized</string>",
        "  </array>",
        "  <key>RunAtLoad</key>",
        "  <true/>",
        "  <key>KeepAlive</key>",
        "  <false/>",
        "</dict>",
        "</plist>",
        "",
    ]
    .join("\n");
    assert_eq!(render_plist("/opt/openlogi"), want);
    assert_ne!(render_plist("/opt/openlogi"), render_plist("/opt/openlogi2"));
    assert_eq!(plist_path(), ["Library", "LaunchAgents", "org.openlogi.openlogi.plist"]);
}

#[test]
fn plist_is_reconciled_once() {
    let host = |current: Option<String>| AutostartHost::MacOs {
        exe: Some(EXE.to_string()),
        current,
    };
    let want = render_plist(EXE);
    for current in [None, Some("stale".to_string())] {
        match reconcile(true, &host(current)) {
            AutostartOrder::WritePlist(body) => assert_eq!(body, want),
            other => panic!("{other:?}"),
        }
    }
    assert!(matches!(reconcile(true, &host(Some(want.clone()))), AutostartOrder::Nothing));
    assert!(matches!(reconcile(false, &host(Some(want))), AutostartOrder::RemovePlist));
    assert!(matches!(reconcile(false, &host(None)), AutostartOrder::Nothing));
    assert!(matches!(reconcile_macos(false, EXE, &None), AutostartOrder::Nothing));
    let lost = AutostartHost::MacOs { exe: None, current: None };
    assert!(matches!(reconcile(true, &lost), AutostartOrder::Nothing));
}

#[test]
fn run_value_is_written_and_removed() {
    assert_eq!(run_command("C:\\a b\\OpenLogi.exe"), "\"C:\\a b\\OpenLogi.exe\" --minimized");
    assert_eq!(RUN_SUBKEY, r"Software\Microsoft\Windows\CurrentVersion\Run");
    let exe = Some("C:\\OpenLogi.exe".to_string());
    match reconcile(true, &AutostartHost::Windows { exe: exe.clone() }) {
        AutostartOrder::SetRunValue(v) => {
            assert_eq!(v.subkey, wide(RUN_SUBKEY));
            assert_eq!(v.name, wide(RUN_VALUE));
            assert_eq!(v.data, wide("\"C:\\OpenLogi.exe\" --minimized"));
            assert_eq!(v.byte_len, 2 * v.data.len() as u32);
        }
        other => panic!("{other:?}"),
    }
    match reconcile_windows(false, &exe) {
        AutostartOrder::DeleteRunValue(key, name) => {
            assert_eq!((key, name), (wide(RUN_SUBKEY), wide(RUN_VALUE)));
        }
        other => panic!("{other:?}"),
    }
    assert!(matches!(reconcile_windows(false, &None), AutostartOrder::DeleteRunValue(..)));
    assert!(matches!(reconcile_windows(true, &None), AutostartOrder::Nothing));
    assert!(matches!(reconcile(true, &AutostartHost::Other), AutostartOrder::Nothing));
}

#[test]
fn registry_status_is_read() {
    assert_eq!(run_outcome(true, 0), RunOutcome::Installed);
    assert_eq!(run_outcome(true, 2), RunOutcome::NotWritten);
    assert_eq!(run_outcome(true, 5), RunOutcome::NotWritten);
    assert_eq!(run_outcome(false, 0), RunOutcome::Removed);
    assert_eq!(run_outcome(false, 2), RunOutcome::AlreadyAbsent);
    assert_eq!(run_outcome(false, 5), RunOutcome::NotRemoved);
}

#[test]
fn tray_messages_are_those_of_windows() {
    assert_eq!(WM_APP, win::WM_APP);
    assert_eq!(WM_DESTROY, win::WM_DESTROY);
    assert_eq!(WM_TRAYICON, win::WM_APP + 1);
    assert_eq!(WM_TRAY_SETVISIBLE, win::WM_APP + 2);
    assert_eq!(WM_TRAY_QUIT, win::WM_APP + 3);
}

#[test]
fn dock_policies() {
    assert_eq!(show_in_dock(), ActivationPolicy::Regular);
    assert_eq!(hide_from_dock(), ActivationPolicy::Accessory);
    assert_eq!(request_refresh(), TrayEvent::Refresh);
}

#[test]
fn visibility_waits_for_the_tray() {
    let mut tray = Tray::new();
    assert_eq!(set_visible(&tray, true), None);
    assert!(!tray.window_created(0));
    assert_eq!((tray.window(), tray.is_visible()), (0, false));
    assert!(tray.window_created(77));
    assert_eq!((tray.window(), tray.is_visible()), (77, true));
    let post = |wparam| {
        Some(VisibilityOrder::Post(TrayPost { window: 77, msg: WM_TRAY_SETVISIBLE, wparam }))
    };
    assert_eq!(set_visible(&tray, true), post(1));
    assert_eq!(set_visible(&tray, false), post(0));
    let mut status_item = Tray::new();
    status_item.build_menu("idle", "open", "quit");
    assert_eq!(set_visible(&status_item, false), Some(VisibilityOrder::StatusItem(false)));
}

#[test]
fn visibility_requests_are_idempotent() {
    let mut tray = Tray::new();
    tray.window_created(1);
    let mut ask = |wparam| wndproc(&mut tray, WM_TRAY_SETVISIBLE, wparam, 0);
    assert_eq!(ask(1), TrayOrder::Handled);
    assert_eq!(ask(0), TrayOrder::DeleteIcon);
    assert_eq!(ask(0), TrayOrder::Handled);
    assert_eq!(ask(5), TrayOrder::AddIcon);
    assert_eq!(ask(1), TrayOrder::Handled);
    assert!(tray.is_visible());
}

#[test]
fn tray_clicks_and_the_end_of_the_window() {
    let mut tray = Tray::new();
    tray.window_created(1);
    let mut on = |msg, lparam| wndproc(&mut tray, msg, 0, lparam);
    assert_eq!(on(WM_TRAYICON, win::WM_LBUTTONUP as isize), TrayOrder::Post(TrayEvent::Open));
    assert_eq!(on(WM_TRAYICON, win::WM_RBUTTONUP as isize), TrayOrder::ShowMenu);
    // Only the low word counts.
    assert_eq!(
        on(WM_TRAYICON, 0x7_0000 | win::WM_LBUTTONUP as isize),
        TrayOrder::Post(TrayEvent::Open)
    );
    assert_eq!(on(WM_TRAYICON, -0x1_0000 + win::WM_RBUTTONUP as isize), TrayOrder::ShowMenu);
    assert_eq!(on(WM_TRAYICON, 512), TrayOrder::Handled);
    assert_eq!(on(WM_TRAY_QUIT, 0), TrayOrder::DestroyWindow);
    assert_eq!(on(WM_DESTROY, 0), TrayOrder::DeleteIconAndQuit);
    assert_eq!(on(15, 0), TrayOrder::Default);
}

fn menu_texts(tray: &Tray) -> Vec<Vec<u16>> {
    let entries = show_context_menu(tray, "No device connected", "Open OpenLogi", "Quit OpenLogi");
    assert!(matches!(&entries[0], MenuEntry::Grayed(_)));
    assert!(matches!(&entries[1], MenuEntry::Separator));
    assert!(matches!(&entries[2], MenuEntry::Command(1, _)));
    assert!(matches!(&entries[3], MenuEntry::Command(2, _)));
    assert_eq!(entries.len(), 4);
    entries
        .into_iter()
        .filter_map(|e| match e {
            MenuEntry::Grayed(s) | MenuEntry::Command(_, s) => Some(s),
            MenuEntry::Separator => None,
        })
        .collect()
}

#[test]
fn context_menu_shows_the_device() {
    let mut tray = Tray::new();
    let commands = [wide("Open OpenLogi"), wide("Quit OpenLogi")];
    assert_eq!(menu_texts(&tray)[0], wide("No device connected"));
    assert_eq!(menu_texts(&tray)[1..], commands);
    set_device_status(&mut tray, "MX Master 3S · 80%");
    assert_eq!(menu_texts(&tray)[0], wide("MX Master 3S · 80%"));
    set_device_status(&mut tray, "");
    assert_eq!(menu_texts(&tray)[0], wide("No device connected"));
    assert_eq!(chosen(1), Some(TrayEvent::Open));
    assert_eq!(chosen(2), Some(TrayEvent::Quit));
    assert_eq!(chosen(0), None);
    assert_eq!(chosen(-1), None);
}

#[test]
fn persistent_menu_is_retitled() {
    let mut tray = Tray::new();
    refresh_labels(&mut tray, "a", "b");
    assert!(tray.labels().is_none());
    tray.build_menu("No device connected", "Open OpenLogi", "Quit OpenLogi");
    set_device_status(&mut tray, "MX Anywhere");
    refresh_labels(&mut tray, "OpenLogi öffnen", "OpenLogi beenden");
    let labels = tray.labels().unwrap();
    assert_eq!(labels.device, "MX Anywhere");
    assert_eq!(labels.open, "OpenLogi öffnen");
    assert_eq!(labels.quit, "OpenLogi beenden");
}

#[test]
fn tooltip_fits_its_buffer() {
    let mut want = wide("OpenLogi");
    want.resize(128, 0);
    assert_eq!(tooltip("OpenLogi", 128), want);
    assert_eq!(tooltip("OpenLogi", 4), wide("OpenLogi")[..4]);
    assert_eq!(tooltip("OpenLogi", 0), Vec::<u16>::new());
}

const LOCALES: [(&str, &str); 3] = [("en", "English"), ("de", "Deutsch"), ("zh-CN", "简体中文")];

fn preferences() -> AppSettings {
    AppSettings {
        language: Some("de".to_string()),
        launch_at_login: true,
        check_for_updates: false,
        show_in_menu_bar: true,
        key_repeat_enabled: false,
        key_repeat_delay_ms: 250,
        key_repeat_interval_ms: 40,
    }
}

#[test]
fn language_picker_lists_the_system_first() {
    let options = language_options(&LOCALES);
    assert_eq!(options.len(), 4);
    assert_eq!((options[0].label, options[0].value()), ("Follow system", ""));
    assert_eq!(options[0].title("System folgen"), "System folgen");
    assert_eq!((options[2].label, options[2].value()), ("Deutsch", "de"));
    assert_eq!(options[2].title("System folgen"), "Deutsch");
}

#[test]
fn language_round_trip() {
    let options = language_options(&LOCALES);
    for current in [None, Some("en"), Some("de"), Some("zh-CN")] {
        let row = selected_language_index(current, &options);
        let change =
            SettingsView::on_language_select(Some(options[row].value()), Platform::Windows);
        assert_eq!(change.language.as_deref(), current);
        assert!(change.refresh_tray);
    }
    assert_eq!(selected_language_index(Some("xx"), &options), 0);
    assert_eq!(selected_language_index(Some("de"), &vec![]), 0);
    assert!(SettingsView::on_language_select(None, Platform::MacOs).language.is_none());
    assert!(!SettingsView::on_language_select(None, Platform::Other).refresh_tray);
}

#[test]
fn window_opens_with_the_preferences() {
    let view = SettingsView::new(Some(&preferences()), &LOCALES);
    assert_eq!((view.languages.len(), view.selected), (4, 2));
    assert_eq!(view.delay, SliderRange { min: 100, max: 1000, step: 50, value: 250 });
    assert_eq!(view.interval, SliderRange { min: 20, max: 300, step: 10, value: 40 });
    let fallback = SettingsView::new(None, &LOCALES);
    assert_eq!((fallback.selected, fallback.delay.value, fallback.interval.value), (0, 400, 60));
}

#[test]
fn clamping_of_slider_values() {
    assert_eq!(clamp_ms(0, 100, 1000), 100);
    assert_eq!(clamp_ms(100, 100, 1000), 100);
    assert_eq!(clamp_ms(455, 100, 1000), 455);
    assert_eq!(clamp_ms(1001, 100, 1000), 1000);
    assert_eq!(clamp_ms(7, 5, 5), 5);
}

#[test]
fn released_sliders_show_and_take_effect() {
    let mut a = preferences();
    release_delay(&mut a, 5000);
    release_interval(&mut a, 1);
    assert_eq!((a.key_repeat_delay_ms, a.key_repeat_interval_ms), (1000, 20));
    let form = SettingsView::render(Some(&a), Platform::Windows);
    assert_eq!((form.delay.value.as_str(), form.interval.value.as_str()), ("1000 ms", "20 ms"));
    assert_eq!(
        RepeatConfig::from_settings(&a),
        RepeatConfig { enabled: false, delay: 1000, interval: 20 }
    );
}

#[test]
fn only_a_release_is_committed() {
    let mut a = preferences();
    for slider in [SliderId::Delay, SliderId::Interval] {
        assert!(!on_slider_event(&mut a, slider, SliderEvent::Change(120)));
        assert_eq!((a.key_repeat_delay_ms, a.key_repeat_interval_ms), (250, 40));
    }
    assert!(on_slider_event(&mut a, SliderId::Delay, SliderEvent::Release(120)));
    assert_eq!((a.key_repeat_delay_ms, a.key_repeat_interval_ms), (120, 40));
    assert!(on_slider_event(&mut a, SliderId::Interval, SliderEvent::Release(900)));
    assert_eq!((a.key_repeat_delay_ms, a.key_repeat_interval_ms), (120, 300));
}

fn checked(form: &SettingsForm) -> Vec<(SwitchId, bool)> {
    let mut rows: Vec<_> = form.general.iter().map(|r| (r.switch, r.checked)).collect();
    rows.push((form.repeat.switch, form.repeat.checked));
    rows
}

#[test]
fn form_by_platform() {
    let a = preferences();
    let mac = SettingsView::render(Some(&a), Platform::MacOs);
    let windows = SettingsView::render(Some(&a), Platform::Windows);
    let other = SettingsView::render(Some(&a), Platform::Other);
    assert_eq!(
        mac.general[0].description,
        "Automatically start OpenLogi when you log in to macOS."
    );
    assert_eq!(windows.general[0].description, "Automatically start OpenLogi when you log in.");
    assert_eq!(mac.general[2].title, "Show in menu bar");
    assert_eq!(windows.general[2].title, "Show in tray");
    assert_eq!(windows.general[2].id, "show-in-menu-bar");
    assert_eq!(other.general.len(), 2);
    assert_eq!(
        checked(&windows),
        [
            (SwitchId::LaunchAtLogin, true),
            (SwitchId::CheckForUpdates, false),
            (SwitchId::ShowInMenuBar, true),
            (SwitchId::KeyRepeat, false),
        ]
    );
    assert_eq!(
        (windows.title, windows.general_title, windows.repeat_title, windows.language_title),
        ("Settings", "General", "Key repeat", "Language")
    );
    assert_eq!((windows.delay.title, windows.delay.value.as_str()), ("Start delay", "250 ms"));
    assert_eq!((windows.interval.title, windows.interval.value.as_str()), ("Repeat rate", "40 ms"));
}

#[test]
fn form_falls_back_without_preferences() {
    let form = SettingsView::render(None, Platform::Windows);
    assert_eq!(
        checked(&form),
        [
            (SwitchId::LaunchAtLogin, false),
            (SwitchId::CheckForUpdates, false),
            (SwitchId::ShowInMenuBar, false),
            (SwitchId::KeyRepeat, true),
        ]
    );
    assert_eq!((form.delay.value.as_str(), form.interval.value.as_str()), ("400 ms", "60 ms"));
}

#[test]
fn a_switch_shows_and_leaves_the_others_alone() {
    for switch in [
        SwitchId::LaunchAtLogin,
        SwitchId::CheckForUpdates,
        SwitchId::ShowInMenuBar,
        SwitchId::KeyRepeat,
    ] {
        for enabled in [false, true] {
            let mut a = preferences();
            let before = checked(&SettingsView::render(Some(&a), Platform::MacOs));
            set_switch(&mut a, switch, enabled);
            assert_eq!(a.language.as_deref(), Some("de"));
            let after = checked(&SettingsView::render(Some(&a), Platform::MacOs));
            for ((id, was), (_, is)) in before.iter().zip(&after) {
                assert_eq!(*is, if *id == switch { enabled } else { *was });
            }
        }
    }
}
