//! Captured events, the life of a hook, and the Windows hook procedure.

use openlogi::hook::{
    frontmost_bundle_id, ButtonId, EventDisposition, Frontmost, Hook, HookError, MouseEvent,
    StartReport, Teardown,
};
use openlogi::platform::Platform;
use openlogi::win_hook::{
    frontmost_process_name, hook_reply, keeps_pumping, ll_mouse_proc, thread_main, translate,
    ForegroundReading, MouseInfo, ThreadEvent, ThreadPhase, ThreadReport, ThreadStep,
    LLMHF_INJECTED, WM_LBUTTONDOWN, WM_LBUTTONUP, WM_MBUTTONDOWN, WM_MBUTTONUP, WM_MOUSEHWHEEL,
    WM_MOUSEWHEEL, WM_QUIT, WM_RBUTTONDOWN, WM_RBUTTONUP, WM_XBUTTONDOWN, WM_XBUTTONUP, XBUTTON1,
    XBUTTON2,
};
use windows_sys::Win32::UI::WindowsAndMessaging as win;

/// All `HookError` variants produce non-empty display messages.
#[test]
fn hook_error_display() {
    let errors: &[HookError] = &[
        HookError::Unsupported,
        HookError::AccessibilityDenied,
        HookError::MacOsTap("test reason".into()),
        HookError::WindowsHook("test reason".into()),
    ];
    for e in errors {
        assert!(!e.message().is_empty(), "empty display for {e:?}");
    }
}

#[test]
fn hook_error_messages_are_exact() {
    assert_eq!(
        HookError::Unsupported.message(),
        "mouse event hook is not supported on this platform"
    );
    assert_eq!(
        HookError::AccessibilityDenied.message(),
        "macOS Accessibility permission is required to capture mouse events; \
         grant it in System Settings → Privacy & Security → Accessibility"
    );
    assert_eq!(
        HookError::MacOsTap("null port".into()).message(),
        "CGEventTap setup failed: null port"
    );
    assert_eq!(
        HookError::WindowsHook("no thread".into()).message(),
        "Windows mouse hook setup failed: no thread"
    );
}

/// `MouseEvent` is `Clone + Debug`: both variants exercise without panic.
#[test]
fn mouse_event_clone_and_debug() {
    let events = [
        MouseEvent::Button {
            id: ButtonId::Back,
            pressed: true,
        },
        MouseEvent::Scroll {
            delta_x: 120,
            delta_y: -180,
        },
    ];
    for e in &events {
        let cloned = e.clone();
        let _ = format!("{e:?}");
        let _ = format!("{cloned:?}");
    }
}

/// `EventDisposition` implements `PartialEq` correctly.
#[test]
fn event_disposition_equality() {
    assert_eq!(EventDisposition::PassThrough, EventDisposition::PassThrough);
    assert_eq!(EventDisposition::Suppress, EventDisposition::Suppress);
    assert_ne!(EventDisposition::PassThrough, EventDisposition::Suppress);
}

/// On platforms with no hook implementation, `Hook::start` returns
/// `Unsupported`.
#[test]
fn unsupported_platform_start_returns_unsupported() {
    let result = Hook::start(StartReport::NoBackend);
    assert!(matches!(result, Err(HookError::Unsupported)));
}

/// On non-macOS targets, `Hook::has_accessibility` is always `true`.
#[test]
fn non_macos_has_accessibility_is_true() {
    assert!(Hook::has_accessibility(Platform::Windows, false));
    assert!(Hook::has_accessibility(Platform::Other, false));
}

/// A hook that was installed can be torn down, once.
#[test]
fn windows_start_and_stop_roundtrip() {
    let mut hook = Hook::start(StartReport::Live(4711)).expect("install WH_MOUSE_LL hook on Windows");
    assert_eq!(hook.release(), Some(Teardown { thread: 4711, msg: WM_QUIT }));
    assert_eq!(hook.release(), None);
    let hook = Hook::start(StartReport::Live(4712)).expect("install WH_MOUSE_LL hook on Windows");
    assert_eq!(hook.stop(), Some(Teardown { thread: 4712, msg: WM_QUIT }));
}

#[test]
fn every_failed_start_has_its_error() {
    let text = |report: StartReport| Hook::start(report).unwrap_err().message();
    assert!(matches!(
        Hook::start(StartReport::AccessibilityDenied),
        Err(HookError::AccessibilityDenied)
    ));
    assert_eq!(
        text(StartReport::TapFailed("tap".to_string())),
        "CGEventTap setup failed: tap"
    );
    assert_eq!(
        text(StartReport::SpawnFailed("out of threads".to_string())),
        "Windows mouse hook setup failed: failed to spawn hook thread: out of threads"
    );
    assert_eq!(
        text(StartReport::InstallFailed(1428)),
        "Windows mouse hook setup failed: SetWindowsHookExW(WH_MOUSE_LL) failed (GetLastError=1428)"
    );
    assert_eq!(
        text(StartReport::Vanished),
        "Windows mouse hook setup failed: hook thread exited before reporting status"
    );
}

#[test]
fn only_macos_asks_for_accessibility() {
    assert!(!Hook::has_accessibility(Platform::MacOs, false));
    assert!(Hook::has_accessibility(Platform::MacOs, true));
    assert!(Hook::has_accessibility(Platform::Windows, true));
    assert!(Hook::prompt_accessibility(Platform::MacOs));
    assert!(!Hook::prompt_accessibility(Platform::Windows));
    assert!(!Hook::prompt_accessibility(Platform::Other));
}

#[test]
fn message_constants_are_those_of_windows() {
    assert_eq!(WM_LBUTTONDOWN, win::WM_LBUTTONDOWN);
    assert_eq!(WM_LBUTTONUP, win::WM_LBUTTONUP);
    assert_eq!(WM_RBUTTONDOWN, win::WM_RBUTTONDOWN);
    assert_eq!(WM_RBUTTONUP, win::WM_RBUTTONUP);
    assert_eq!(WM_MBUTTONDOWN, win::WM_MBUTTONDOWN);
    assert_eq!(WM_MBUTTONUP, win::WM_MBUTTONUP);
    assert_eq!(WM_MOUSEWHEEL, win::WM_MOUSEWHEEL);
    assert_eq!(WM_MOUSEHWHEEL, win::WM_MOUSEHWHEEL);
    assert_eq!(WM_XBUTTONDOWN, win::WM_XBUTTONDOWN);
    assert_eq!(WM_XBUTTONUP, win::WM_XBUTTONUP);
    assert_eq!(XBUTTON1, win::XBUTTON1);
    assert_eq!(XBUTTON2, win::XBUTTON2);
    assert_eq!(LLMHF_INJECTED, win::LLMHF_INJECTED);
    assert_eq!(WM_QUIT, win::WM_QUIT);
}

#[test]
fn buttons_translate() {
    let press = |id| Some(MouseEvent::Button { id, pressed: true });
    let release = |id| Some(MouseEvent::Button { id, pressed: false });
    assert_eq!(translate(WM_LBUTTONDOWN, 0), press(ButtonId::LeftClick));
    assert_eq!(translate(WM_LBUTTONUP, 0), release(ButtonId::LeftClick));
    assert_eq!(translate(WM_RBUTTONDOWN, 0), press(ButtonId::RightClick));
    assert_eq!(translate(WM_RBUTTONUP, 0), release(ButtonId::RightClick));
    assert_eq!(translate(WM_MBUTTONDOWN, 0), press(ButtonId::MiddleClick));
    assert_eq!(translate(WM_MBUTTONUP, 0), release(ButtonId::MiddleClick));
    assert_eq!(translate(WM_XBUTTONDOWN, 1 << 16), press(ButtonId::Back));
    assert_eq!(translate(WM_XBUTTONUP, (1 << 16) | 7), release(ButtonId::Back));
    assert_eq!(translate(WM_XBUTTONDOWN, 2 << 16), press(ButtonId::Forward));
    assert_eq!(translate(WM_XBUTTONDOWN, 3 << 16), None);
    assert_eq!(translate(512, 0), None);
}

#[test]
fn wheels_translate_with_their_signs() {
    // One notch away from the user: up, so negative.
    assert_eq!(
        translate(WM_MOUSEWHEEL, 120 << 16),
        Some(MouseEvent::Scroll { delta_x: 0, delta_y: -120 })
    );
    assert_eq!(
        translate(WM_MOUSEWHEEL, (-240i16 as u16 as u32) << 16),
        Some(MouseEvent::Scroll { delta_x: 0, delta_y: 240 })
    );
    assert_eq!(
        translate(WM_MOUSEWHEEL, 0x8000_0000),
        Some(MouseEvent::Scroll { delta_x: 0, delta_y: 32768 })
    );
    assert_eq!(
        translate(WM_MOUSEHWHEEL, (-120i16 as u16 as u32) << 16),
        Some(MouseEvent::Scroll { delta_x: -120, delta_y: 0 })
    );
}

#[test]
fn injected_and_foreign_events_are_skipped() {
    let info = |flags| MouseInfo { mouse_data: 1 << 16, flags };
    let back = Some(MouseEvent::Button { id: ButtonId::Back, pressed: true });
    assert_eq!(ll_mouse_proc(0, WM_XBUTTONDOWN as usize, info(0)), back);
    assert_eq!(ll_mouse_proc(0, WM_XBUTTONDOWN as usize, info(2)), back);
    assert_eq!(ll_mouse_proc(0, WM_XBUTTONDOWN as usize, info(1)), None);
    assert_eq!(ll_mouse_proc(0, WM_XBUTTONDOWN as usize, info(3)), None);
    assert_eq!(ll_mouse_proc(-1, WM_XBUTTONDOWN as usize, info(0)), None);
    assert_eq!(ll_mouse_proc(0, 512, info(0)), None);
}

#[test]
fn press_and_release_stand_for_the_same_button() {
    for data in [0u32, 1 << 16, 2 << 16, 3 << 16, u32::MAX] {
        for (down, up) in [
            (WM_LBUTTONDOWN, WM_LBUTTONUP),
            (WM_RBUTTONDOWN, WM_RBUTTONUP),
            (WM_MBUTTONDOWN, WM_MBUTTONUP),
            (WM_XBUTTONDOWN, WM_XBUTTONUP),
        ] {
            match (translate(down, data), translate(up, data)) {
                (
                    Some(MouseEvent::Button { id: a, pressed: true }),
                    Some(MouseEvent::Button { id: b, pressed: false }),
                ) => assert_eq!(a, b),
                (None, None) => {}
                other => panic!("{other:?}"),
            }
        }
    }
}

#[test]
fn only_a_suppressed_event_is_swallowed() {
    assert_eq!(hook_reply(Some(EventDisposition::Suppress)), Some(1));
    assert_eq!(hook_reply(Some(EventDisposition::PassThrough)), None);
    assert_eq!(hook_reply(None), None);
}

fn reading(path: &str) -> ForegroundReading {
    ForegroundReading {
        window: true,
        pid: 42,
        opened: true,
        query: 1,
        path: path.encode_utf16().collect(),
    }
}

#[test]
fn process_name_is_the_lower_cased_file_name() {
    let name = |path: &str| frontmost_process_name(&reading(path));
    assert_eq!(
        name("C:\\Program Files\\Google\\Chrome\\CHROME.exe").as_deref(),
        Some("chrome.exe")
    );
    assert_eq!(name("D:/Games/Über.EXE").as_deref(), Some("Über.exe".to_ascii_lowercase().as_str()));
    assert_eq!(name("Code.exe").as_deref(), Some("code.exe"));
    assert_eq!(name("C:\\dir\\").as_deref(), Some(""));
}

#[test]
fn process_name_needs_every_step() {
    let full = || reading("C:\\a.exe");
    assert!(frontmost_process_name(&full()).is_some());
    assert!(frontmost_process_name(&ForegroundReading { window: false, ..full() }).is_none());
    assert!(frontmost_process_name(&ForegroundReading { pid: 0, ..full() }).is_none());
    assert!(frontmost_process_name(&ForegroundReading { opened: false, ..full() }).is_none());
    assert!(frontmost_process_name(&ForegroundReading { query: 0, ..full() }).is_none());
    assert!(frontmost_process_name(&ForegroundReading { path: vec![], ..full() }).is_none());
}

#[test]
fn frontmost_application_by_platform() {
    assert_eq!(
        frontmost_bundle_id(&Frontmost::Bundle(Some("com.microsoft.VSCode".to_string()))).as_deref(),
        Some("com.microsoft.VSCode")
    );
    assert_eq!(frontmost_bundle_id(&Frontmost::Bundle(None)), None);
    assert_eq!(
        frontmost_bundle_id(&Frontmost::Process(reading("C:\\VS\\Code.exe"))).as_deref(),
        Some("code.exe")
    );
    assert_eq!(frontmost_bundle_id(&Frontmost::Unknown), None);
}

fn standing(phase: ThreadPhase) -> ThreadStep {
    ThreadStep { phase, report: None, dispatch: false, unhook: false, clear: false }
}

#[test]
fn hook_thread_cleans_up_on_every_way_out() {
    let down = ThreadStep { unhook: true, clear: true, ..standing(ThreadPhase::Ended) };
    assert_eq!(
        thread_main(ThreadPhase::Installing, ThreadEvent::InstallFailed(5)),
        ThreadStep {
            report: Some(ThreadReport::Failed(5)),
            clear: true,
            ..standing(ThreadPhase::Ended)
        }
    );
    assert_eq!(
        thread_main(ThreadPhase::Installing, ThreadEvent::Installed),
        ThreadStep { report: Some(ThreadReport::Live), ..standing(ThreadPhase::Reporting) }
    );
    assert_eq!(thread_main(ThreadPhase::Reporting, ThreadEvent::Reported(false)), down);
    assert_eq!(
        thread_main(ThreadPhase::Reporting, ThreadEvent::Reported(true)),
        standing(ThreadPhase::Pumping)
    );
    assert_eq!(
        thread_main(ThreadPhase::Pumping, ThreadEvent::Message(1)),
        ThreadStep { dispatch: true, ..standing(ThreadPhase::Pumping) }
    );
    assert_eq!(thread_main(ThreadPhase::Pumping, ThreadEvent::Message(0)), down);
    assert_eq!(thread_main(ThreadPhase::Pumping, ThreadEvent::Message(-1)), down);
    // Nothing stirs a thread that has ended.
    for event in [
        ThreadEvent::Installed,
        ThreadEvent::InstallFailed(5),
        ThreadEvent::Reported(true),
        ThreadEvent::Message(1),
    ] {
        assert_eq!(thread_main(ThreadPhase::Ended, event), standing(ThreadPhase::Ended));
    }
    assert!(keeps_pumping(1) && !keeps_pumping(0) && !keeps_pumping(-1));
}

#[test]
fn hook_thread_reports_once() {
    let mut phase = ThreadPhase::Installing;
    let mut reports = 0;
    for event in [
        ThreadEvent::Installed,
        ThreadEvent::Reported(true),
        ThreadEvent::Message(1),
        ThreadEvent::Message(0),
        ThreadEvent::Message(1),
    ] {
        let step = thread_main(phase, event);
        reports += usize::from(step.report.is_some());
        phase = step.phase;
    }
    assert_eq!((reports, phase), (1, ThreadPhase::Ended));
}
