//! The OS-level mouse hook, as far as it can be decided without the OS.
//!
//! On Windows a dedicated thread installs a low-level mouse hook and pumps its
//! messages; on macOS an event tap does the same work. This module holds the
//! vocabulary of captured events, the lifecycle of a hook, and the errors that
//! starting one can produce.

use vstd::prelude::*;
pub use crate::binding::ButtonId;
use crate::platform::Platform;
use crate::text;
use crate::text::{joined, push_decimal};
use crate::win_hook;
use crate::win_hook::{frontmost_process_name, ForegroundReading, WM_QUIT};

verus! {

/// How many scroll units make up one notch of the wheel.
pub const UNITS_PER_NOTCH: i32 = 120;

/// An event captured at the OS layer.
#[derive(Clone, Copy, Debug, PartialEq, Eq, Structural)]
pub enum MouseEvent {
    /// A mouse button was pressed or released.
    Button {
        /// Which button.
        id: ButtonId,
        /// `true` = button down; `false` = button up.
        pressed: bool,
    },
    /// A scroll-wheel tick (or continuous momentum scroll), in units of which
    /// [`UNITS_PER_NOTCH`] make up one notch.
    Scroll {
        /// Positive = right, negative = left.
        delta_x: i32,
        /// Positive = down, negative = up.
        delta_y: i32,
    },
}

/// What the hook callback wants the OS to do with the captured event.
#[derive(Clone, Copy, Debug, PartialEq, Eq, Structural)]
pub enum EventDisposition {
    /// Let the event reach its original target unchanged.
    PassThrough,
    /// Drop the event; the target application never sees it.
    Suppress,
}

/// Errors that [`Hook::start`] can produce.
#[derive(Debug)]
pub enum HookError {
    /// This platform has no hook implementation yet.
    Unsupported,
    /// macOS Accessibility permission has not been granted to this process.
    AccessibilityDenied,
    /// The event tap could not be set up. The inner string carries the context.
    MacOsTap(String),
    /// The Windows hook could not be installed, or its thread could not be
    /// started. The inner string carries the context.
    WindowsHook(String),
}

/// The view of a [`HookError`].
pub enum HookErrorView {
    /// This platform has no hook implementation yet.
    Unsupported,
    /// macOS Accessibility permission has not been granted.
    AccessibilityDenied,
    /// The event tap could not be set up.
    MacOsTap(Seq<char>),
    /// The Windows hook could not be installed.
    WindowsHook(Seq<char>),
}

impl View for HookError {
    type V = HookErrorView;

    open spec fn view(&self) -> HookErrorView {
        match self {
            HookError::Unsupported => HookErrorView::Unsupported,
            HookError::AccessibilityDenied => HookErrorView::AccessibilityDenied,
            HookError::MacOsTap(s) => HookErrorView::MacOsTap(s@),
            HookError::WindowsHook(s) => HookErrorView::WindowsHook(s@),
        }
    }
}

/// The message of an error.
pub open spec fn error_text(e: HookErrorView) -> Seq<char> {
    match e {
        HookErrorView::Unsupported => "mouse event hook is not supported on this platform"@,
        HookErrorView::AccessibilityDenied =>
            "macOS Accessibility permission is required to capture mouse events; grant it in System Settings → Privacy & Security → Accessibility"@,
        HookErrorView::MacOsTap(s) => "CGEventTap setup failed: "@ + s,
        HookErrorView::WindowsHook(s) => "Windows mouse hook setup failed: "@ + s,
    }
}

impl HookError {
    /// The message to show for the error.
    pub fn message(&self) -> (r: String)
        ensures
            r@ == error_text(self@),
    {
        match self {
            HookError::Unsupported =>
                "mouse event hook is not supported on this platform".to_owned(),
            HookError::AccessibilityDenied =>
                "macOS Accessibility permission is required to capture mouse events; grant it in System Settings → Privacy & Security → Accessibility".to_owned(),
            HookError::MacOsTap(s) => joined("CGEventTap setup failed: ", s.as_str()),
            HookError::WindowsHook(s) => joined("Windows mouse hook setup failed: ", s.as_str()),
        }
    }
}

/// What came back of the attempt to install a hook.
#[derive(Debug)]
pub enum StartReport {
    /// The platform has no hook.
    NoBackend,
    /// The process lacks the permission to capture events.
    AccessibilityDenied,
    /// The event tap could not be set up, with the context.
    TapFailed(String),
    /// The hook thread could not be started, with the error.
    SpawnFailed(String),
    /// The OS refused to install the hook, with its error code.
    InstallFailed(u32),
    /// The hook thread ended without a word.
    Vanished,
    /// The hook is live on the thread with this id.
    Live(u32),
}

/// The thread that a report says the hook runs on, or the error it stands for.
pub open spec fn start_result(report: StartReport) -> Result<u32, HookErrorView> {
    match report {
        StartReport::NoBackend => Err(HookErrorView::Unsupported),
        StartReport::AccessibilityDenied => Err(HookErrorView::AccessibilityDenied),
        StartReport::TapFailed(s) => Err(HookErrorView::MacOsTap(s@)),
        StartReport::SpawnFailed(e) => Err(
            HookErrorView::WindowsHook("failed to spawn hook thread: "@ + e@),
        ),
        StartReport::InstallFailed(code) => Err(
            HookErrorView::WindowsHook(
                "SetWindowsHookExW(WH_MOUSE_LL) failed (GetLastError="@ + text::decimal(
                    code as nat,
                ) + ")"@,
            ),
        ),
        StartReport::Vanished => Err(
            HookErrorView::WindowsHook("hook thread exited before reporting status"@),
        ),
        StartReport::Live(thread) => Ok(thread),
    }
}

/// A running OS-level mouse hook. [`Hook::stop`] tears it down.
#[derive(Debug)]
pub struct Hook {
    thread: Option<u32>,
}

impl View for Hook {
    type V = Option<u32>;

    /// The thread that the hook runs on, until it is torn down.
    closed spec fn view(&self) -> Option<u32> {
        self.thread
    }
}

/// How to tear a hook down: post `msg` to `thread`, then wait until the thread
/// has ended.
#[derive(Clone, Copy, Debug, PartialEq, Eq, Structural)]
pub struct Teardown {
    /// The thread that the hook runs on.
    pub thread: u32,
    /// The message that ends its message loop.
    pub msg: u32,
}

/// How to tear a hook down that runs on `thread`, if it still runs.
pub open spec fn teardown_of(thread: Option<u32>) -> Option<Teardown> {
    match thread {
        Some(t) => Some(Teardown { thread: t, msg: WM_QUIT }),
        None => None,
    }
}

/// The hook after it was given up.
pub open spec fn released(thread: Option<u32>) -> Option<u32> {
    None
}

impl Hook {
    /// Concludes the installation of the hook, given what came back of it.
    pub fn start(report: StartReport) -> (r: Result<Hook, HookError>)
        ensures
            match r {
                Ok(hook) => hook@ is Some && start_result(report) == Ok::<u32, HookErrorView>(
                    hook@->0,
                ),
                Err(e) => start_result(report) == Err::<u32, HookErrorView>(e@),
            },
    {
        match report {
            StartReport::NoBackend => Err(HookError::Unsupported),
            StartReport::AccessibilityDenied => Err(HookError::AccessibilityDenied),
            StartReport::TapFailed(s) => Err(HookError::MacOsTap(s)),
            StartReport::SpawnFailed(e) => Err(
                HookError::WindowsHook(joined("failed to spawn hook thread: ", e.as_str())),
            ),
            StartReport::InstallFailed(code) => {
                let mut m = "SetWindowsHookExW(WH_MOUSE_LL) failed (GetLastError=".to_owned();
                push_decimal(&mut m, code as u64);
                m.append(")");
                Err(HookError::WindowsHook(m))
            },
            StartReport::Vanished => Err(
                HookError::WindowsHook("hook thread exited before reporting status".to_owned()),
            ),
            StartReport::Live(thread) => Ok(Hook { thread: Some(thread) }),
        }
    }

    /// Gives up the hook: how to tear it down, the first time only. Dropping a
    /// hook goes through here too.
    pub fn release(&mut self) -> (r: Option<Teardown>)
        ensures
            r == teardown_of(old(self)@),
            final(self)@ == released(old(self)@),
    {
        match self.thread.take() {
            Some(thread) => Some(Teardown { thread, msg: WM_QUIT }),
            None => None,
        }
    }

    /// Stops the hook: how to tear it down.
    pub fn stop(self) -> (r: Option<Teardown>)
        ensures
            r == teardown_of(self@),
    {
        let mut hook = self;
        hook.release()
    }

    /// Whether events can be captured on `platform`, given whether macOS trusts
    /// the process. Other platforms handle permissions at a higher layer and
    /// always can.
    #[must_use]
    pub fn has_accessibility(platform: Platform, trusted: bool) -> (r: bool)
        ensures
            r == accessible(platform, trusted),
    {
        match platform {
            Platform::MacOs => trusted,
            _ => true,
        }
    }

    /// Whether the permission dialog has to be shown: only macOS has one.
    pub fn prompt_accessibility(platform: Platform) -> (r: bool)
        ensures
            r == (platform is MacOs),
    {
        match platform {
            Platform::MacOs => true,
            _ => false,
        }
    }
}

/// Whether events can be captured on `platform`: macOS has to trust the process.
pub open spec fn accessible(platform: Platform, trusted: bool) -> bool {
    platform is MacOs ==> trusted
}

/// What the platform tells of the frontmost application.
#[derive(Debug)]
pub enum Frontmost {
    /// The bundle identifier, if macOS gave one.
    Bundle(Option<String>),
    /// What Windows tells of the foreground window.
    Process(ForegroundReading),
    /// The platform cannot tell.
    Unknown,
}

/// An identifier for the frontmost application: on macOS the bundle identifier,
/// on Windows the lower-cased file name of the executable.
#[must_use]
pub fn frontmost_bundle_id(frontmost: &Frontmost) -> (r: Option<String>)
    ensures
        match r {
            Some(id) => match frontmost {
                Frontmost::Bundle(b) => b matches Some(s) && id@ == s@,
                Frontmost::Process(reading) => win_hook::process_name(*reading) == Some(id@),
                Frontmost::Unknown => false,
            },
            None => match frontmost {
                Frontmost::Bundle(b) => b is None,
                Frontmost::Process(reading) => win_hook::process_name(*reading) is None,
                Frontmost::Unknown => true,
            },
        },
{
    match frontmost {
        Frontmost::Bundle(Some(s)) => Some(s.clone()),
        Frontmost::Bundle(None) => None,
        Frontmost::Process(reading) => frontmost_process_name(reading),
        Frontmost::Unknown => None,
    }
}

/// A live hook is torn down exactly once: giving it up names its thread, and
/// giving it up again, as dropping it does, names nothing more.
pub proof fn law_teardown_happens_once(thread: u32)
    ensures
        teardown_of(Some(thread)) == Some(Teardown { thread, msg: WM_QUIT }),
        teardown_of(released(Some(thread))) is None,
{
}

/// A hook comes to life exactly when its thread reports so, on just that thread;
/// every other report is its own kind of error.
pub proof fn law_only_a_live_report_starts_the_hook(report: StartReport, thread: u32)
    ensures
        start_result(report) == Ok::<u32, HookErrorView>(thread) <==> report
            == StartReport::Live(thread),
        report is NoBackend ==> start_result(report) == Err::<u32, HookErrorView>(
            HookErrorView::Unsupported,
        ),
        report is AccessibilityDenied ==> start_result(report) == Err::<u32, HookErrorView>(
            HookErrorView::AccessibilityDenied,
        ),
        report matches StartReport::TapFailed(s) ==> start_result(report) == Err::<
            u32,
            HookErrorView,
        >(HookErrorView::MacOsTap(s@)),
        report matches StartReport::SpawnFailed(e) ==> start_result(report) == Err::<
            u32,
            HookErrorView,
        >(HookErrorView::WindowsHook("failed to spawn hook thread: "@ + e@)),
        report matches StartReport::InstallFailed(code) ==> start_result(report) == Err::<
            u32,
            HookErrorView,
        >(
            HookErrorView::WindowsHook(
                "SetWindowsHookExW(WH_MOUSE_LL) failed (GetLastError="@ + text::decimal(
                    code as nat,
                ) + ")"@,
            ),
        ),
{
}

/// The message of an error carries its context in full, at its end.
pub proof fn law_message_carries_the_context(context: Seq<char>, more: Seq<char>)
    ensures
        error_text(HookErrorView::MacOsTap(context + more)) == error_text(
            HookErrorView::MacOsTap(context),
        ) + more,
        error_text(HookErrorView::WindowsHook(context + more)) == error_text(
            HookErrorView::WindowsHook(context),
        ) + more,
        error_text(HookErrorView::MacOsTap(Seq::empty())) == "CGEventTap setup failed: "@,
        error_text(HookErrorView::WindowsHook(Seq::empty())) == "Windows mouse hook setup failed: "@,
{
    assert(error_text(HookErrorView::MacOsTap(context + more)) =~= error_text(
        HookErrorView::MacOsTap(context),
    ) + more);
    assert(error_text(HookErrorView::WindowsHook(context + more)) =~= error_text(
        HookErrorView::WindowsHook(context),
    ) + more);
    assert(error_text(HookErrorView::MacOsTap(Seq::empty())) =~= "CGEventTap setup failed: "@);
    assert(error_text(HookErrorView::WindowsHook(Seq::empty()))
        =~= "Windows mouse hook setup failed: "@);
}

/// Only macOS asks for trust: elsewhere events can always be captured, there
/// exactly when the process is trusted.
pub proof fn law_only_macos_asks_for_trust(platform: Platform, trusted: bool)
    ensures
        accessible(Platform::MacOs, trusted) == trusted,
        platform is Windows || platform is Other ==> accessible(platform, trusted),
{
}

/// Errors are seen as they are.
pub proof fn law_errors_are_seen_as_they_are(e: HookError)
    ensures
        e is Unsupported ==> e@ is Unsupported,
        e is AccessibilityDenied ==> e@ is AccessibilityDenied,
        e matches HookError::MacOsTap(s) ==> e@ == HookErrorView::MacOsTap(s@),
        e matches HookError::WindowsHook(s) ==> e@ == HookErrorView::WindowsHook(s@),
{
}

} // verus!
