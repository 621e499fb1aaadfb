//! The decisions of the Windows low-level mouse hook.
//!
//! A hook procedure sees every mouse message of the system. What it does with
//! one, which event a message stands for, and what the foreground process is
//! called are decided here; the calls into the OS are made elsewhere.

use vstd::prelude::*;
use crate::binding::ButtonId;
use crate::hook::{EventDisposition, MouseEvent};
use crate::text;
use crate::text::{chars_of, slice_of, trailing_run, CharClass};
use crate::utf16;
use crate::utf16::from_utf16_lossy;

verus! {

/// The primary button went down.
pub const WM_LBUTTONDOWN: u32 = 513;

/// The primary button went up.
pub const WM_LBUTTONUP: u32 = 514;

/// The secondary button went down.
pub const WM_RBUTTONDOWN: u32 = 516;

/// The secondary button went up.
pub const WM_RBUTTONUP: u32 = 517;

/// The middle button went down.
pub const WM_MBUTTONDOWN: u32 = 519;

/// The middle button went up.
pub const WM_MBUTTONUP: u32 = 520;

/// The wheel turned.
pub const WM_MOUSEWHEEL: u32 = 522;

/// A side button went down.
pub const WM_XBUTTONDOWN: u32 = 523;

/// A side button went up.
pub const WM_XBUTTONUP: u32 = 524;

/// The horizontal wheel turned.
pub const WM_MOUSEHWHEEL: u32 = 526;

/// The rear side button, in the high word of the mouse data.
pub const XBUTTON1: u16 = 1;

/// The front side button, in the high word of the mouse data.
pub const XBUTTON2: u16 = 2;

/// The flag of events that a program injected.
pub const LLMHF_INJECTED: u32 = 1;

/// The message that ends a message loop.
pub const WM_QUIT: u32 = 18;

/// The high word of the mouse data.
pub open spec fn high_word(mouse_data: u32) -> int {
    mouse_data as int / 0x10000
}

/// The high word of the mouse data, as a signed number of scroll units.
pub open spec fn wheel_units(mouse_data: u32) -> int {
    if high_word(mouse_data) < 0x8000 {
        high_word(mouse_data)
    } else {
        high_word(mouse_data) - 0x10000
    }
}

/// The button event for `id`.
pub open spec fn button_event(id: ButtonId, pressed: bool) -> Option<MouseEvent> {
    Some(MouseEvent::Button { id, pressed })
}

/// The side button that the mouse data names.
pub open spec fn side_button(mouse_data: u32) -> Option<ButtonId> {
    if high_word(mouse_data) == XBUTTON1 {
        Some(ButtonId::Back)
    } else if high_word(mouse_data) == XBUTTON2 {
        Some(ButtonId::Forward)
    } else {
        None
    }
}

/// The event that a mouse message stands for.
pub open spec fn event_of(msg: u32, mouse_data: u32) -> Option<MouseEvent> {
    if msg == WM_LBUTTONDOWN {
        button_event(ButtonId::LeftClick, true)
    } else if msg == WM_LBUTTONUP {
        button_event(ButtonId::LeftClick, false)
    } else if msg == WM_RBUTTONDOWN {
        button_event(ButtonId::RightClick, true)
    } else if msg == WM_RBUTTONUP {
        button_event(ButtonId::RightClick, false)
    } else if msg == WM_MBUTTONDOWN {
        button_event(ButtonId::MiddleClick, true)
    } else if msg == WM_MBUTTONUP {
        button_event(ButtonId::MiddleClick, false)
    } else if msg == WM_XBUTTONDOWN || msg == WM_XBUTTONUP {
        match side_button(mouse_data) {
            Some(id) => button_event(id, msg == WM_XBUTTONDOWN),
            None => None,
        }
    } else if msg == WM_MOUSEWHEEL {
        Some(MouseEvent::Scroll { delta_x: 0, delta_y: (-wheel_units(mouse_data)) as i32 })
    } else if msg == WM_MOUSEHWHEEL {
        Some(MouseEvent::Scroll { delta_x: wheel_units(mouse_data) as i32, delta_y: 0 })
    } else {
        None
    }
}

/// Reads the high word of the mouse data.
fn high_word_of(mouse_data: u32) -> (r: u16)
    ensures
        r == high_word(mouse_data),
{
    let shifted: u32 = mouse_data >> 16;
    assert(shifted == mouse_data / 0x10000 && shifted <= 0xFFFF) by (bit_vector)
        requires
            shifted == mouse_data >> 16,
    ;
    shifted as u16
}

/// Reads the high word of the mouse data as a signed number.
fn wheel_units_of(mouse_data: u32) -> (r: i32)
    ensures
        r == wheel_units(mouse_data),
        -0x8000 <= r < 0x8000,
{
    let word: i32 = high_word_of(mouse_data) as i32;
    if word < 0x8000 {
        word
    } else {
        word - 0x10000
    }
}

/// Translates a mouse message and its data to an event. Returns `None` for
/// messages that stand for none.
///
/// The wheel of Windows counts up (away from the user) as positive, events
/// count down as positive; for the horizontal wheel the signs agree.
pub fn translate(msg: u32, mouse_data: u32) -> (r: Option<MouseEvent>)
    ensures
        r == event_of(msg, mouse_data),
{
    if msg == WM_LBUTTONDOWN {
        Some(MouseEvent::Button { id: ButtonId::LeftClick, pressed: true })
    } else if msg == WM_LBUTTONUP {
        Some(MouseEvent::Button { id: ButtonId::LeftClick, pressed: false })
    } else if msg == WM_RBUTTONDOWN {
        Some(MouseEvent::Button { id: ButtonId::RightClick, pressed: true })
    } else if msg == WM_RBUTTONUP {
        Some(MouseEvent::Button { id: ButtonId::RightClick, pressed: false })
    } else if msg == WM_MBUTTONDOWN {
        Some(MouseEvent::Button { id: ButtonId::MiddleClick, pressed: true })
    } else if msg == WM_MBUTTONUP {
        Some(MouseEvent::Button { id: ButtonId::MiddleClick, pressed: false })
    } else if msg == WM_XBUTTONDOWN || msg == WM_XBUTTONUP {
        let button: u16 = high_word_of(mouse_data);
        let pressed = msg == WM_XBUTTONDOWN;
        if button == XBUTTON1 {
            Some(MouseEvent::Button { id: ButtonId::Back, pressed })
        } else if button == XBUTTON2 {
            Some(MouseEvent::Button { id: ButtonId::Forward, pressed })
        } else {
            None
        }
    } else if msg == WM_MOUSEWHEEL {
        let units: i32 = wheel_units_of(mouse_data);
        Some(MouseEvent::Scroll { delta_x: 0, delta_y: -units })
    } else if msg == WM_MOUSEHWHEEL {
        let units: i32 = wheel_units_of(mouse_data);
        Some(MouseEvent::Scroll { delta_x: units, delta_y: 0 })
    } else {
        None
    }
}

/// The payload that comes with a mouse message.
#[derive(Clone, Copy, Debug, PartialEq, Eq, Structural)]
pub struct MouseInfo {
    /// Button or wheel data, in the high word.
    pub mouse_data: u32,
    /// Flags such as [`LLMHF_INJECTED`].
    pub flags: u32,
}

/// The event that the hook procedure hands to the callback: none for a negative
/// code, which has to be passed on untouched, and none for injected events, so
/// that a remapped button cannot feed back into itself.
pub open spec fn delivered(code: i32, wparam: usize, info: MouseInfo) -> Option<MouseEvent> {
    if code < 0 || info.flags % 2 == 1 {
        None
    } else {
        event_of((wparam as int % 0x1_0000_0000) as u32, info.mouse_data)
    }
}

/// Decides which event, if any, the hook procedure hands to the callback.
pub fn ll_mouse_proc(code: i32, wparam: usize, info: MouseInfo) -> (r: Option<MouseEvent>)
    ensures
        r == delivered(code, wparam, info),
{
    if code < 0 {
        return None;
    }
    let flags: u32 = info.flags;
    assert(flags & 1 == flags % 2) by (bit_vector);
    if flags & LLMHF_INJECTED != 0 {
        return None;
    }
    let wide: u64 = wparam as u64;
    let low: u64 = wide & 0xFFFF_FFFF;
    assert(low == wide % 0x1_0000_0000 && low <= 0xFFFF_FFFF) by (bit_vector)
        requires
            low == wide & 0xFFFF_FFFF,
    ;
    translate(low as u32, info.mouse_data)
}

/// What the hook procedure returns: a non-zero value swallows the event, and
/// `None` passes it on to the next hook. An event that nobody was there to
/// judge is passed on.
pub fn hook_reply(disposition: Option<EventDisposition>) -> (r: Option<isize>)
    ensures
        r == (if disposition == Some(EventDisposition::Suppress) {
            Some(1isize)
        } else {
            None
        }),
{
    match disposition {
        Some(EventDisposition::Suppress) => Some(1),
        _ => None,
    }
}

// ---------------------------------------------------------------------------
// The hook thread
// ---------------------------------------------------------------------------

/// Where the hook thread stands.
#[derive(Clone, Copy, Debug, PartialEq, Eq, Structural)]
pub enum ThreadPhase {
    /// The callback is in its slot and the hook is being installed.
    Installing,
    /// The hook is live and its thread id is being reported.
    Reporting,
    /// The message loop runs.
    Pumping,
    /// The thread is done.
    Ended,
}

/// What the hook thread sees.
#[derive(Clone, Copy, Debug, PartialEq, Eq, Structural)]
pub enum ThreadEvent {
    /// The OS installed the hook.
    Installed,
    /// The OS refused to install the hook, with its error code.
    InstallFailed(u32),
    /// Whether anyone received the report.
    Reported(bool),
    /// What the wait for a message returned: positive for a message, zero for
    /// the request to quit, negative for an error.
    Message(i32),
}

/// What the hook thread tells whoever started it.
#[derive(Clone, Copy, Debug, PartialEq, Eq, Structural)]
pub enum ThreadReport {
    /// The hook is live on this thread.
    Live,
    /// The hook could not be installed, with the error code.
    Failed(u32),
}

/// What the hook thread does about an event, in this order.
#[derive(Clone, Copy, Debug, PartialEq, Eq, Structural)]
pub struct ThreadStep {
    /// Where the thread stands afterwards.
    pub phase: ThreadPhase,
    /// What it reports.
    pub report: Option<ThreadReport>,
    /// Whether it hands the message to its window procedure.
    pub dispatch: bool,
    /// Whether it uninstalls the hook.
    pub unhook: bool,
    /// Whether it clears the slot of the callback.
    pub clear: bool,
}

/// A step that does nothing but stand at `phase`.
pub open spec fn resting(phase: ThreadPhase) -> ThreadStep {
    ThreadStep { phase, report: None, dispatch: false, unhook: false, clear: false }
}

/// The step that tears a live hook down.
pub open spec fn torn_down() -> ThreadStep {
    ThreadStep { unhook: true, clear: true, ..resting(ThreadPhase::Ended) }
}

/// What the hook thread does about `event`. Events that do not belong to the
/// phase change nothing.
pub open spec fn thread_step(phase: ThreadPhase, event: ThreadEvent) -> ThreadStep {
    match (phase, event) {
        (ThreadPhase::Installing, ThreadEvent::Installed) => ThreadStep {
            report: Some(ThreadReport::Live),
            ..resting(ThreadPhase::Reporting)
        },
        (ThreadPhase::Installing, ThreadEvent::InstallFailed(code)) => ThreadStep {
            report: Some(ThreadReport::Failed(code)),
            clear: true,
            ..resting(ThreadPhase::Ended)
        },
        (ThreadPhase::Reporting, ThreadEvent::Reported(received)) => if received {
            resting(ThreadPhase::Pumping)
        } else {
            torn_down()
        },
        (ThreadPhase::Pumping, ThreadEvent::Message(ret)) => if ret > 0 {
            ThreadStep { dispatch: true, ..resting(ThreadPhase::Pumping) }
        } else {
            torn_down()
        },
        _ => resting(phase),
    }
}

/// Whether a message loop goes on after the wait for a message returned `ret`.
pub fn keeps_pumping(ret: i32) -> (r: bool)
    ensures
        r == (ret > 0),
{
    ret > 0
}

/// Decides what the hook thread does about `event`: install, report, pump
/// messages until it is told to quit, then uninstall.
pub fn thread_main(phase: ThreadPhase, event: ThreadEvent) -> (r: ThreadStep)
    ensures
        r == thread_step(phase, event),
{
    let rest = ThreadStep { phase, report: None, dispatch: false, unhook: false, clear: false };
    let down = ThreadStep {
        phase: ThreadPhase::Ended,
        report: None,
        dispatch: false,
        unhook: true,
        clear: true,
    };
    match (phase, event) {
        (ThreadPhase::Installing, ThreadEvent::Installed) => ThreadStep {
            phase: ThreadPhase::Reporting,
            report: Some(ThreadReport::Live),
            ..rest
        },
        (ThreadPhase::Installing, ThreadEvent::InstallFailed(code)) => ThreadStep {
            phase: ThreadPhase::Ended,
            report: Some(ThreadReport::Failed(code)),
            clear: true,
            ..rest
        },
        (ThreadPhase::Reporting, ThreadEvent::Reported(received)) => if received {
            ThreadStep { phase: ThreadPhase::Pumping, ..rest }
        } else {
            down
        },
        (ThreadPhase::Pumping, ThreadEvent::Message(ret)) => if keeps_pumping(ret) {
            ThreadStep { dispatch: true, ..rest }
        } else {
            down
        },
        _ => rest,
    }
}

/// What the thread holds when it stands at `phase`: whether its hook is
/// installed, and whether a callback is in the slot.
pub open spec fn holdings(phase: ThreadPhase) -> (bool, bool) {
    (phase is Reporting || phase is Pumping, !(phase is Ended))
}

/// What the thread holds after `event` and the step it leads to.
pub open spec fn holdings_after(held: (bool, bool), event: ThreadEvent, step: ThreadStep) -> (
    bool,
    bool,
) {
    ((held.0 || event is Installed) && !step.unhook, held.1 && !step.clear)
}

/// The hook thread always cleans up: at every point it holds exactly what its
/// phase says, so when it ends neither hook nor callback is left, and a hook is
/// only uninstalled while it is there.
pub proof fn law_hook_thread_cleans_up(phase: ThreadPhase, event: ThreadEvent)
    requires
        event is Installed ==> phase is Installing,
    ensures
        ({
            let step = thread_step(phase, event);
            &&& holdings_after(holdings(phase), event, step) == holdings(step.phase)
            &&& step.unhook ==> holdings(phase).0
        }),
        holdings(ThreadPhase::Ended) == (false, false),
{
}

/// The request to quit ends a running hook thread: the hook is uninstalled and
/// the callback is gone, so the callback is never called again. A thread that
/// has ended stays so, whatever still arrives.
pub proof fn law_quit_ends_the_hook_thread(event: ThreadEvent)
    ensures
        thread_step(ThreadPhase::Pumping, ThreadEvent::Message(0)) == torn_down(),
        holdings(torn_down().phase) == (false, false),
        thread_step(ThreadPhase::Ended, event) == resting(ThreadPhase::Ended),
{
}

/// Whoever started the thread hears from it exactly once: when the hook is live
/// or could not be installed, and never again.
pub proof fn law_hook_thread_reports_once(phase: ThreadPhase, event: ThreadEvent)
    ensures
        thread_step(phase, event).report is Some ==> phase is Installing && !(thread_step(
            phase,
            event,
        ).phase is Installing),
        !(phase is Installing) ==> !(thread_step(phase, event).phase is Installing),
{
}

// ---------------------------------------------------------------------------
// The foreground process
// ---------------------------------------------------------------------------

/// What the OS tells of the foreground window.
#[derive(Debug)]
pub struct ForegroundReading {
    /// Whether there is a foreground window.
    pub window: bool,
    /// The process it belongs to, zero if that is unknown.
    pub pid: u32,
    /// Whether the process could be opened.
    pub opened: bool,
    /// What the query for its image returned, zero for a failure.
    pub query: i32,
    /// The path of the image, in UTF-16, as far as the query filled it in.
    pub path: Vec<u16>,
}

/// What follows the last path separator of either flavour.
pub open spec fn file_name(path: Seq<char>) -> Seq<char> {
    path.skip(path.len() - text::trailing(path, CharClass::Name))
}

/// `c` in lower case, if it is an ASCII letter.
pub open spec fn ascii_lower(c: char) -> char {
    if 'A' <= c <= 'Z' {
        (c as int + 32) as char
    } else {
        c
    }
}

/// The name of the foreground process.
pub open spec fn process_name(reading: ForegroundReading) -> Option<Seq<char>> {
    if reading.window && reading.pid != 0 && reading.opened && reading.query != 0
        && reading.path@.len() > 0 {
        Some(file_name(utf16::decoded(reading.path@)).map_values(|c: char| ascii_lower(c)))
    } else {
        None
    }
}

/// Lower-cases the ASCII letters.
fn to_ascii_lowercase(v: &Vec<char>) -> (r: String)
    ensures
        r@ == v@.map_values(|c: char| ascii_lower(c)),
{
    let mut s = String::new();
    for i in 0..v.len()
        invariant
            s@ == v@.take(i as int).map_values(|c: char| ascii_lower(c)),
    {
        let c: char = v[i];
        let lower: char = if 'A' <= c && c <= 'Z' {
            (c as u8 + 32) as char
        } else {
            c
        };
        assert(lower == ascii_lower(c));
        s.push(lower);
        assert(s@ =~= v@.take(i + 1).map_values(|c: char| ascii_lower(c)));
    }
    assert(v@.take(v.len() as int) =~= v@);
    s
}

/// The executable file name of the foreground window (such as `"chrome.exe"`),
/// lower-cased for stable per-application profile matching. `None` when there is
/// no foreground window or its process cannot be queried.
pub fn frontmost_process_name(reading: &ForegroundReading) -> (r: Option<String>)
    ensures
        match r {
            Some(name) => process_name(*reading) == Some(name@),
            None => process_name(*reading) is None,
        },
{
    if !reading.window || reading.pid == 0 || !reading.opened || reading.query == 0
        || reading.path.len() == 0 {
        return None;
    }
    let path = chars_of(from_utf16_lossy(&reading.path).as_str());
    let n: usize = trailing_run(&path, CharClass::Name);
    let name = slice_of(&path, path.len() - n, path.len());
    assert(name@ =~= file_name(utf16::decoded(reading.path@)));
    Some(to_ascii_lowercase(&name))
}

/// Events that were injected, and those with a negative code, never reach the
/// callback.
pub proof fn law_injected_events_are_skipped(code: i32, wparam: usize, info: MouseInfo)
    ensures
        code < 0 ==> delivered(code, wparam, info) is None,
        info.flags % 2 == 1 ==> delivered(code, wparam, info) is None,
{
}

/// A press and its release stand for the same button.
pub proof fn law_press_and_release_agree(mouse_data: u32, id: ButtonId)
    ensures
        event_of(WM_LBUTTONDOWN, mouse_data) == button_event(id, true) <==> event_of(
            WM_LBUTTONUP,
            mouse_data,
        ) == button_event(id, false),
        event_of(WM_RBUTTONDOWN, mouse_data) == button_event(id, true) <==> event_of(
            WM_RBUTTONUP,
            mouse_data,
        ) == button_event(id, false),
        event_of(WM_MBUTTONDOWN, mouse_data) == button_event(id, true) <==> event_of(
            WM_MBUTTONUP,
            mouse_data,
        ) == button_event(id, false),
        event_of(WM_XBUTTONDOWN, mouse_data) == button_event(id, true) <==> event_of(
            WM_XBUTTONUP,
            mouse_data,
        ) == button_event(id, false),
{
}

/// The process name holds no path separator and no upper-case ASCII letter, so
/// that it is stable for matching.
pub proof fn law_process_name_is_normal(reading: ForegroundReading)
    ensures
        process_name(reading) matches Some(name) ==> forall|i: int|
            0 <= i < name.len() ==> {
                &&& #[trigger] name[i] != '\\'
                &&& name[i] != '/'
                &&& !('A' <= name[i] <= 'Z')
            },
{
    let path = utf16::decoded(reading.path@);
    let file = file_name(path);
    lemma_file_name(path);
    let name = file.map_values(|c: char| ascii_lower(c));
    assert forall|i: int| 0 <= i < name.len() implies {
        &&& #[trigger] name[i] != '\\'
        &&& name[i] != '/'
        &&& !('A' <= name[i] <= 'Z')
    } by {
        assert(CharClass::Name.has(file[i]));
        lemma_lower(file[i]);
    }
}

/// What lower-casing an ASCII letter gives.
proof fn lemma_lower(c: char)
    requires
        c != '\\',
        c != '/',
    ensures
        ascii_lower(c) != '\\',
        ascii_lower(c) != '/',
        !('A' <= ascii_lower(c) <= 'Z'),
{
}

/// A file name holds no separator.
proof fn lemma_file_name(path: Seq<char>)
    ensures
        forall|i: int|
            0 <= i < file_name(path).len() ==> CharClass::Name.has(#[trigger] file_name(path)[i]),
    decreases path.len(),
{
    text::lemma_trailing_extent(path, CharClass::Name);
    if path.len() > 0 && CharClass::Name.has(path.last()) {
        let p = path.drop_last();
        lemma_file_name(p);
        text::lemma_trailing_extent(p, CharClass::Name);
        assert forall|i: int| 0 <= i < file_name(path).len() implies CharClass::Name.has(
            #[trigger] file_name(path)[i],
        ) by {
            if i < file_name(path).len() - 1 {
                assert(file_name(path)[i] == file_name(p)[i]);
            } else {
                assert(file_name(path)[i] == path.last());
            }
        }
    }
}

/// Each button message stands for its button, down or up, whatever else the data
/// says; for a side button the high word of the data names it, and any other
/// name stands for none.
pub proof fn law_button_messages_name_their_buttons(data: u32)
    ensures
        event_of(WM_LBUTTONDOWN, data) == Some(
            MouseEvent::Button { id: ButtonId::LeftClick, pressed: true },
        ),
        event_of(WM_LBUTTONUP, data) == Some(
            MouseEvent::Button { id: ButtonId::LeftClick, pressed: false },
        ),
        event_of(WM_RBUTTONDOWN, data) == Some(
            MouseEvent::Button { id: ButtonId::RightClick, pressed: true },
        ),
        event_of(WM_RBUTTONUP, data) == Some(
            MouseEvent::Button { id: ButtonId::RightClick, pressed: false },
        ),
        event_of(WM_MBUTTONDOWN, data) == Some(
            MouseEvent::Button { id: ButtonId::MiddleClick, pressed: true },
        ),
        event_of(WM_MBUTTONUP, data) == Some(
            MouseEvent::Button { id: ButtonId::MiddleClick, pressed: false },
        ),
        data as int / 0x10000 == 1 ==> event_of(WM_XBUTTONDOWN, data) == Some(
            MouseEvent::Button { id: ButtonId::Back, pressed: true },
        ) && event_of(WM_XBUTTONUP, data) == Some(
            MouseEvent::Button { id: ButtonId::Back, pressed: false },
        ),
        data as int / 0x10000 == 2 ==> event_of(WM_XBUTTONDOWN, data) == Some(
            MouseEvent::Button { id: ButtonId::Forward, pressed: true },
        ) && event_of(WM_XBUTTONUP, data) == Some(
            MouseEvent::Button { id: ButtonId::Forward, pressed: false },
        ),
        data as int / 0x10000 != 1 && data as int / 0x10000 != 2 ==> event_of(WM_XBUTTONDOWN, data)
            is None && event_of(WM_XBUTTONUP, data) is None,
{
}

/// A wheel message scrolls by the signed high word of its data, along one axis:
/// the wheel turns up as negative, the horizontal wheel right as positive.
pub proof fn law_wheels_scroll_by_their_data(data: u32, units: i16)
    requires
        data as int / 0x10000 == if units >= 0 {
            units as int
        } else {
            units + 0x10000
        },
    ensures
        event_of(WM_MOUSEWHEEL, data) matches Some(MouseEvent::Scroll { delta_x, delta_y })
            && delta_x == 0 && delta_y == -units,
        event_of(WM_MOUSEHWHEEL, data) matches Some(MouseEvent::Scroll { delta_x, delta_y })
            && delta_x == units && delta_y == 0,
{
}

/// Any other message, such as a move, stands for no event.
pub proof fn law_other_messages_stand_for_nothing(msg: u32, data: u32)
    requires
        msg != WM_LBUTTONDOWN,
        msg != WM_LBUTTONUP,
        msg != WM_RBUTTONDOWN,
        msg != WM_RBUTTONUP,
        msg != WM_MBUTTONDOWN,
        msg != WM_MBUTTONUP,
        msg != WM_XBUTTONDOWN,
        msg != WM_XBUTTONUP,
        msg != WM_MOUSEWHEEL,
        msg != WM_MOUSEHWHEEL,
    ensures
        event_of(msg, data) is None,
{
}

/// Every event that a user caused reaches the callback as the event its message
/// stands for.
pub proof fn law_genuine_events_are_delivered(code: i32, msg: u32, wparam: usize, info: MouseInfo)
    requires
        code >= 0,
        info.flags % 2 == 0,
        wparam == msg,
    ensures
        delivered(code, wparam, info) == event_of(msg, info.mouse_data),
{
}

/// The life of the hook thread: once installed it reports, once that report was
/// received it pumps, it dispatches every message and stays, and it ends at the
/// request to quit, at an error, when nobody received the report, and with the
/// very error code when the hook could not be installed.
pub proof fn law_hook_thread_lives_until_it_is_told(code: u32, ret: i32)
    ensures
        ({
            let s = thread_step(ThreadPhase::Installing, ThreadEvent::Installed);
            s.phase is Reporting && s.report == Some(ThreadReport::Live) && !s.dispatch && !s.unhook
                && !s.clear
        }),
        ({
            let s = thread_step(ThreadPhase::Installing, ThreadEvent::InstallFailed(code));
            s.phase is Ended && s.report == Some(ThreadReport::Failed(code)) && s.clear && !s.unhook
        }),
        ({
            let s = thread_step(ThreadPhase::Reporting, ThreadEvent::Reported(true));
            s.phase is Pumping && s.report is None && !s.unhook && !s.clear
        }),
        ({
            let s = thread_step(ThreadPhase::Reporting, ThreadEvent::Reported(false));
            s.phase is Ended && s.unhook && s.clear && !s.dispatch
        }),
        ({
            let s = thread_step(ThreadPhase::Pumping, ThreadEvent::Message(ret));
            &&& s.report is None
            &&& s.dispatch <==> ret > 0
            &&& s.phase is Pumping <==> ret > 0
            &&& s.unhook <==> ret <= 0
            &&& s.clear <==> ret <= 0
            &&& ret <= 0 ==> s.phase is Ended
        }),
{
}

/// The foreground process is called by what follows the last separator of its
/// path, of either flavour, with the ASCII letters in lower case and every other
/// character as it is.
pub proof fn law_process_is_called_by_its_file(
    reading: ForegroundReading,
    dir: Seq<char>,
    file: Seq<char>,
    i: int,
)
    requires
        reading.window,
        reading.pid != 0,
        reading.opened,
        reading.query != 0,
        reading.path@.len() > 0,
        utf16::decoded(reading.path@) == dir + file,
        dir.len() > 0 ==> dir.last() == '\\' || dir.last() == '/',
        forall|k: int| 0 <= k < file.len() ==> #[trigger] file[k] != '\\' && file[k] != '/',
    ensures
        process_name(reading) is Some,
        process_name(reading)->0.len() == file.len(),
        0 <= i < file.len() && 'A' <= file[i] <= 'Z' ==> process_name(reading)->0[i] as int
            == file[i] as int + 32,
        0 <= i < file.len() && !('A' <= file[i] <= 'Z') ==> process_name(reading)->0[i] == file[i],
{
    let path = dir + file;
    assert forall|k: int| path.len() - file.len() <= k < path.len() implies CharClass::Name.has(
        #[trigger] path[k],
    ) by {
        assert(path[k] == file[k - dir.len()]);
    }
    if dir.len() > 0 {
        assert(path[path.len() - file.len() - 1] == dir[dir.len() - 1]);
    }
    text::lemma_trailing_is(path, CharClass::Name, file.len());
    assert(file_name(path) =~= file);
}

/// A process that could not be asked for has no name.
pub proof fn law_process_is_nameless_unless_every_step_worked(reading: ForegroundReading)
    requires
        !reading.window || reading.pid == 0 || !reading.opened || reading.query == 0
            || reading.path@.len() == 0,
    ensures
        process_name(reading) is None,
{
}

/// An event out of turn is ignored: it changes nothing and does nothing.
pub proof fn law_events_out_of_turn_are_ignored(phase: ThreadPhase, event: ThreadEvent)
    requires
        phase is Installing ==> !(event is Installed || event is InstallFailed),
        phase is Reporting ==> !(event is Reported),
        phase is Pumping ==> !(event is Message),
    ensures
        ({
            let s = thread_step(phase, event);
            s.phase == phase && s.report is None && !s.dispatch && !s.unhook && !s.clear
        }),
{
}

} // verus!
