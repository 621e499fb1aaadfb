//! Launch-at-login.
//!
//! On macOS a `LaunchAgent` plist is kept in sync with the running executable;
//! on Windows a value under the per-user `Run` registry key does the same. The
//! next login then relaunches OpenLogi, minimized to the tray. Other platforms
//! have no autostart.

use vstd::prelude::*;
use crate::text;
use crate::text::joined;
use crate::utf16;
use crate::utf16::wide;

verus! {

/// Stable launch-agent identifier.
pub const LABEL: &'static str = "org.openlogi.openlogi";

/// The plist up to the label.
pub const PLIST_HEAD: &'static str = "<?xml version=\"1.0\" encoding=\"UTF-8\"?>\n<!DOCTYPE plist PUBLIC \"-//Apple//DTD PLIST 1.0//EN\" \"http://www.apple.com/DTD/PropertyList-1.0.dtd\">\n<plist version=\"1.0\">\n<dict>\n  <key>Label</key>\n  <string>";

/// The plist from the label to the executable.
pub const PLIST_MIDDLE: &'static str = "</string>\n  <key>ProgramArguments</key>\n  <array>\n    <string>";

/// The plist from the executable on. The `--minimized` argument makes the
/// login-launched instance come up in the tray with no window.
pub const PLIST_TAIL: &'static str = "</string>\n    <string>--minimized</string>\n  </array>\n  <key>RunAtLoad</key>\n  <true/>\n  <key>KeepAlive</key>\n  <false/>\n</dict>\n</plist>\n";

/// The per-user registry key whose values are run at login.
pub const RUN_SUBKEY: &'static str = "Software\\Microsoft\\Windows\\CurrentVersion\\Run";

/// The value name under that key; also what the startup list shows.
pub const RUN_VALUE: &'static str = "OpenLogi";

/// The registry status for success.
pub const STATUS_OK: u32 = 0;

/// The registry status for a value that was already gone.
pub const ERROR_FILE_NOT_FOUND: u32 = 2;

/// The plist that launches `exe`.
pub open spec fn plist(exe: Seq<char>) -> Seq<char> {
    PLIST_HEAD@ + LABEL@ + PLIST_MIDDLE@ + exe + PLIST_TAIL@
}

/// Renders the plist that launches `exe` at login.
pub fn render_plist(exe: &str) -> (r: String)
    ensures
        r@ == plist(exe@),
{
    let mut s = PLIST_HEAD.to_owned();
    s.append(LABEL);
    s.append(PLIST_MIDDLE);
    s.append(exe);
    s.append(PLIST_TAIL);
    s
}

/// Where the plist lies, below the home directory.
pub fn plist_path() -> (r: Vec<String>)
    ensures
        r@.len() == 3,
        r@[0]@ == "Library"@,
        r@[1]@ == "LaunchAgents"@,
        r@[2]@ == LABEL@ + ".plist"@,
{
    let mut parts: Vec<String> = Vec::new();
    parts.push("Library".to_owned());
    parts.push("LaunchAgents".to_owned());
    parts.push(joined(LABEL, ".plist"));
    parts
}

/// The command line that the `Run` value holds for `exe`.
pub open spec fn command(exe: Seq<char>) -> Seq<char> {
    "\""@ + exe + "\" --minimized"@
}

/// The command line that the `Run` value holds for `exe`.
pub fn run_command(exe: &str) -> (r: String)
    ensures
        r@ == command(exe@),
{
    let mut s = "\"".to_owned();
    s.append(exe);
    s.append("\" --minimized");
    s
}

/// What the platform tells before autostart is reconciled.
#[derive(Debug)]
pub enum AutostartHost {
    /// macOS: the running executable (`None` if it or the home directory could
    /// not be found), and what the plist file holds (`None` if there is none).
    MacOs {
        /// The running executable.
        exe: Option<String>,
        /// The plist file.
        current: Option<String>,
    },
    /// Windows: the running executable, `None` if it could not be found.
    Windows {
        /// The running executable.
        exe: Option<String>,
    },
    /// A platform without autostart.
    Other,
}

/// A registry value to write: every text is in null-terminated UTF-16.
#[derive(Debug)]
pub struct RunValue {
    /// The key.
    pub subkey: Vec<u16>,
    /// The name of the value.
    pub name: Vec<u16>,
    /// The data of the value.
    pub data: Vec<u16>,
    /// The length of the data in bytes, terminator and all.
    pub byte_len: u32,
}

/// What has to be done about autostart.
#[derive(Debug)]
pub enum AutostartOrder {
    /// Nothing.
    Nothing,
    /// Write the plist file, creating its directory if needed.
    WritePlist(String),
    /// Remove the plist file.
    RemovePlist,
    /// Write this registry value.
    SetRunValue(RunValue),
    /// Remove the registry value with this key and name.
    DeleteRunValue(Vec<u16>, Vec<u16>),
}

/// The view of an [`AutostartOrder`].
pub enum AutostartView {
    /// Nothing.
    Nothing,
    /// Write the plist file.
    WritePlist(Seq<char>),
    /// Remove the plist file.
    RemovePlist,
    /// Write a registry value: key, name, data, and the length of the data.
    SetRunValue(Seq<u16>, Seq<u16>, Seq<u16>, u32),
    /// Remove the registry value with this key and name.
    DeleteRunValue(Seq<u16>, Seq<u16>),
}

impl View for AutostartOrder {
    type V = AutostartView;

    open spec fn view(&self) -> AutostartView {
        match self {
            AutostartOrder::Nothing => AutostartView::Nothing,
            AutostartOrder::WritePlist(s) => AutostartView::WritePlist(s@),
            AutostartOrder::RemovePlist => AutostartView::RemovePlist,
            AutostartOrder::SetRunValue(v) => AutostartView::SetRunValue(
                v.subkey@,
                v.name@,
                v.data@,
                v.byte_len,
            ),
            AutostartOrder::DeleteRunValue(k, n) => AutostartView::DeleteRunValue(k@, n@),
        }
    }
}

/// What the plist file ought to hold.
pub open spec fn desired_plist(enabled: bool, exe: Seq<char>) -> Option<Seq<char>> {
    if enabled {
        Some(plist(exe))
    } else {
        None
    }
}

/// What has to be done about the plist file, if anything.
pub open spec fn macos_order(enabled: bool, exe: Seq<char>, current: Option<Seq<char>>) ->
    AutostartView {
    if desired_plist(enabled, exe) == current {
        AutostartView::Nothing
    } else if enabled {
        AutostartView::WritePlist(plist(exe))
    } else {
        AutostartView::RemovePlist
    }
}

/// What has to be done about the registry value.
pub open spec fn windows_order(enabled: bool, exe: Option<Seq<char>>) -> AutostartView {
    let key = utf16::wide_form(RUN_SUBKEY@);
    let name = utf16::wide_form(RUN_VALUE@);
    if !enabled {
        AutostartView::DeleteRunValue(key, name)
    } else {
        match exe {
            Some(exe) => {
                let data = utf16::wide_form(command(exe));
                AutostartView::SetRunValue(
                    key,
                    name,
                    data,
                    (2 * data.len() % 0x1_0000_0000) as u32,
                )
            },
            None => AutostartView::Nothing,
        }
    }
}

/// What has to be done about autostart.
pub open spec fn autostart(enabled: bool, host: AutostartHost) -> AutostartView {
    match host {
        AutostartHost::MacOs { exe, current } => match exe {
            Some(exe) => macos_order(enabled, exe@, text::text_view(current)),
            None => AutostartView::Nothing,
        },
        AutostartHost::Windows { exe } => windows_order(enabled, text::text_view(exe)),
        AutostartHost::Other => AutostartView::Nothing,
    }
}

/// Reconciles autostart with `enabled`. Idempotent: nothing is done when the
/// platform already matches the desired state.
pub fn reconcile(enabled: bool, host: &AutostartHost) -> (r: AutostartOrder)
    ensures
        r@ == autostart(enabled, *host),
{
    match host {
        AutostartHost::MacOs { exe: Some(exe), current } => reconcile_macos(
            enabled,
            exe.as_str(),
            current,
        ),
        AutostartHost::MacOs { exe: None, .. } => AutostartOrder::Nothing,
        AutostartHost::Windows { exe } => reconcile_windows(enabled, exe),
        AutostartHost::Other => AutostartOrder::Nothing,
    }
}

/// Reconciles the plist file, which holds `current`.
pub fn reconcile_macos(enabled: bool, exe: &str, current: &Option<String>) -> (r: AutostartOrder)
    ensures
        r@ == macos_order(enabled, exe@, text::text_view(*current)),
{
    if enabled {
        let want = render_plist(exe);
        match current {
            Some(have) => if want == *have {
                AutostartOrder::Nothing
            } else {
                AutostartOrder::WritePlist(want)
            },
            None => AutostartOrder::WritePlist(want),
        }
    } else {
        match current {
            Some(_) => AutostartOrder::RemovePlist,
            None => AutostartOrder::Nothing,
        }
    }
}

/// Reconciles the `Run` value: the quoted executable with `--minimized` when
/// enabled, no value when disabled.
pub fn reconcile_windows(enabled: bool, exe: &Option<String>) -> (r: AutostartOrder)
    ensures
        r@ == windows_order(enabled, text::text_view(*exe)),
{
    let subkey = wide(RUN_SUBKEY);
    let name = wide(RUN_VALUE);
    if enabled {
        match exe {
            Some(exe) => {
                let data = wide(run_command(exe.as_str()).as_str());
                let byte_len: u32 = byte_len_of(data.len());
                AutostartOrder::SetRunValue(RunValue { subkey, name, data, byte_len })
            },
            None => AutostartOrder::Nothing,
        }
    } else {
        AutostartOrder::DeleteRunValue(subkey, name)
    }
}

/// The bytes that `units` code units take up, as the registry counts them.
fn byte_len_of(units: usize) -> (r: u32)
    ensures
        r == 2 * units as int % 0x1_0000_0000,
{
    let n: u64 = units as u64;
    let low: u64 = n & 0x7FFF_FFFF;
    assert(low == n % 0x8000_0000 && low <= 0x7FFF_FFFF) by (bit_vector)
        requires
            low == n & 0x7FFF_FFFF,
    ;
    (low * 2) as u32
}

/// How a registry call went.
#[derive(Clone, Copy, Debug, PartialEq, Eq, Structural)]
pub enum RunOutcome {
    /// The value is written.
    Installed,
    /// The value could not be written.
    NotWritten,
    /// The value is removed.
    Removed,
    /// There was no value to remove.
    AlreadyAbsent,
    /// The value could not be removed.
    NotRemoved,
}

/// Reads the status of the registry call that `enabled` led to.
pub fn run_outcome(enabled: bool, status: u32) -> (r: RunOutcome)
    ensures
        r == (if enabled {
            if status == STATUS_OK {
                RunOutcome::Installed
            } else {
                RunOutcome::NotWritten
            }
        } else if status == STATUS_OK {
            RunOutcome::Removed
        } else if status == ERROR_FILE_NOT_FOUND {
            RunOutcome::AlreadyAbsent
        } else {
            RunOutcome::NotRemoved
        }),
{
    if enabled {
        if status == STATUS_OK {
            RunOutcome::Installed
        } else {
            RunOutcome::NotWritten
        }
    } else if status == STATUS_OK {
        RunOutcome::Removed
    } else if status == ERROR_FILE_NOT_FOUND {
        RunOutcome::AlreadyAbsent
    } else {
        RunOutcome::NotRemoved
    }
}

// ---------------------------------------------------------------------------
// Laws
// ---------------------------------------------------------------------------

/// What the plist file holds after `order` was carried out on it.
pub open spec fn plist_after(order: AutostartView, current: Option<Seq<char>>) -> Option<
    Seq<char>,
> {
    match order {
        AutostartView::WritePlist(s) => Some(s),
        AutostartView::RemovePlist => None,
        _ => current,
    }
}

/// What the registry value holds after `order` was carried out on it.
pub open spec fn run_value_after(order: AutostartView, current: Option<Seq<u16>>) -> Option<
    Seq<u16>,
> {
    match order {
        AutostartView::SetRunValue(_, _, data, _) => Some(data),
        AutostartView::DeleteRunValue(_, _) => None,
        _ => current,
    }
}

/// Reconciling brings the plist file to the desired state, whatever it held,
/// and reconciling again does nothing.
pub proof fn law_plist_reconcile_is_idempotent(
    enabled: bool,
    exe: Seq<char>,
    current: Option<Seq<char>>,
)
    ensures
        ({
            let after = plist_after(macos_order(enabled, exe, current), current);
            &&& after == desired_plist(enabled, exe)
            &&& macos_order(enabled, exe, after) == AutostartView::Nothing
        }),
{
}

/// Turning autostart off removes what turning it on left behind.
pub proof fn law_disabling_undoes_enabling(exe: Seq<char>, current: Option<Seq<char>>)
    ensures
        ({
            let on = plist_after(macos_order(true, exe, current), current);
            plist_after(macos_order(false, exe, on), on) is None
        }),
        ({
            let on = run_value_after(windows_order(true, Some(exe)), None);
            &&& on == Some(utf16::wide_form(command(exe)))
            &&& run_value_after(windows_order(false, Some(exe)), on) is None
        }),
{
}

/// The registry ends in the same state whatever it held before, and a second
/// run changes nothing.
pub proof fn law_run_value_reconcile_is_idempotent(
    enabled: bool,
    exe: Seq<char>,
    current: Option<Seq<u16>>,
)
    ensures
        ({
            let order = windows_order(enabled, Some(exe));
            let after = run_value_after(order, current);
            &&& after == if enabled {
                Some(utf16::wide_form(command(exe)))
            } else {
                None
            }
            &&& run_value_after(order, after) == after
        }),
{
}

/// A plist that is current names the running executable: no two executables
/// share a plist.
pub proof fn law_plist_tells_executables_apart(a: Seq<char>, b: Seq<char>)
    requires
        plist(a) == plist(b),
    ensures
        a == b,
{
    let head = PLIST_HEAD@ + LABEL@ + PLIST_MIDDLE@;
    let n = head.len() as int;
    assert(plist(a).len() == n + a.len() + PLIST_TAIL@.len());
    assert(plist(b).len() == n + b.len() + PLIST_TAIL@.len());
    assert forall|i: int| 0 <= i < a.len() implies a[i] == b[i] by {
        assert(plist(a)[n + i] == a[i]);
        assert(plist(b)[n + i] == b[i]);
    }
    assert(a =~= b);
}

/// What launches at login is the running executable, named in full and followed
/// by `--minimized`: in the plist as the two program arguments under the label,
/// in the registry as a quoted command line. The executable stands in both as it
/// is, whatever its path.
pub proof fn law_login_launches_the_executable_minimized(exe: Seq<char>, i: int)
    ensures
        plist(exe) == plist(Seq::empty()).take((PLIST_HEAD@ + LABEL@ + PLIST_MIDDLE@).len() as int)
            + exe + plist(Seq::empty()).skip((PLIST_HEAD@ + LABEL@ + PLIST_MIDDLE@).len() as int),
        plist(Seq::empty()) == PLIST_HEAD@ + LABEL@ + PLIST_MIDDLE@ + PLIST_TAIL@,
        command(exe).len() == exe.len() + command(Seq::empty()).len(),
        command(exe)[0] == '"',
        0 <= i < exe.len() ==> command(exe)[i + 1] == exe[i],
        command(exe).skip(exe.len() as int + 1) == "\" --minimized"@,
{
    reveal_strlit("\"");
    let head = PLIST_HEAD@ + LABEL@ + PLIST_MIDDLE@;
    let none = plist(Seq::empty());
    assert(none =~= head + PLIST_TAIL@);
    assert(none.take(head.len() as int) =~= head);
    assert(none.skip(head.len() as int) =~= PLIST_TAIL@);
    assert(plist(exe) =~= head + exe + PLIST_TAIL@);
    assert(command(exe).skip(exe.len() as int + 1) =~= "\" --minimized"@);
}

/// What has to be done about the plist file: write the plist of the running
/// executable when autostart is on and the file is missing or holds anything
/// else, remove the file when autostart is off and there is one, and nothing
/// otherwise.
pub proof fn law_plist_file_is_brought_in_line(exe: Seq<char>, have: Seq<char>)
    ensures
        macos_order(true, exe, None) == AutostartView::WritePlist(plist(exe)),
        have != plist(exe) ==> macos_order(true, exe, Some(have)) == AutostartView::WritePlist(
            plist(exe),
        ),
        macos_order(true, exe, Some(plist(exe))) is Nothing,
        macos_order(false, exe, Some(have)) is RemovePlist,
        macos_order(false, exe, None) is Nothing,
{
}

/// What has to be done about the registry: write the command line of the running
/// executable under the fixed key and name when autostart is on, with the bytes
/// of its data counted terminator and all; remove the value when it is off, even
/// without an executable; and nothing when there is nothing to launch.
pub proof fn law_run_value_is_brought_in_line(exe: Seq<char>, maybe: Option<Seq<char>>)
    ensures
        windows_order(true, Some(exe)) matches AutostartView::SetRunValue(key, name, data, len)
            && key == utf16::wide_form("Software\\Microsoft\\Windows\\CurrentVersion\\Run"@) && name
            == utf16::wide_form("OpenLogi"@) && data == utf16::wide_form(command(exe)) && (2
            * data.len() <= u32::MAX ==> len == 2 * data.len()),
        windows_order(true, None) is Nothing,
        windows_order(false, maybe) matches AutostartView::DeleteRunValue(key, name) && key
            == utf16::wide_form("Software\\Microsoft\\Windows\\CurrentVersion\\Run"@) && name
            == utf16::wide_form("OpenLogi"@),
{
}

/// Each platform has its own autostart: a plist file on macOS, a registry value
/// on Windows, and none elsewhere; without a running executable macOS does
/// nothing.
pub proof fn law_each_platform_has_its_own_autostart(
    enabled: bool,
    exe: String,
    current: String,
    missing: Option<String>,
)
    ensures
        autostart(
            enabled,
            AutostartHost::MacOs { exe: Some(exe), current: Some(current) },
        ) == macos_order(enabled, exe@, Some(current@)),
        autostart(enabled, AutostartHost::MacOs { exe: Some(exe), current: None }) == macos_order(
            enabled,
            exe@,
            None,
        ),
        autostart(enabled, AutostartHost::MacOs { exe: None, current: missing }) is Nothing,
        autostart(enabled, AutostartHost::Windows { exe: Some(exe) }) == windows_order(
            enabled,
            Some(exe@),
        ),
        autostart(enabled, AutostartHost::Windows { exe: None }) == windows_order(enabled, None),
        autostart(enabled, AutostartHost::Other) is Nothing,
{
}

/// Orders are seen as they are.
pub proof fn law_autostart_orders_are_seen_as_they_are(order: AutostartOrder)
    ensures
        order is Nothing ==> order@ is Nothing,
        order is RemovePlist ==> order@ is RemovePlist,
        order matches AutostartOrder::WritePlist(s) ==> order@ == AutostartView::WritePlist(s@),
        order matches AutostartOrder::SetRunValue(v) ==> order@ == AutostartView::SetRunValue(
            v.subkey@,
            v.name@,
            v.data@,
            v.byte_len,
        ),
        order matches AutostartOrder::DeleteRunValue(k, n) ==> order@
            == AutostartView::DeleteRunValue(k@, n@),
{
}

} // verus!
