//! The localhost control channel for out-of-process commands: today just
//! `--set-dpi <N>`, so that a script can change the mouse DPI.
//!
//! The running instance holds the device open, so a second process asks it over
//! a loopback connection instead of opening the device itself. The protocol is
//! one request line in, one response line out:
//!   - `set-dpi <N>`  →  `ok <N>`  |  `err <message>`
//!
//! When no instance is running, the invocation opens the device directly.

use vstd::prelude::*;
use crate::cli;
use crate::cli::{fail, succeed, CliOutcome};
use crate::device;
use crate::device::{DeviceRoute, RouteView};
use crate::text;
use crate::text::{
    joined, parse_number, push_decimal, same_text, slice_of, split_word, starts_with, text_of, trimmed,
};

verus! {

/// Loopback port the control server listens on. Fixed (the client needs to find
/// it without coordination) and uncommon enough to avoid clashes.
pub const PORT: u16 = 47800;

/// The least DPI accepted from the control channel.
pub const DPI_MIN: u16 = 200;

/// The greatest DPI accepted from the control channel.
pub const DPI_MAX: u16 = 6400;

/// Milliseconds to wait for the connection to a running instance.
pub const CONNECT_TIMEOUT_MS: u64 = 400;

/// Seconds the server waits for the request line.
pub const SERVER_READ_TIMEOUT_S: u64 = 5;

/// Seconds the client waits for the response line.
pub const CLIENT_READ_TIMEOUT_S: u64 = 10;

/// Whether `dpi` is accepted.
pub open spec fn in_range(dpi: u16) -> bool {
    DPI_MIN <= dpi <= DPI_MAX
}

/// What is said of a DPI that is not accepted.
pub open spec fn range_text(dpi: u16) -> Seq<char> {
    "DPI "@ + text::decimal(dpi as nat) + " out of range "@ + text::decimal(DPI_MIN as nat) + "-"@
        + text::decimal(DPI_MAX as nat)
}

/// Appends what is said of a DPI that is not accepted.
fn push_range_text(s: &mut String, dpi: u16)
    ensures
        final(s)@ == old(s)@ + range_text(dpi),
{
    s.append("DPI ");
    push_decimal(s, dpi as u64);
    s.append(" out of range ");
    push_decimal(s, DPI_MIN as u64);
    s.append("-");
    push_decimal(s, DPI_MAX as u64);
    assert(s@ =~= old(s)@ + range_text(dpi));
}

// ---------------------------------------------------------------------------
// The server
// ---------------------------------------------------------------------------

/// What a request line asks for.
pub enum RequestView {
    /// Set the DPI to this value.
    SetDpi(u16),
    /// Nothing that can be done; this is the response.
    Reject(Seq<char>),
}

/// What the request `line` asks for.
pub open spec fn request_of(line: Seq<char>) -> RequestView {
    match text::first_word(line) {
        None => RequestView::Reject("err empty command"@),
        Some(command) => if command == "set-dpi"@ {
            match text::first_word(text::after_first_word(line)) {
                None => RequestView::Reject("err missing DPI value"@),
                Some(value) => match text::number_of(value, u16::MAX as nat) {
                    Some(dpi) => RequestView::SetDpi(dpi as u16),
                    None => RequestView::Reject("err invalid DPI value"@),
                },
            }
        } else {
            RequestView::Reject("err unknown command '"@ + command + "'"@)
        },
    }
}

/// What the server does with a request.
#[derive(Debug)]
pub enum ControlOrder {
    /// Answer with this line.
    Respond(String),
    /// Write this DPI to this device, and answer with what comes of it.
    WriteDpi {
        /// The device.
        target: DeviceRoute,
        /// The value.
        dpi: u16,
    },
}

/// The view of a [`ControlOrder`].
pub enum OrderView {
    /// Answer with this line.
    Respond(Seq<char>),
    /// Write this DPI to this device.
    WriteDpi(RouteView, u16),
}

impl View for ControlOrder {
    type V = OrderView;

    open spec fn view(&self) -> OrderView {
        match self {
            ControlOrder::Respond(line) => OrderView::Respond(line@),
            ControlOrder::WriteDpi { target, dpi } => OrderView::WriteDpi(target@, *dpi),
        }
    }
}

/// What the server does about a request for `dpi` while `target` is the active
/// device.
pub open spec fn set_dpi_order(dpi: u16, target: Option<RouteView>) -> OrderView {
    if !in_range(dpi) {
        OrderView::Respond("err "@ + range_text(dpi))
    } else {
        match target {
            Some(route) => OrderView::WriteDpi(route, dpi),
            None => OrderView::Respond("err no active device"@),
        }
    }
}

/// What the server does about the request `line`.
pub open spec fn order_of(line: Seq<char>, target: Option<RouteView>) -> OrderView {
    match request_of(line) {
        RequestView::SetDpi(dpi) => set_dpi_order(dpi, target),
        RequestView::Reject(response) => OrderView::Respond(response),
    }
}

/// Judges a DPI write requested over the control channel.
pub fn apply_set_dpi(dpi: u16, target: Option<DeviceRoute>) -> (r: ControlOrder)
    ensures
        r@ == set_dpi_order(dpi, device::route_view(target)),
{
    if dpi < DPI_MIN || DPI_MAX < dpi {
        let mut s = "err ".to_owned();
        push_range_text(&mut s, dpi);
        return ControlOrder::Respond(s);
    }
    match target {
        Some(target) => ControlOrder::WriteDpi { target, dpi },
        None => ControlOrder::Respond("err no active device".to_owned()),
    }
}

/// Judges the characters of one command line.
fn dispatch_chars(line: &Vec<char>, target: Option<DeviceRoute>) -> (r: ControlOrder)
    ensures
        r@ == order_of(line@, device::route_view(target)),
{
    let (command, rest) = split_word(line);
    let command = match command {
        Some(w) => text_of(&w),
        None => {
            return ControlOrder::Respond("err empty command".to_owned());
        },
    };
    if !same_text(command.as_str(), "set-dpi") {
        let mut s = joined("err unknown command '", command.as_str());
        s.append("'");
        return ControlOrder::Respond(s);
    }
    let (value, _) = split_word(&rest);
    match value {
        None => ControlOrder::Respond("err missing DPI value".to_owned()),
        Some(digits) => match parse_number(&digits, u16::MAX as u64) {
            Some(dpi) => apply_set_dpi(dpi as u16, target),
            None => ControlOrder::Respond("err invalid DPI value".to_owned()),
        },
    }
}

/// Judges one command line, while `target` is the active device.
pub fn dispatch(line: &str, target: Option<DeviceRoute>) -> (r: ControlOrder)
    ensures
        r@ == order_of(line@, device::route_view(target)),
{
    dispatch_chars(&text::chars_of(line), target)
}

/// Judges one line as it was read off the connection, line feed and all.
pub fn handle_line(line: &str, target: Option<DeviceRoute>) -> (r: ControlOrder)
    ensures
        r@ == order_of(text::trim(line@), device::route_view(target)),
{
    dispatch_chars(&trimmed(line), target)
}

/// The response to a write of `dpi` that ended as `result` says. `Ok` tells
/// whether the open channel was reused, which changes nothing.
pub open spec fn write_response(dpi: u16, result: Result<bool, Seq<char>>) -> Seq<char> {
    match result {
        Ok(_) => "ok "@ + text::decimal(dpi as nat),
        Err(e) => "err "@ + e,
    }
}

/// The view of how a write ended.
pub open spec fn write_view(result: Result<bool, String>) -> Result<bool, Seq<char>> {
    match result {
        Ok(reused) => Ok(reused),
        Err(e) => Err(e@),
    }
}

/// Concludes a DPI write: the response line, and the value that the slider label
/// has to show, so that it keeps in step with the out-of-process change.
pub fn conclude_set_dpi(dpi: u16, result: Result<bool, String>) -> (r: (String, Option<u32>))
    ensures
        r.0@ == write_response(dpi, write_view(result)),
        r.1 == (if result is Ok {
            Some(dpi as u32)
        } else {
            None
        }),
{
    match result {
        Ok(_) => {
            let mut s = "ok ".to_owned();
            push_decimal(&mut s, dpi as u64);
            (s, Some(dpi as u32))
        },
        Err(e) => (joined("err ", e.as_str()), None),
    }
}

// ---------------------------------------------------------------------------
// The client
// ---------------------------------------------------------------------------

/// Reads the argument of `--set-dpi`, or tells why it is none.
pub fn run_set_dpi_cli(raw: &str) -> (r: Result<u16, CliOutcome>)
    ensures
        match r {
            Ok(dpi) => text::number_of(text::trim(raw@), u16::MAX as nat) == Some(dpi as nat),
            Err(outcome) => {
                &&& text::number_of(text::trim(raw@), u16::MAX as nat) is None
                &&& outcome@ == cli::failure(
                    2,
                    "--set-dpi needs a whole number, got '"@ + raw@ + "'"@,
                )
            },
        },
{
    match parse_number(&trimmed(raw), u16::MAX as u64) {
        Some(dpi) => Ok(dpi as u16),
        None => {
            let mut s = joined("--set-dpi needs a whole number, got '", raw);
            s.append("'");
            Err(fail(2, s))
        },
    }
}

/// The request for `dpi`, without its line feed.
pub open spec fn request_text(dpi: u16) -> Seq<char> {
    "set-dpi "@ + text::decimal(dpi as nat)
}

/// The request line for `dpi`.
pub fn request_line(dpi: u16) -> (r: String)
    ensures
        r@ == request_text(dpi).push('\n'),
{
    let mut s = "set-dpi ".to_owned();
    push_decimal(&mut s, dpi as u64);
    s.push('\n');
    s
}

/// What came back of the request to a running instance.
#[derive(Debug)]
pub enum ServerReply {
    /// The connection could not be used, with the error.
    ConnectionFailed(String),
    /// The request could not be sent, with the error.
    WriteFailed(String),
    /// The response could not be read, with the error.
    ReadFailed(String),
    /// The response line.
    Line(String),
}

/// What a response line tells the user.
pub open spec fn line_outcome(line: Seq<char>) -> cli::CliOutcomeView {
    let l = text::trim(line);
    if "ok "@.is_prefix_of(l) {
        cli::success("DPI set to "@ + l.skip("ok "@.len() as int) + " (via running OpenLogi)."@)
    } else if "err "@.is_prefix_of(l) {
        cli::failure(1, "DPI change failed: "@ + l.skip("err "@.len() as int))
    } else {
        cli::failure(1, "DPI change failed: "@ + l)
    }
}

/// What the user is told of the answer of a running instance.
pub open spec fn reply_outcome(reply: ServerReply) -> cli::CliOutcomeView {
    match reply {
        ServerReply::ConnectionFailed(e) => cli::failure(1, "control connection failed: "@ + e@),
        ServerReply::WriteFailed(e) => cli::failure(1, "control write failed: "@ + e@),
        ServerReply::ReadFailed(e) => cli::failure(1, "control read failed: "@ + e@),
        ServerReply::Line(line) => line_outcome(line@),
    }
}

/// Reports the answer of a running instance.
pub fn set_dpi_via_server(reply: &ServerReply) -> (r: CliOutcome)
    ensures
        r@ == reply_outcome(*reply),
{
    match reply {
        ServerReply::ConnectionFailed(e) => fail(
            1,
            joined("control connection failed: ", e.as_str()),
        ),
        ServerReply::WriteFailed(e) => fail(1, joined("control write failed: ", e.as_str())),
        ServerReply::ReadFailed(e) => fail(1, joined("control read failed: ", e.as_str())),
        ServerReply::Line(line) => {
            proof {
                reveal_strlit("ok ");
                reveal_strlit("err ");
            }
            let l = trimmed(line.as_str());
            if starts_with(&l, "ok ") {
                let rest = slice_of(&l, 3, l.len());
                assert(rest@ =~= l@.skip("ok "@.len() as int));
                let mut s = joined("DPI set to ", text_of(&rest).as_str());
                s.append(" (via running OpenLogi).");
                succeed(s)
            } else if starts_with(&l, "err ") {
                let rest = slice_of(&l, 4, l.len());
                assert(rest@ =~= l@.skip("err "@.len() as int));
                fail(1, joined("DPI change failed: ", text_of(&rest).as_str()))
            } else {
                fail(1, joined("DPI change failed: ", text_of(&l).as_str()))
            }
        },
    }
}

/// The refusal of a DPI that is not accepted.
fn refusal(dpi: u16) -> (r: CliOutcome)
    ensures
        r@ == cli::failure(1, range_text(dpi)),
{
    let mut s = String::new();
    push_range_text(&mut s, dpi);
    assert(s@ =~= range_text(dpi));
    fail(1, s)
}

/// How a `--set-dpi` invocation goes on.
#[derive(Debug)]
pub enum DpiPlan {
    /// Send this line to the running instance and report its answer.
    Ask(String),
    /// Open the first online device and set its DPI.
    OpenDevice,
    /// Report this and end.
    Exit(CliOutcome),
}

/// The view of a [`DpiPlan`].
pub enum PlanView {
    /// Send this line to the running instance.
    Ask(Seq<char>),
    /// Open the first online device.
    OpenDevice,
    /// Report this and end.
    Exit(cli::CliOutcomeView),
}

impl View for DpiPlan {
    type V = PlanView;

    open spec fn view(&self) -> PlanView {
        match self {
            DpiPlan::Ask(line) => PlanView::Ask(line@),
            DpiPlan::OpenDevice => PlanView::OpenDevice,
            DpiPlan::Exit(outcome) => PlanView::Exit(outcome@),
        }
    }
}

/// How an invocation for `dpi` goes on, given whether an instance is running: a
/// running instance is always asked, and only without one is the device opened.
pub open spec fn plan_of(dpi: u16, running: bool) -> PlanView {
    if running {
        PlanView::Ask(request_text(dpi).push('\n'))
    } else if in_range(dpi) {
        PlanView::OpenDevice
    } else {
        PlanView::Exit(cli::failure(1, range_text(dpi)))
    }
}

/// Decides how an invocation for `dpi` goes on, given whether the connection to
/// a running instance came about.
pub fn plan_set_dpi(dpi: u16, running: bool) -> (r: DpiPlan)
    ensures
        r@ == plan_of(dpi, running),
{
    if running {
        DpiPlan::Ask(request_line(dpi))
    } else if dpi < DPI_MIN || DPI_MAX < dpi {
        DpiPlan::Exit(refusal(dpi))
    } else {
        DpiPlan::OpenDevice
    }
}

/// How the attempt to set the DPI directly ended.
#[derive(Debug)]
pub enum StandaloneEnd {
    /// The runtime could not be set up, with the error.
    NoRuntime(String),
    /// The DPI could not be set, with the error.
    Failed(String),
    /// The DPI is set.
    Applied,
}

/// What the user is told of an attempt to set the DPI directly. A DPI that is
/// not accepted is refused, whatever the attempt came to.
pub open spec fn standalone_outcome(dpi: u16, end: StandaloneEnd) -> cli::CliOutcomeView {
    if !in_range(dpi) {
        cli::failure(1, range_text(dpi))
    } else {
        match end {
            StandaloneEnd::NoRuntime(e) => cli::failure(1, "runtime init failed: "@ + e@),
            StandaloneEnd::Failed(e) => cli::failure(1, "DPI change failed: "@ + e@),
            StandaloneEnd::Applied => cli::success(
                "DPI set to "@ + text::decimal(dpi as nat) + "."@,
            ),
        }
    }
}

/// Reports how the attempt to set the DPI directly ended.
pub fn set_dpi_standalone(dpi: u16, end: &StandaloneEnd) -> (r: CliOutcome)
    ensures
        r@ == standalone_outcome(dpi, *end),
{
    if dpi < DPI_MIN || DPI_MAX < dpi {
        return refusal(dpi);
    }
    match end {
        StandaloneEnd::NoRuntime(e) => fail(1, joined("runtime init failed: ", e.as_str())),
        StandaloneEnd::Failed(e) => fail(1, joined("DPI change failed: ", e.as_str())),
        StandaloneEnd::Applied => {
            let mut s = "DPI set to ".to_owned();
            push_decimal(&mut s, dpi as u64);
            s.append(".");
            succeed(s)
        },
    }
}

// ---------------------------------------------------------------------------
// Laws
// ---------------------------------------------------------------------------

/// Decimal notation neither starts nor ends in white space, nor holds any.
proof fn lemma_decimal_is_a_word(n: nat)
    ensures
        text::decimal(n).len() > 0,
        forall|i: int|
            0 <= i < text::decimal(n).len() ==> !text::is_white(#[trigger] text::decimal(n)[i]),
{
    text::lemma_decimal(n);
    assert forall|i: int| 0 <= i < text::decimal(n).len() implies !text::is_white(
        #[trigger] text::decimal(n)[i],
    ) by {
        assert(text::is_digit(text::decimal(n)[i]));
    }
}

/// What either end reads of what the other wrote: everything up to the first
/// line feed, line feed and all.
pub open spec fn first_line(s: Seq<char>) -> Seq<char>
    decreases s.len(),
{
    if s.len() == 0 {
        s
    } else if s[0] == '\n' {
        s.take(1)
    } else {
        seq![s[0]] + first_line(s.drop_first())
    }
}

/// Whether `s` stays on one line.
pub open spec fn on_one_line(s: Seq<char>) -> bool {
    forall|i: int| 0 <= i < s.len() ==> #[trigger] s[i] != '\n'
}

/// A text without a line feed is read in full.
proof fn lemma_first_line(s: Seq<char>)
    requires
        on_one_line(s),
    ensures
        first_line(s.push('\n')) == s.push('\n'),
    decreases s.len(),
{
    let line = s.push('\n');
    if s.len() == 0 {
        assert(line.take(1) =~= line);
    } else {
        let rest = s.drop_first();
        assert(s[0] != '\n');
        assert forall|i: int| 0 <= i < rest.len() implies #[trigger] rest[i] != '\n' by {
            assert(rest[i] == s[i + 1]);
        }
        lemma_first_line(rest);
        assert(line.drop_first() =~= rest.push('\n'));
        assert(seq![line[0]] + rest.push('\n') =~= line);
    }
}

/// Two texts without a line feed make one without.
proof fn lemma_one_line_append(a: Seq<char>, b: Seq<char>)
    requires
        on_one_line(a),
        on_one_line(b),
    ensures
        on_one_line(a + b),
{
    assert forall|i: int| 0 <= i < (a + b).len() implies #[trigger] (a + b)[i] != '\n' by {
        if i < a.len() {
            assert((a + b)[i] == a[i]);
        } else {
            assert((a + b)[i] == b[i - a.len()]);
        }
    }
}

/// What is said of a DPI that is not accepted stays on one line.
proof fn lemma_range_text_is_one_line(dpi: u16)
    ensures
        on_one_line(range_text(dpi)),
{
    reveal_strlit("DPI ");
    reveal_strlit(" out of range ");
    reveal_strlit("-");
    let d = text::decimal(dpi as nat);
    let min = text::decimal(DPI_MIN as nat);
    let max = text::decimal(DPI_MAX as nat);
    lemma_decimal_is_a_word(dpi as nat);
    lemma_decimal_is_a_word(DPI_MIN as nat);
    lemma_decimal_is_a_word(DPI_MAX as nat);
    lemma_one_line_append("DPI "@, d);
    lemma_one_line_append("DPI "@ + d, " out of range "@);
    lemma_one_line_append("DPI "@ + d + " out of range "@, min);
    lemma_one_line_append("DPI "@ + d + " out of range "@ + min, "-"@);
    lemma_one_line_append("DPI "@ + d + " out of range "@ + min + "-"@, max);
}

/// The server reads what the client wrote: the request line for a DPI asks for
/// exactly that DPI, whatever it is.
pub proof fn law_request_round_trip(dpi: u16)
    ensures
        request_of(text::trim(first_line(request_text(dpi).push('\n')))) == RequestView::SetDpi(
            dpi,
        ),
{
    reveal_strlit("set-dpi ");
    reveal_strlit("set-dpi");
    let d = text::decimal(dpi as nat);
    let s = request_text(dpi);
    lemma_decimal_is_a_word(dpi as nat);
    lemma_one_line_append("set-dpi "@, d);
    lemma_first_line(s);
    assert(s[0] == 's');
    assert(s.last() == d[d.len() - 1]);
    text::lemma_trim_line(s);
    assert(text::trim_start(s) =~= s);
    assert(s[7] == ' ');
    text::lemma_leading_is(s, text::CharClass::Word, 7);
    assert(s.take(7) =~= "set-dpi"@);
    let rest = s.skip(7);
    assert(text::after_first_word(s) == rest);
    assert(rest =~= seq![' '] + d);
    assert(rest[1] == d[0]);
    text::lemma_leading_is(rest, text::CharClass::White, 1);
    assert(text::trim_start(rest) =~= d);
    text::lemma_leading_is(d, text::CharClass::Word, d.len());
    assert(d.take(d.len() as int) =~= d);
    text::law_decimal_round_trip(dpi as nat, u16::MAX as nat);
}

/// A write is only ever asked for within the accepted range, and only on the
/// active device.
pub proof fn law_writes_stay_in_range(line: Seq<char>, target: Option<RouteView>)
    ensures
        order_of(line, target) matches OrderView::WriteDpi(route, dpi) ==> in_range(dpi) && target
            == Some(route),
{
}

/// A DPI out of range is refused on both ways to the device, in the same words.
pub proof fn law_out_of_range_is_refused(
    dpi: u16,
    target: Option<RouteView>,
    end: StandaloneEnd,
)
    requires
        !in_range(dpi),
    ensures
        order_of(text::trim(first_line(request_text(dpi).push('\n'))), target)
            == OrderView::Respond("err "@ + range_text(dpi)),
        line_outcome(first_line(("err "@ + range_text(dpi)).push('\n'))) == cli::failure(
            1,
            "DPI change failed: "@ + range_text(dpi),
        ),
        plan_of(dpi, false) == PlanView::Exit(cli::failure(1, range_text(dpi))),
        standalone_outcome(dpi, end) == cli::failure(1, range_text(dpi)),
{
    law_request_round_trip(dpi);
    let m = range_text(dpi);
    let d = text::decimal(DPI_MAX as nat);
    lemma_decimal_is_a_word(DPI_MAX as nat);
    assert(m.last() == d[d.len() - 1]);
    lemma_range_text_is_one_line(dpi);
    law_error_reply_is_reported(dpi, m);
}

/// A request within range, with an active device, is carried out exactly as
/// asked for, and its success is what the client reports.
pub proof fn law_set_dpi_end_to_end(dpi: u16, route: RouteView, reused: bool)
    requires
        in_range(dpi),
    ensures
        order_of(text::trim(first_line(request_text(dpi).push('\n'))), Some(route))
            == OrderView::WriteDpi(route, dpi),
        line_outcome(first_line(write_response(dpi, Ok(reused)).push('\n'))) == cli::success(
            "DPI set to "@ + text::decimal(dpi as nat) + " (via running OpenLogi)."@,
        ),
{
    law_request_round_trip(dpi);
    reveal_strlit("ok ");
    let d = text::decimal(dpi as nat);
    lemma_decimal_is_a_word(dpi as nat);
    let s = "ok "@ + d;
    lemma_one_line_append("ok "@, d);
    lemma_first_line(s);
    assert(s[0] == 'o');
    assert(s.last() == d[d.len() - 1]);
    text::lemma_trim_line(s);
    assert("ok "@ =~= s.subrange(0, 3));
    assert(s.skip(3) =~= d);
}

/// A refusal reaches the user: the client reports the message of an error
/// response in full, if it stays on one line (the client reads no further) and
/// does not end in white space (which the line loses).
pub proof fn law_error_reply_is_reported(dpi: u16, message: Seq<char>)
    requires
        message.len() > 0,
        !text::is_white(message.last()),
        on_one_line(message),
    ensures
        line_outcome(first_line(write_response(dpi, Err(message)).push('\n'))) == cli::failure(
            1,
            "DPI change failed: "@ + message,
        ),
{
    reveal_strlit("err ");
    reveal_strlit("ok ");
    let s = "err "@ + message;
    lemma_one_line_append("err "@, message);
    lemma_first_line(s);
    assert(s[0] == 'e');
    assert(s.last() == message[message.len() - 1]);
    text::lemma_trim_line(s);
    assert("err "@ =~= s.subrange(0, 4));
    assert(s.skip(4) =~= message);
    assert(!"ok "@.is_prefix_of(s)) by {
        assert(s.subrange(0, 3)[0] == 'e');
        assert("ok "@[0] == 'o');
    }
}

/// What `--set-dpi` plans reaches the device unchanged: while an instance is
/// running, the planned line is read by the server as a request for exactly that
/// DPI, and with an active device an accepted one is written to just that
/// device.
pub proof fn law_plan_reaches_the_device(dpi: u16, route: RouteView)
    ensures
        plan_of(dpi, true) matches PlanView::Ask(line) && request_of(text::trim(first_line(line)))
            == RequestView::SetDpi(dpi),
        plan_of(dpi, true) matches PlanView::Ask(line) && (DPI_MIN <= dpi <= DPI_MAX ==> order_of(
            text::trim(first_line(line)),
            Some(route),
        ) == OrderView::WriteDpi(route, dpi)),
{
    law_request_round_trip(dpi);
}

/// The device is opened only without a running instance, and only for a DPI
/// between the two bounds; any other is refused with code 1, in words that name
/// the DPI and both bounds.
pub proof fn law_device_is_opened_within_the_bounds_only(dpi: u16, end: StandaloneEnd)
    ensures
        !(DPI_MIN <= dpi <= DPI_MAX) ==> plan_of(dpi, false) == PlanView::Exit(
            standalone_outcome(dpi, end),
        ),
        plan_of(dpi, true) is Ask,
        plan_of(dpi, false) is OpenDevice <==> DPI_MIN <= dpi <= DPI_MAX,
        !(DPI_MIN <= dpi <= DPI_MAX) ==> plan_of(dpi, false) == PlanView::Exit(
            cli::CliOutcomeView {
                code: 1,
                to_stderr: true,
                message: "DPI "@ + text::decimal(dpi as nat) + " out of range "@ + text::decimal(
                    DPI_MIN as nat,
                ) + "-"@ + text::decimal(DPI_MAX as nat),
            },
        ),
{
}

/// What the server does about a DPI: write exactly that value to exactly the
/// active device when it is between the bounds, refuse it by name when it is
/// not, and say so when there is no device.
pub proof fn law_server_writes_within_the_bounds_only(dpi: u16, route: RouteView)
    ensures
        DPI_MIN <= dpi <= DPI_MAX ==> set_dpi_order(dpi, Some(route)) == OrderView::WriteDpi(
            route,
            dpi,
        ),
        DPI_MIN <= dpi <= DPI_MAX ==> set_dpi_order(dpi, None) == OrderView::Respond(
            "err no active device"@,
        ),
        !(DPI_MIN <= dpi <= DPI_MAX) ==> set_dpi_order(dpi, Some(route)) == OrderView::Respond(
            "err "@ + ("DPI "@ + text::decimal(dpi as nat) + " out of range "@ + text::decimal(
                DPI_MIN as nat,
            ) + "-"@ + text::decimal(DPI_MAX as nat)),
        ),
        !(DPI_MIN <= dpi <= DPI_MAX) ==> set_dpi_order(dpi, None) == set_dpi_order(
            dpi,
            Some(route),
        ),
{
}

/// How a request line is read, whatever white space stands in it: the first word
/// is the command and the second the value. Anything but `set-dpi` is refused by
/// name, a missing value and one that is no number are refused, a number is
/// asked for, and what follows the value does not matter.
pub proof fn law_request_is_read_by_words(
    pre: Seq<char>,
    command: Seq<char>,
    gap: Seq<char>,
    value: Seq<char>,
    rest: Seq<char>,
)
    requires
        text::all_white(pre),
        text::no_white(command),
        command.len() > 0,
        text::all_white(gap),
        gap.len() > 0,
        text::no_white(value),
        value.len() > 0,
        rest.len() > 0 ==> text::is_white(rest[0]),
    ensures
        command != "set-dpi"@ ==> request_of(pre + command + (gap + value + rest))
            == RequestView::Reject("err unknown command '"@ + command + "'"@),
        command == "set-dpi"@ ==> request_of(pre + command + (gap + value + rest)) == (
        match text::number_of(value, u16::MAX as nat) {
            Some(n) => RequestView::SetDpi(n as u16),
            None => RequestView::Reject("err invalid DPI value"@),
        }),
        command != "set-dpi"@ ==> request_of(pre + command + gap) == RequestView::Reject(
            "err unknown command '"@ + command + "'"@,
        ),
        command == "set-dpi"@ ==> request_of(pre + command + gap) == RequestView::Reject(
            "err missing DPI value"@,
        ),
        command == "set-dpi"@ ==> request_of(pre + command) == RequestView::Reject(
            "err missing DPI value"@,
        ),
        request_of(pre) == RequestView::Reject("err empty command"@),
{
    let tail = gap + value + rest;
    assert(tail[0] == gap[0]);
    text::law_first_word_is_split_off(pre, command, tail);
    text::law_first_word_is_split_off(gap, value, rest);
    text::law_first_word_is_split_off(pre, command, gap);
    text::law_first_word_is_split_off(pre, command, Seq::empty());
    assert(pre + command + Seq::<char>::empty() =~= pre + command);
    text::law_first_word_is_split_off(Seq::empty(), Seq::empty(), Seq::empty());
}

/// How an answer is read, whatever white space stands around it: what follows
/// `ok ` is reported as success with code 0, what follows `err ` as failure with
/// code 1, and any other answer as failure in full.
pub proof fn law_answer_is_reported(
    pre: Seq<char>,
    answer: Seq<char>,
    post: Seq<char>,
    rest: Seq<char>,
)
    requires
        text::all_white(pre),
        text::all_white(post),
        answer.len() > 0 ==> !text::is_white(answer[0]) && !text::is_white(answer.last()),
    ensures
        answer == "ok "@ + rest ==> line_outcome(pre + answer + post) == (cli::CliOutcomeView {
            code: 0,
            to_stderr: false,
            message: "DPI set to "@ + rest + " (via running OpenLogi)."@,
        }),
        answer == "err "@ + rest ==> line_outcome(pre + answer + post) == (cli::CliOutcomeView {
            code: 1,
            to_stderr: true,
            message: "DPI change failed: "@ + rest,
        }),
        !"ok "@.is_prefix_of(answer) && !"err "@.is_prefix_of(answer) ==> line_outcome(
            pre + answer + post,
        ) == (cli::CliOutcomeView {
            code: 1,
            to_stderr: true,
            message: "DPI change failed: "@ + answer,
        }),
{
    text::law_trim_takes_the_white_space_around(pre, answer, post);
    reveal_strlit("ok ");
    reveal_strlit("err ");
    if answer == "ok "@ + rest {
        assert("ok "@ =~= answer.subrange(0, 3));
        assert(answer.skip(3) =~= rest);
    }
    if answer == "err "@ + rest {
        assert("err "@ =~= answer.subrange(0, 4));
        assert(answer.skip(4) =~= rest);
        assert(!"ok "@.is_prefix_of(answer)) by {
            assert(answer.subrange(0, 3)[0] == 'e');
            assert("ok "@[0] == 'o');
        }
    }
}

/// A connection that fails is reported with its step and its error in full, as
/// failure with code 1.
pub proof fn law_failed_connection_is_reported(e: String)
    ensures
        reply_outcome(ServerReply::ConnectionFailed(e)) == (cli::CliOutcomeView {
            code: 1,
            to_stderr: true,
            message: "control connection failed: "@ + e@,
        }),
        reply_outcome(ServerReply::WriteFailed(e)) == (cli::CliOutcomeView {
            code: 1,
            to_stderr: true,
            message: "control write failed: "@ + e@,
        }),
        reply_outcome(ServerReply::ReadFailed(e)) == (cli::CliOutcomeView {
            code: 1,
            to_stderr: true,
            message: "control read failed: "@ + e@,
        }),
        reply_outcome(ServerReply::Line(e)) == line_outcome(e@),
{
}

/// How direct access is reported: an accepted DPI that was applied by its value
/// with code 0, a failure with its error in full and code 1.
pub proof fn law_direct_access_is_reported(dpi: u16, e: String)
    requires
        DPI_MIN <= dpi <= DPI_MAX,
    ensures
        standalone_outcome(dpi, StandaloneEnd::Applied) == (cli::CliOutcomeView {
            code: 0,
            to_stderr: false,
            message: "DPI set to "@ + text::decimal(dpi as nat) + "."@,
        }),
        standalone_outcome(dpi, StandaloneEnd::Failed(e)) == (cli::CliOutcomeView {
            code: 1,
            to_stderr: true,
            message: "DPI change failed: "@ + e@,
        }),
        standalone_outcome(dpi, StandaloneEnd::NoRuntime(e)) == (cli::CliOutcomeView {
            code: 1,
            to_stderr: true,
            message: "runtime init failed: "@ + e@,
        }),
{
}

/// The server answers a write with the value that was asked for, or with the
/// error in full.
pub proof fn law_write_is_answered(dpi: u16, reused: bool, e: Seq<char>, error: String)
    ensures
        write_view(Ok(reused)) == Ok::<bool, Seq<char>>(reused),
        write_view(Err(error)) == Err::<bool, Seq<char>>(error@),
        write_response(dpi, Ok(reused)) == "ok "@ + text::decimal(dpi as nat),
        write_response(dpi, Err(e)) == "err "@ + e,
{
}

/// Orders and plans are seen as they are.
pub proof fn law_orders_are_seen_as_they_are(order: ControlOrder, plan: DpiPlan)
    ensures
        order matches ControlOrder::Respond(line) ==> order@ == OrderView::Respond(line@),
        order matches ControlOrder::WriteDpi { target, dpi } ==> order@ == OrderView::WriteDpi(
            target@,
            dpi,
        ),
        plan matches DpiPlan::Ask(line) ==> plan@ == PlanView::Ask(line@),
        plan matches DpiPlan::Exit(outcome) ==> plan@ == PlanView::Exit(outcome@),
        plan is OpenDevice ==> plan@ is OpenDevice,
{
}

} // verus!
