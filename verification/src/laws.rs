//! Properties of the session that span several requests or components.

use vstd::prelude::*;

use crate::handler::{
    follow_up, launch_reply, next_state, reply, requested_breakpoints, stack_trace_reply,
    state_after_response, success_body, Outgoing,
};
use crate::json::{member_value, spec_get, JsonValue};
use crate::log_channel::{handed_one_more, is_console_line, LogSender};
use crate::launch::spec_port_from_args;
use crate::json_text::{escape_text, lemma_unescape_escape, unescape};
use crate::number::{all_digits, decimal, digits_value, lemma_decimal_denotes, lemma_parse_decimal_u16};
use crate::sandbox::{log_request_json, step_line};
use crate::protocol::{
    Command, Event, LaunchRequestArguments, OutputEventCategory, Request, ResponseBody, SetBreakpointsArguments, Source,
    SourceView, StackTraceArguments,
};
use crate::state::{DapState, DEFAULT_PORT};

verus! {

/// `o` is the response to `req`, successful exactly when the command is supported.
pub open spec fn answers(o: Outgoing, req: Request) -> bool {
    &&& o matches Outgoing::Respond(r)
    &&& r.request_seq == req.seq
    &&& r.success == !(req.command is Unsupported)
}

/// Every request gets exactly one response, numbered after the request; the
/// response succeeds exactly when the command is supported.
pub proof fn lemma_every_request_answered(s: DapState, req: Request, out: Seq<Outgoing>)
    requires
        reply(s, req, out),
    ensures
        exists|i: int|
            0 <= i < out.len() && answers(#[trigger] out[i], req) && forall|j: int|
                0 <= j < out.len() && j != i ==> !(#[trigger] out[j] is Respond),
{
    match req.command {
        Command::Launch(args) => {
            if out.len() == 2 {
                assert(answers(out[1], req));
            } else {
                assert(answers(out[0], req));
            }
        },
        _ => {
            assert(answers(out[0], req));
        },
    }
}

/// What follows a sent response never holds another response.
pub proof fn lemma_follow_up_sends_no_response(s: DapState, cmd: Command, out: Seq<Outgoing>)
    requires
        follow_up(s, cmd, out),
    ensures
        forall|i: int| 0 <= i < out.len() ==> !(#[trigger] out[i] is Respond),
{
}

/// A `pause` whose response has not gone out leaves the session as it was:
/// handling the request alone changes nothing.
pub proof fn lemma_unsent_pause_changes_nothing(s: DapState, t: DapState)
    requires
        next_state(s, Command::Pause, t),
    ensures
        t == s,
{
}

/// What `setBreakpoints` stores is what a later `pause` stops at, once the
/// pause's response has been sent: with a
/// source path and at least one breakpoint, the session stops at the first
/// requested line, column 1; without breakpoints, at line 1.
pub proof fn lemma_pause_stops_at_first_breakpoint(
    s0: DapState,
    args: SetBreakpointsArguments,
    s1: DapState,
    s2: DapState,
)
    requires
        next_state(s0, Command::SetBreakpoints(args), s1),
        state_after_response(s1, Command::Pause, s2),
        args.source.path is Some,
    ensures
        s2.stopped_line == (if requested_breakpoints(args).len() > 0 {
            requested_breakpoints(args)[0].line
        } else {
            1
        }),
        s2.stopped_column == 1,
{
    let p = args.source.path.unwrap();
    let src = s1.current_source.unwrap();
    assert(src@.path == Some(p@));
    assert(src.path is Some);
    assert(src.path.unwrap()@ == p@);
    assert(s1.breakpoints_by_path@.contains_key(p@));
}

/// `o` is a stack trace answering request `seq` whose frame shows a stop at
/// `line`, column 1, in `source`.
pub open spec fn shows_stop_at(o: Outgoing, seq: i64, line: i64, source: SourceView) -> bool {
    &&& success_body(o, seq) matches Some(ResponseBody::StackTrace(trace))
    &&& trace.stack_frames@[0].line == line
    &&& trace.stack_frames@[0].column == 1
    &&& trace.stack_frames@[0].source matches Some(src)
    &&& src@ == source
}

/// After `setBreakpoints` and `pause`, a stack trace shows the stop at the
/// first requested line of the source the breakpoints were set in.
pub proof fn lemma_stack_trace_shows_breakpoint(
    s0: DapState,
    args: SetBreakpointsArguments,
    s1: DapState,
    s2: DapState,
    seq: i64,
    out: Seq<Outgoing>,
)
    requires
        next_state(s0, Command::SetBreakpoints(args), s1),
        state_after_response(s1, Command::Pause, s2),
        args.source.path is Some,
        requested_breakpoints(args).len() > 0,
        stack_trace_reply(s2, seq, out),
    ensures
        shows_stop_at(out[0], seq, requested_breakpoints(args)[0].line, args.source@),
{
    lemma_pause_stops_at_first_breakpoint(s0, args, s1, s2);
}

/// The launch arguments are an object whose keys are all different and whose
/// member number `at` is `"args": ["--port", "<p in decimal>", ...]`.
pub open spec fn names_port(args: LaunchRequestArguments, at: int, p: u16) -> bool {
    &&& args.additional_data matches Some(JsonValue::Object(entries))
    &&& distinct_keys(entries@)
    &&& 0 <= at < entries@.len()
    &&& entries@[at].0@ == "args"@
    &&& entries@[at].1 matches JsonValue::Array(items)
    &&& items@.len() >= 2
    &&& items@[0] matches JsonValue::Str(flag)
    &&& flag@ == "--port"@
    &&& items@[1] matches JsonValue::Str(text)
    &&& text@ == decimal(p as nat)
}

/// A `launch` request that names a port in decimal after `--port`, in its
/// `args` member wherever that member stands, makes the session record that
/// port, and, when the sandbox endpoint is not serving yet, start it there.
pub proof fn lemma_launch_uses_named_port(
    s0: DapState,
    args: LaunchRequestArguments,
    at: int,
    p: u16,
    s1: DapState,
    seq: i64,
    out: Seq<Outgoing>,
)
    requires
        names_port(args, at, p),
        next_state(s0, Command::Launch(args), s1),
        launch_reply(s0, seq, args, out),
        !s0.is_running,
    ensures
        s1.port == Some(p),
        out[0] == (Outgoing::StartHttpServer { port: p, main_thread_id: s0.main_thread_id }),
{
    lemma_parse_decimal_u16(p);
    let data = args.additional_data.unwrap();
    lemma_get_finds_member_anywhere(data, at);
    assert(spec_port_from_args(args) == Some(p));
}

/// The sandbox endpoint is started at most once: once it serves, a `launch`
/// request only gets its response.
pub proof fn lemma_server_started_once(
    s: DapState,
    args: LaunchRequestArguments,
    seq: i64,
    out: Seq<Outgoing>,
)
    requires
        s.is_running,
        launch_reply(s, seq, args, out),
    ensures
        forall|i: int| 0 <= i < out.len() ==> !(#[trigger] out[i] is StartHttpServer),
{
}

/// The answer to a `stackTrace` request, and the state after it, do not
/// depend on its arguments: whatever thread, first frame or number of levels
/// it asks for, the one frame at the stop location comes back.
pub proof fn lemma_stack_trace_ignores_arguments(
    s: DapState,
    seq: i64,
    a1: StackTraceArguments,
    a2: StackTraceArguments,
    out: Seq<Outgoing>,
    t: DapState,
)
    ensures
        reply(s, Request { seq, command: Command::StackTrace(a1) }, out) == reply(
            s,
            Request { seq, command: Command::StackTrace(a2) },
            out,
        ),
        next_state(s, Command::StackTrace(a1), t) == next_state(s, Command::StackTrace(a2), t),
{
}

/// The value of an optional source.
pub open spec fn opt_source_view(src: Option<Source>) -> Option<SourceView> {
    match src {
        Some(x) => Some(x@),
        None => None,
    }
}

/// Two answers to `setBreakpoints` report the same breakpoints: the same
/// numbers, lines, columns and sources, in the same order.
pub open spec fn same_breakpoint_reports(o1: Outgoing, o2: Outgoing, seq: i64) -> bool {
    &&& success_body(o1, seq) matches Some(ResponseBody::SetBreakpoints(b1))
    &&& success_body(o2, seq) matches Some(ResponseBody::SetBreakpoints(b2))
    &&& b1@.len() == b2@.len()
    &&& forall|i: int|
        0 <= i < b1@.len() ==> {
            &&& (#[trigger] b1@[i]).id == b2@[i].id
            &&& b1@[i].verified == b2@[i].verified
            &&& b1@[i].line == b2@[i].line
            &&& b1@[i].column == b2@[i].column
            &&& opt_source_view(b1@[i].source) == opt_source_view(b2@[i].source)
        }
}

/// Repeating an identical `setBreakpoints` request changes nothing: the
/// second leaves the same breakpoints, current source and everything else as
/// the first did, and both get the same report (numbered from 1 each time).
pub proof fn lemma_set_breakpoints_repeatable(
    s0: DapState,
    args: SetBreakpointsArguments,
    seq: i64,
    s1: DapState,
    out1: Seq<Outgoing>,
    s2: DapState,
    out2: Seq<Outgoing>,
)
    requires
        next_state(s0, Command::SetBreakpoints(args), s1),
        reply(s0, Request { seq, command: Command::SetBreakpoints(args) }, out1),
        next_state(s1, Command::SetBreakpoints(args), s2),
        reply(s1, Request { seq, command: Command::SetBreakpoints(args) }, out2),
    ensures
        s2.breakpoints_by_path@ == s1.breakpoints_by_path@,
        opt_source_view(s2.current_source) == opt_source_view(s1.current_source),
        s2 == (DapState {
            current_source: s2.current_source,
            breakpoints_by_path: s2.breakpoints_by_path,
            ..s1
        }),
        same_breakpoint_reports(out1[0], out2[0], seq),
{
    match args.source.path {
        Some(p) => {
            assert(s2.breakpoints_by_path@ =~= s1.breakpoints_by_path@);
        },
        None => {},
    }
}

/// The body the sandbox posts for a log line is the JSON object
/// `{"message": ...}` whose string, read back under JSON's escape rules, is
/// the line itself.
pub proof fn lemma_log_body_reads_back(message: Seq<char>)
    ensures
        log_request_json(message) == "{\"message\":\""@ + escape_text(message) + "\"}"@,
        unescape(escape_text(message)) == Some(message),
{
    reveal_strlit("{\"message\":\"");
    reveal_strlit("{\"message\":");
    reveal_strlit("\"}");
    reveal_strlit("}");
    lemma_unescape_escape(message);
    assert(log_request_json(message) =~= "{\"message\":\""@ + escape_text(message) + "\"}"@);
}

/// The sandbox's default endpoint is the adapter's endpoint on its default port.
pub proof fn lemma_sandbox_targets_default_port()
    ensures
        "http://localhost:9229"@ == "http://localhost:"@ + decimal(DEFAULT_PORT as nat),
{
    reveal_strlit("http://localhost:9229");
    reveal_strlit("http://localhost:");
    assert(decimal(9) == seq!['9']);
    assert(decimal(92) == seq!['9', '2']);
    assert(decimal(922) == seq!['9', '2', '2']);
    assert(decimal(9229) == seq!['9', '2', '2', '9']);
    assert("http://localhost:9229"@ =~= "http://localhost:"@ + decimal(DEFAULT_PORT as nat));
}

/// A log line shows in the debug console as a console `output` event whose
/// text is the whole line, every character of it, followed by one newline.
pub proof fn lemma_console_line_keeps_whole_line(e: Event, message: Seq<char>)
    requires
        is_console_line(e, message),
    ensures
        e matches Event::Output(body) && body.category == Some(OutputEventCategory::Console)
            && body.output@.len() == message.len() + 1
            && (forall|i: int| 0 <= i < message.len() ==> body.output@[i] == message[i])
            && body.output@[message.len() as int] == '\n',
{
    reveal_strlit("\n");
}

/// Two lines logged one after the other are recorded as handed to the
/// channel once each, in the order in which they were logged.
pub proof fn lemma_log_lines_in_order(
    first: LogSender,
    second: LogSender,
    third: LogSender,
    line1: Seq<char>,
    line2: Seq<char>,
)
    requires
        handed_one_more(first, second, line1),
        handed_one_more(second, third, line2),
    ensures
        third.handed_lines() == first.handed_lines() + seq![line1, line2],
        third.channel() == first.channel(),
{
    assert(third.handed_lines() =~= first.handed_lines() + seq![line1, line2]);
}

/// A step's log line is `[Sandbox Rpc] [PC: `, then digits that read back as
/// the program counter itself, then `]`.
pub proof fn lemma_step_line_names_pc(pc: u32)
    ensures
        ({
            let line = step_line(pc);
            let prefix = "[Sandbox Rpc] [PC: "@;
            let digits = line.subrange(prefix.len() as int, line.len() - 1);
            &&& line.len() >= prefix.len() + 2
            &&& line.take(prefix.len() as int) == prefix
            &&& line.last() == ']'
            &&& all_digits(digits)
            &&& digits_value(digits) == pc
        }),
{
    reveal_strlit("[Sandbox Rpc] [PC: ");
    reveal_strlit("]");
    lemma_decimal_denotes(pc as nat);
    let line = step_line(pc);
    let prefix = "[Sandbox Rpc] [PC: "@;
    assert(line.take(prefix.len() as int) =~= prefix);
    assert(line.subrange(prefix.len() as int, line.len() - 1) =~= decimal(pc as nat));
}

/// The members of an object name each key at most once, as in an object that
/// came off the wire.
pub open spec fn distinct_keys(entries: Seq<(String, JsonValue)>) -> bool {
    forall|j: int, k: int| 0 <= j < k < entries.len() ==> entries[j].0@ != entries[k].0@
}

/// In an object whose keys are all different, looking up the key of any
/// member finds that member's value, wherever the member stands.
pub proof fn lemma_get_finds_member_anywhere(value: JsonValue, i: int)
    requires
        value matches JsonValue::Object(entries) && distinct_keys(entries@) && 0 <= i
            < entries@.len(),
    ensures
        value matches JsonValue::Object(entries) && spec_get(value, entries@[i].0@) == Some(
            entries@[i].1,
        ),
{
    if let JsonValue::Object(entries) = value {
        lemma_member_found(entries@, i);
    }
}

/// The member at position `i` of members with distinct keys is found by its key.
proof fn lemma_member_found(entries: Seq<(String, JsonValue)>, i: int)
    requires
        distinct_keys(entries),
        0 <= i < entries.len(),
    ensures
        member_value(entries, entries[i].0@) == Some(entries[i].1),
    decreases i,
{
    if i > 0 {
        let rest = entries.drop_first();
        assert(rest[i - 1] == entries[i]);
        assert(distinct_keys(rest)) by {
            assert forall|j: int, k: int| 0 <= j < k < rest.len() implies rest[j].0@ != rest[k].0@ by {
                assert(rest[j] == entries[j + 1]);
                assert(rest[k] == entries[k + 1]);
            }
        }
        lemma_member_found(rest, i - 1);
    }
}

/// Looking up a key that no member of an object has finds nothing.
pub proof fn lemma_get_misses_absent_key(value: JsonValue, key: Seq<char>)
    requires
        value matches JsonValue::Object(entries) && forall|j: int|
            0 <= j < entries@.len() ==> (#[trigger] entries@[j]).0@ != key,
    ensures
        spec_get(value, key) is None,
{
    if let JsonValue::Object(entries) = value {
        lemma_member_absent(entries@, key);
    }
}

/// Members none of which has `key` hold no value under it.
proof fn lemma_member_absent(entries: Seq<(String, JsonValue)>, key: Seq<char>)
    requires
        forall|j: int| 0 <= j < entries.len() ==> (#[trigger] entries[j]).0@ != key,
    ensures
        member_value(entries, key) is None,
    decreases entries.len(),
{
    if entries.len() > 0 {
        let rest = entries.drop_first();
        assert forall|j: int| 0 <= j < rest.len() implies (#[trigger] rest[j]).0@ != key by {
            assert(rest[j] == entries[j + 1]);
        }
        assert(entries[0].0@ != key);
        lemma_member_absent(rest, key);
    }
}

/// With no current source, the one frame of a stack trace shows a source
/// called `unknown` that carries nothing else: no path and no source
/// reference, so the client is never pointed at content it could fetch.
pub proof fn lemma_stack_trace_without_source_shows_unknown(s: DapState, seq: i64, out: Seq<Outgoing>)
    requires
        s.current_source is None,
        stack_trace_reply(s, seq, out),
    ensures
        success_body(out[0], seq) matches Some(ResponseBody::StackTrace(trace))
            && trace.stack_frames@[0].source matches Some(src)
            && src.name matches Some(name) && name@ == "unknown"@
            && src.path is None
            && src.source_reference is None
            && src.presentation_hint is None
            && src.origin is None
            && src.sources_json is None
            && src.adapter_data_json is None
            && src.checksums is None,
{
}

} // verus!
