//! Answering the client's requests: from the session state and a request to
//! the next state and the messages to send, in order.

use vstd::prelude::*;

use crate::launch::{extract_port_from_args, spec_port_from_args};
use crate::protocol::{
    unknown_source, Breakpoint, Capabilities, Command, ContinueResponse, ContinuedEventBody, Event,
    LaunchRequestArguments, Request, Response, ResponseBody, ResponseMessage, Scope,
    SetBreakpointsArguments, Source, SourceBreakpoint, SourceView, StackFrame, StackTraceResponse,
    StoppedEventBody, StoppedEventReason, Thread, Variable,
};
use crate::state::{spec_server_to_start, stop_line, DapState};

verus! {

/// What the adapter does in answer to a request, in the order given.
#[derive(Debug)]
pub enum Outgoing {
    /// Send a response to the client.
    Respond(Response),
    /// Send an event to the client.
    Send(Event),
    /// Start the sandbox endpoint on `DEFAULT_ADDRESS:port`, serving `/log`
    /// and `/pause`; the latter stops thread `main_thread_id`. When it
    /// serves, the session is to be told with `mark_server_running`.
    StartHttpServer { port: u16, main_thread_id: i64 },
}

/// The body of `o` when it is a successful response to request `seq`.
pub open spec fn success_body(o: Outgoing, seq: i64) -> Option<ResponseBody> {
    match o {
        Outgoing::Respond(r) => if r.request_seq == seq && r.success && r.message is None {
            r.body
        } else {
            None
        },
        _ => None,
    }
}

/// The capabilities the adapter announces: configuration-done requests, and
/// none of the other announced features.
pub open spec fn announced_capabilities() -> Capabilities {
    Capabilities {
        supports_configuration_done_request: Some(true),
        supports_set_variable: Some(false),
        supports_step_back: Some(false),
        supports_restart_frame: Some(false),
        supports_goto_targets_request: Some(false),
        supports_conditional_breakpoints: Some(false),
        supports_hit_conditional_breakpoints: Some(false),
        supports_terminate_request: Some(false),
        supports_evaluate_for_hovers: Some(false),
    }
}

/// The answer is exactly one successful response with `body`.
pub open spec fn plain_reply(seq: i64, out: Seq<Outgoing>, body: ResponseBody) -> bool {
    out.len() == 1 && success_body(out[0], seq) == Some(body)
}

/// `initialize`: the capabilities.
pub open spec fn initialize_reply(seq: i64, out: Seq<Outgoing>) -> bool {
    plain_reply(seq, out, ResponseBody::Initialize(announced_capabilities()))
}

/// `launch`: the sandbox endpoint is started first if it is not serving yet,
/// on the port the request names or the default one; then the response.
pub open spec fn launch_reply(
    s: DapState,
    seq: i64,
    args: LaunchRequestArguments,
    out: Seq<Outgoing>,
) -> bool {
    match spec_server_to_start(DapState { port: spec_port_from_args(args), ..s }) {
        Some(port) => {
            &&& out.len() == 2
            &&& out[0] == Outgoing::StartHttpServer { port, main_thread_id: s.main_thread_id }
            &&& success_body(out[1], seq) == Some(ResponseBody::Launch)
        },
        None => plain_reply(seq, out, ResponseBody::Launch),
    }
}

/// The breakpoints a `setBreakpoints` request asks for.
pub open spec fn requested_breakpoints(args: SetBreakpointsArguments) -> Seq<SourceBreakpoint> {
    match args.breakpoints {
        Some(v) => v@,
        None => seq![],
    }
}

/// The lines of the breakpoints a `setBreakpoints` request asks for.
pub open spec fn requested_lines(args: SetBreakpointsArguments) -> Seq<i64> {
    requested_breakpoints(args).map_values(|b: SourceBreakpoint| b.line)
}

/// `b` reports the `i`-th requested breakpoint `asked` in `source`: it is
/// numbered `i + 1`, verified, and at the line and column asked for.
pub open spec fn reports_breakpoint(
    b: Breakpoint,
    i: int,
    asked: SourceBreakpoint,
    source: SourceView,
) -> bool {
    &&& b.id == Some((i + 1) as i64)
    &&& b.verified
    &&& b.message is None
    &&& b.source matches Some(s)
    &&& s@ == source
    &&& b.line == Some(asked.line)
    &&& b.column == asked.column
    &&& b.end_line is None
    &&& b.end_column is None
    &&& b.instruction_reference is None
    &&& b.offset is None
}

/// `setBreakpoints`: one reported breakpoint per requested one, in order.
pub open spec fn set_breakpoints_reply(
    seq: i64,
    args: SetBreakpointsArguments,
    out: Seq<Outgoing>,
) -> bool {
    &&& out.len() == 1
    &&& success_body(out[0], seq) matches Some(ResponseBody::SetBreakpoints(bps))
    &&& bps@.len() == requested_breakpoints(args).len()
    &&& forall|i: int|
        0 <= i < bps@.len() ==> reports_breakpoint(
            #[trigger] bps@[i],
            i,
            requested_breakpoints(args)[i],
            args.source@,
        )
}

/// `threads`: the one thread, `Main Thread`.
pub open spec fn threads_reply(s: DapState, seq: i64, out: Seq<Outgoing>) -> bool {
    &&& out.len() == 1
    &&& success_body(out[0], seq) matches Some(ResponseBody::Threads(ts))
    &&& ts@.len() == 1
    &&& ts@[0].id == s.main_thread_id
    &&& ts@[0].name@ == "Main Thread"@
}

/// `e` reports that all threads stopped on a pause, shown on `thread_id`.
pub open spec fn is_pause_stop(e: Event, thread_id: i64) -> bool {
    &&& e matches Event::Stopped(body)
    &&& body.reason == StoppedEventReason::Pause
    &&& body.description matches Some(d)
    &&& d@ == "Paused"@
    &&& body.thread_id == Some(thread_id)
    &&& body.preserve_focus_hint == Some(false)
    &&& body.text is None
    &&& body.all_threads_stopped == Some(true)
    &&& body.hit_breakpoint_ids is None
}

/// `continue`: the response, for all threads.
pub open spec fn continue_reply(seq: i64, out: Seq<Outgoing>) -> bool {
    plain_reply(
        seq,
        out,
        ResponseBody::Continue(ContinueResponse { all_threads_continued: Some(true) }),
    )
}

/// The source a stack frame shows: the current one, or `unknown`.
pub open spec fn frame_source(s: DapState) -> SourceView {
    match s.current_source {
        Some(src) => src@,
        None => unknown_source(),
    }
}

/// `f` is the one frame, `main`, at the stop location in the frame source.
pub open spec fn is_stop_frame(f: StackFrame, s: DapState) -> bool {
    &&& f.id == 1
    &&& f.name@ == "main"@
    &&& f.source matches Some(src)
    &&& src@ == frame_source(s)
    &&& f.line == s.stopped_line
    &&& f.column == s.stopped_column
    &&& f.end_line is None
    &&& f.end_column is None
    &&& f.can_restart is None
    &&& f.instruction_pointer_reference is None
}

/// `stackTrace`: one frame, at the stop location.
pub open spec fn stack_trace_reply(s: DapState, seq: i64, out: Seq<Outgoing>) -> bool {
    &&& out.len() == 1
    &&& success_body(out[0], seq) matches Some(ResponseBody::StackTrace(trace))
    &&& trace.total_frames == Some(1i64)
    &&& trace.stack_frames@.len() == 1
    &&& is_stop_frame(trace.stack_frames@[0], s)
}

/// `scopes`: the one scope, `Locals`, under the session's variables reference.
pub open spec fn scopes_reply(s: DapState, seq: i64, out: Seq<Outgoing>) -> bool {
    &&& out.len() == 1
    &&& success_body(out[0], seq) matches Some(ResponseBody::Scopes(scopes))
    &&& scopes@.len() == 1
    &&& scopes@[0].name@ == "Locals"@
    &&& scopes@[0].variables_reference == s.vars_ref
    &&& scopes@[0].named_variables is None
    &&& scopes@[0].indexed_variables is None
    &&& !scopes@[0].expensive
    &&& scopes@[0].source is None
    &&& scopes@[0].line is None
    &&& scopes@[0].column is None
    &&& scopes@[0].end_line is None
    &&& scopes@[0].end_column is None
}

/// `variables`: the one variable, `demo`, an `i32` of value `1`.
pub open spec fn variables_reply(seq: i64, out: Seq<Outgoing>) -> bool {
    &&& out.len() == 1
    &&& success_body(out[0], seq) matches Some(ResponseBody::Variables(vars))
    &&& vars@.len() == 1
    &&& vars@[0].name@ == "demo"@
    &&& vars@[0].value@ == "1"@
    &&& vars@[0].type_field matches Some(t)
    &&& t@ == "i32"@
    &&& vars@[0].evaluate_name matches Some(e)
    &&& e@ == "demo"@
    &&& vars@[0].variables_reference == 0
    &&& vars@[0].named_variables is None
    &&& vars@[0].indexed_variables is None
    &&& vars@[0].memory_reference is None
}

/// Any other command: one failed response that names the command.
pub open spec fn unsupported_reply(seq: i64, rendering: String, out: Seq<Outgoing>) -> bool {
    &&& out.len() == 1
    &&& out[0] matches Outgoing::Respond(r)
    &&& r.request_seq == seq
    &&& !r.success
    &&& r.body is None
    &&& r.message matches Some(ResponseMessage::Error(m))
    &&& m@ == "Unsupported command: "@ + rendering@
}

/// The messages the adapter sends, in order, in answer to `req` in state `s`.
pub open spec fn reply(s: DapState, req: Request, out: Seq<Outgoing>) -> bool {
    let seq: i64 = req.seq;
    match req.command {
        Command::Initialize => initialize_reply(seq, out),
        Command::Launch(args) => launch_reply(s, seq, args, out),
        Command::Restart => plain_reply(seq, out, ResponseBody::Restart),
        Command::Attach => plain_reply(seq, out, ResponseBody::Attach),
        Command::ConfigurationDone => plain_reply(seq, out, ResponseBody::ConfigurationDone),
        Command::SetBreakpoints(args) => set_breakpoints_reply(seq, args, out),
        Command::SetExceptionBreakpoints => plain_reply(
            seq,
            out,
            ResponseBody::SetExceptionBreakpoints,
        ),
        Command::Threads => threads_reply(s, seq, out),
        Command::Pause => plain_reply(seq, out, ResponseBody::Pause),
        Command::Continue => continue_reply(seq, out),
        Command::StackTrace(_) => stack_trace_reply(s, seq, out),
        Command::Scopes => scopes_reply(s, seq, out),
        Command::Variables => variables_reply(seq, out),
        Command::Disconnect => plain_reply(seq, out, ResponseBody::Disconnect),
        Command::Unsupported(rendering) => unsupported_reply(seq, rendering, out),
    }
}

/// The state after `setBreakpoints`: the source becomes the current one and,
/// when it has a path, the requested lines replace that path's lines.
pub open spec fn after_set_breakpoints(s: DapState, args: SetBreakpointsArguments, t: DapState) -> bool {
    &&& t.current_source matches Some(src)
    &&& src@ == args.source@
    &&& t.breakpoints_by_path@ == match args.source.path {
        Some(p) => s.breakpoints_by_path@.insert(p@, requested_lines(args)),
        None => s.breakpoints_by_path@,
    }
    &&& t == DapState {
        current_source: t.current_source,
        breakpoints_by_path: t.breakpoints_by_path,
        ..s
    }
}

/// How handling `cmd` moves the session from `s` to `t`, up to its response:
/// `launch` records the port it names, `setBreakpoints` records the
/// breakpoints; nothing else changes the state before the response is sent.
pub open spec fn next_state(s: DapState, cmd: Command, t: DapState) -> bool {
    match cmd {
        Command::Launch(args) => t == DapState { port: spec_port_from_args(args), ..s },
        Command::SetBreakpoints(args) => after_set_breakpoints(s, args, t),
        _ => t == s,
    }
}

/// How the session moves from `s` to `t` once the response to `cmd` has been
/// sent: after a `pause` response, the stop location moves; nothing else changes.
pub open spec fn state_after_response(s: DapState, cmd: Command, t: DapState) -> bool {
    match cmd {
        Command::Pause => t == DapState { stopped_line: stop_line(s), stopped_column: 1, ..s },
        _ => t == s,
    }
}

/// What follows a sent response to `cmd` in state `s`: the `initialized`
/// event after `initialize`, the `stopped` event after `pause`, the
/// `continued` event (for all threads) after `continue`; nothing otherwise.
pub open spec fn follow_up(s: DapState, cmd: Command, out: Seq<Outgoing>) -> bool {
    match cmd {
        Command::Initialize => out == seq![Outgoing::Send(Event::Initialized)],
        Command::Pause => {
            &&& out.len() == 1
            &&& out[0] matches Outgoing::Send(e)
            &&& is_pause_stop(e, s.main_thread_id)
        },
        Command::Continue => out == seq![
            Outgoing::Send(
                Event::Continued(
                    ContinuedEventBody {
                        thread_id: s.main_thread_id,
                        all_threads_continued: Some(true),
                    },
                ),
            ),
        ],
        _ => out.len() == 0,
    }
}

/// Whether a request can be handled on this machine: the breakpoint numbers
/// of a `setBreakpoints` answer must fit in an `i64`.
pub open spec fn handleable(req: Request) -> bool {
    req.command matches Command::SetBreakpoints(args) ==> requested_breakpoints(args).len()
        < i64::MAX
}

/// A list holding one message.
fn single(o: Outgoing) -> (out: Vec<Outgoing>)
    ensures
        out@ == seq![o],
{
    let mut out: Vec<Outgoing> = Vec::new();
    out.push(o);
    out
}

/// A list holding two messages.
fn pair(first: Outgoing, second: Outgoing) -> (out: Vec<Outgoing>)
    ensures
        out@ == seq![first, second],
{
    let mut out: Vec<Outgoing> = Vec::new();
    out.push(first);
    out.push(second);
    out
}

/// A successful response to request `seq` with `body`.
fn respond(seq: i64, body: ResponseBody) -> (o: Outgoing)
    ensures
        success_body(o, seq) == Some(body),
        o is Respond,
{
    Outgoing::Respond(Response::success(seq, body))
}

/// The `stopped` event sent when the client pauses, or the sandbox asks for a
/// pause: all threads stopped, shown on `thread_id`.
pub fn pause_stopped_event(thread_id: i64) -> (e: Event)
    ensures
        is_pause_stop(e, thread_id),
{
    Event::Stopped(
        StoppedEventBody {
            reason: StoppedEventReason::Pause,
            description: Some(String::from_str("Paused")),
            thread_id: Some(thread_id),
            preserve_focus_hint: Some(false),
            text: None,
            all_threads_stopped: Some(true),
            hit_breakpoint_ids: None,
        },
    )
}

impl DapState {
    fn handle_initialize(&self, seq: i64) -> (out: Vec<Outgoing>)
        ensures
            initialize_reply(seq, out@),
    {
        let caps = Capabilities {
            supports_configuration_done_request: Some(true),
            supports_set_variable: Some(false),
            supports_step_back: Some(false),
            supports_restart_frame: Some(false),
            supports_goto_targets_request: Some(false),
            supports_conditional_breakpoints: Some(false),
            supports_hit_conditional_breakpoints: Some(false),
            supports_terminate_request: Some(false),
            supports_evaluate_for_hovers: Some(false),
        };
        single(respond(seq, ResponseBody::Initialize(caps)))
    }

    fn handle_launch(&mut self, seq: i64, args: &LaunchRequestArguments) -> (out: Vec<Outgoing>)
        ensures
            *final(self) == (DapState { port: spec_port_from_args(*args), ..*old(self) }),
            launch_reply(*old(self), seq, *args, out@),
    {
        let port = extract_port_from_args(args);
        self.port = port;
        match self.server_to_start() {
            Some(bind_port) => pair(
                Outgoing::StartHttpServer { port: bind_port, main_thread_id: self.main_thread_id },
                respond(seq, ResponseBody::Launch),
            ),
            None => single(respond(seq, ResponseBody::Launch)),
        }
    }

    fn handle_set_breakpoints(&mut self, seq: i64, args: &SetBreakpointsArguments) -> (out: Vec<
        Outgoing,
    >)
        requires
            requested_breakpoints(*args).len() < i64::MAX,
        ensures
            after_set_breakpoints(*old(self), *args, *final(self)),
            set_breakpoints_reply(seq, *args, out@),
    {
        self.current_source = Some(args.source.duplicate());
        let ghost requested = requested_breakpoints(*args);
        if let Some(path) = &args.source.path {
            let mut lines: Vec<i64> = Vec::new();
            if let Some(asked) = &args.breakpoints {
                let mut i: usize = 0;
                while i < asked.len()
                    invariant
                        i <= asked@.len(),
                        requested == asked@,
                        lines@ == requested.map_values(|b: SourceBreakpoint| b.line).take(i as int),
                    decreases asked@.len() - i,
                {
                    lines.push(asked[i].line);
                    assert(requested.map_values(|b: SourceBreakpoint| b.line).take(i + 1)
                        =~= requested.map_values(|b: SourceBreakpoint| b.line).take(i as int).push(
                        asked@[i as int].line,
                    ));
                    i = i + 1;
                }
                assert(requested.map_values(|b: SourceBreakpoint| b.line).take(asked@.len() as int)
                    =~= requested.map_values(|b: SourceBreakpoint| b.line));
            } else {
                assert(lines@ =~= requested_lines(*args));
            }
            self.breakpoints_by_path.insert(path.clone(), lines);
        }
        let mut breakpoints: Vec<Breakpoint> = Vec::new();
        if let Some(asked) = &args.breakpoints {
            let mut i: usize = 0;
            while i < asked.len()
                invariant
                    i <= asked@.len(),
                    requested == asked@,
                    requested.len() < i64::MAX,
                    breakpoints@.len() == i,
                    forall|j: int|
                        0 <= j < i ==> reports_breakpoint(
                            #[trigger] breakpoints@[j],
                            j,
                            requested[j],
                            args.source@,
                        ),
                decreases asked@.len() - i,
            {
                let id: i64 = i as i64 + 1;
                breakpoints.push(
                    Breakpoint {
                        id: Some(id),
                        verified: true,
                        message: None,
                        source: Some(args.source.duplicate()),
                        line: Some(asked[i].line),
                        column: asked[i].column,
                        end_line: None,
                        end_column: None,
                        instruction_reference: None,
                        offset: None,
                    },
                );
                i = i + 1;
            }
        }
        single(respond(seq, ResponseBody::SetBreakpoints(breakpoints)))
    }

    fn handle_threads(&self, seq: i64) -> (out: Vec<Outgoing>)
        ensures
            threads_reply(*self, seq, out@),
    {
        let mut threads: Vec<Thread> = Vec::new();
        threads.push(Thread { id: self.main_thread_id, name: String::from_str("Main Thread") });
        single(respond(seq, ResponseBody::Threads(threads)))
    }

    /// What follows the sent response to `req`: for `pause`, the stop
    /// location moves and the `stopped` event goes out; `initialize` and
    /// `continue` are followed by their events. Called only once the response
    /// has been sent, so a response that fails to go out changes nothing.
    pub fn on_response_sent(&mut self, req: &Request) -> (out: Vec<Outgoing>)
        ensures
            state_after_response(*old(self), req.command, *final(self)),
            follow_up(*old(self), req.command, out@),
    {
        match &req.command {
            Command::Initialize => single(Outgoing::Send(Event::Initialized)),
            Command::Pause => {
                self.pick_stop_location();
                single(Outgoing::Send(pause_stopped_event(self.main_thread_id)))
            },
            Command::Continue => single(
                Outgoing::Send(
                    Event::Continued(
                        ContinuedEventBody {
                            thread_id: self.main_thread_id,
                            all_threads_continued: Some(true),
                        },
                    ),
                ),
            ),
            _ => Vec::new(),
        }
    }

    fn handle_stack_trace(&self, seq: i64) -> (out: Vec<Outgoing>)
        ensures
            stack_trace_reply(*self, seq, out@),
    {
        let source = match &self.current_source {
            Some(src) => src.duplicate(),
            None => Source::unknown(),
        };
        let mut frames: Vec<StackFrame> = Vec::new();
        frames.push(
            StackFrame {
                id: 1,
                name: String::from_str("main"),
                source: Some(source),
                line: self.stopped_line,
                column: self.stopped_column,
                end_line: None,
                end_column: None,
                can_restart: None,
                instruction_pointer_reference: None,
            },
        );
        single(
            respond(
                seq,
                ResponseBody::StackTrace(
                    StackTraceResponse { stack_frames: frames, total_frames: Some(1) },
                ),
            ),
        )
    }

    fn handle_scopes(&self, seq: i64) -> (out: Vec<Outgoing>)
        ensures
            scopes_reply(*self, seq, out@),
    {
        let mut scopes: Vec<Scope> = Vec::new();
        scopes.push(
            Scope {
                name: String::from_str("Locals"),
                variables_reference: self.vars_ref,
                named_variables: None,
                indexed_variables: None,
                expensive: false,
                source: None,
                line: None,
                column: None,
                end_line: None,
                end_column: None,
            },
        );
        single(respond(seq, ResponseBody::Scopes(scopes)))
    }

    fn handle_variables(&self, seq: i64) -> (out: Vec<Outgoing>)
        ensures
            variables_reply(seq, out@),
    {
        let mut variables: Vec<Variable> = Vec::new();
        variables.push(
            Variable {
                name: String::from_str("demo"),
                value: String::from_str("1"),
                type_field: Some(String::from_str("i32")),
                evaluate_name: Some(String::from_str("demo")),
                variables_reference: 0,
                named_variables: None,
                indexed_variables: None,
                memory_reference: None,
            },
        );
        single(respond(seq, ResponseBody::Variables(variables)))
    }

    fn handle_unsupported(&self, seq: i64, rendering: &String) -> (out: Vec<Outgoing>)
        ensures
            unsupported_reply(seq, *rendering, out@),
    {
        let mut message = String::from_str("Unsupported command: ");
        message.append(rendering.as_str());
        single(Outgoing::Respond(Response::error(seq, message)))
    }

    /// Answers one request: updates the session and gives the messages to
    /// send, in order, up to and including the response. What follows the
    /// response comes from `on_response_sent`, once the response has gone out.
    pub fn handle(&mut self, req: &Request) -> (out: Vec<Outgoing>)
        requires
            handleable(*req),
        ensures
            next_state(*old(self), req.command, *final(self)),
            reply(*old(self), *req, out@),
    {
        let seq: i64 = req.seq;
        match &req.command {
            Command::Initialize => self.handle_initialize(seq),
            Command::Launch(args) => self.handle_launch(seq, args),
            Command::Restart => single(respond(seq, ResponseBody::Restart)),
            Command::Attach => single(respond(seq, ResponseBody::Attach)),
            Command::ConfigurationDone => single(respond(seq, ResponseBody::ConfigurationDone)),
            Command::SetBreakpoints(args) => self.handle_set_breakpoints(seq, args),
            Command::SetExceptionBreakpoints => single(
                respond(seq, ResponseBody::SetExceptionBreakpoints),
            ),
            Command::Threads => self.handle_threads(seq),
            Command::Pause => single(respond(seq, ResponseBody::Pause)),
            Command::Continue => single(
                respond(
                    seq,
                    ResponseBody::Continue(ContinueResponse { all_threads_continued: Some(true) }),
                ),
            ),
            Command::StackTrace(_) => self.handle_stack_trace(seq),
            Command::Scopes => self.handle_scopes(seq),
            Command::Variables => self.handle_variables(seq),
            Command::Disconnect => single(respond(seq, ResponseBody::Disconnect)),
            Command::Unsupported(rendering) => self.handle_unsupported(seq, rendering),
        }
    }
}

} // verus!
