use ink_dap::handler::Outgoing;
use ink_dap::json::JsonValue;
use ink_dap::protocol::{
    Command, Event, LaunchRequestArguments, Request, ResponseBody, ResponseMessage,
    SetBreakpointsArguments, Source, SourceBreakpoint, StackTraceArguments, StoppedEventReason,
    OutputEventCategory,
};
use ink_dap::state::{DapState, DEFAULT_ADDRESS, DEFAULT_PORT};

fn source(path: Option<&str>) -> Source {
    Source {
        name: Some("lib.rs".to_string()),
        path: path.map(|p| p.to_string()),
        source_reference: None,
        presentation_hint: None,
        origin: None,
        sources_json: None,
        adapter_data_json: Some("{\"k\":1}".to_string()),
        checksums: None,
    }
}

fn request(seq: i64, command: Command) -> Request {
    Request { seq, command }
}

/// Handles `req`, then (its response taken as sent) what follows the response.
fn exchange(s: &mut DapState, req: Request) -> Vec<Outgoing> {
    let mut out = s.handle(&req);
    out.extend(s.on_response_sent(&req));
    out
}

fn stack_trace() -> Command {
    Command::StackTrace(StackTraceArguments { thread_id: 1, start_frame: None, levels: None })
}

fn launch_args(items: Vec<JsonValue>) -> LaunchRequestArguments {
    LaunchRequestArguments {
        additional_data: Some(JsonValue::Object(vec![
            ("program".to_string(), JsonValue::Str("x".to_string())),
            ("args".to_string(), JsonValue::Array(items)),
        ])),
    }
}

fn port_args(port: &str) -> LaunchRequestArguments {
    launch_args(vec![JsonValue::Str("--port".to_string()), JsonValue::Str(port.to_string())])
}

fn set_breakpoints(path: Option<&str>, lines: &[i64]) -> Command {
    Command::SetBreakpoints(SetBreakpointsArguments {
        source: source(path),
        breakpoints: Some(
            lines.iter().map(|l| SourceBreakpoint { line: *l, column: Some(3) }).collect(),
        ),
    })
}

fn success_body(o: &Outgoing, seq: i64) -> &ResponseBody {
    match o {
        Outgoing::Respond(r) => {
            assert_eq!(r.request_seq, seq);
            assert!(r.success);
            assert!(r.message.is_none());
            r.body.as_ref().unwrap()
        }
        other => panic!("expected a response, got {:?}", other),
    }
}

#[test]
fn new_state_has_documented_defaults() {
    let s = DapState::new();
    assert_eq!(s.main_thread_id, 1);
    assert_eq!(s.stopped_line, 1);
    assert_eq!(s.stopped_column, 1);
    assert_eq!(s.vars_ref, 2000);
    assert!(s.port.is_none());
    assert!(!s.is_running);
    assert!(s.current_source.is_none());
    assert!(s.breakpoints_by_path.get("/a.rs").is_none());
    assert_eq!(DEFAULT_PORT, 9229);
    assert_eq!(DEFAULT_ADDRESS, "127.0.0.1");
}

#[test]
fn initialize_answers_capabilities_then_initialized() {
    let mut s = DapState::new();
    let req = request(1, Command::Initialize);
    let out = s.handle(&req);
    assert_eq!(out.len(), 1);
    match success_body(&out[0], 1) {
        ResponseBody::Initialize(c) => {
            assert_eq!(c.supports_configuration_done_request, Some(true));
            assert_eq!(c.supports_set_variable, Some(false));
            assert_eq!(c.supports_step_back, Some(false));
            assert_eq!(c.supports_restart_frame, Some(false));
            assert_eq!(c.supports_goto_targets_request, Some(false));
            assert_eq!(c.supports_conditional_breakpoints, Some(false));
            assert_eq!(c.supports_hit_conditional_breakpoints, Some(false));
            assert_eq!(c.supports_terminate_request, Some(false));
            assert_eq!(c.supports_evaluate_for_hovers, Some(false));
        }
        other => panic!("unexpected body {:?}", other),
    }
    let after = s.on_response_sent(&req);
    assert_eq!(after.len(), 1);
    assert!(matches!(after[0], Outgoing::Send(Event::Initialized)));
}

#[test]
fn launch_starts_endpoint_on_named_port() {
    let mut s = DapState::new();
    let out = s.handle(&request(2, Command::Launch(port_args("9300"))));
    assert_eq!(s.port, Some(9300));
    assert_eq!(out.len(), 2);
    match out[0] {
        Outgoing::StartHttpServer { port, main_thread_id } => {
            assert_eq!(port, 9300);
            assert_eq!(main_thread_id, 1);
        }
        _ => panic!("expected the endpoint to start"),
    }
    assert!(matches!(success_body(&out[1], 2), ResponseBody::Launch));
}

#[test]
fn launch_without_port_uses_default() {
    let mut s = DapState::new();
    let out = s.handle(&request(3, Command::Launch(LaunchRequestArguments { additional_data: None })));
    assert_eq!(s.port, None);
    assert!(matches!(out[0], Outgoing::StartHttpServer { port: 9229, .. }));
}

#[test]
fn launch_with_bad_port_uses_default() {
    for bad in ["70000", "-1", "", "+", "92a"] {
        let mut s = DapState::new();
        let out = s.handle(&request(3, Command::Launch(port_args(bad))));
        assert_eq!(s.port, None, "{}", bad);
        assert!(matches!(out[0], Outgoing::StartHttpServer { port: 9229, .. }));
    }
    let mut s = DapState::new();
    let args = launch_args(vec![JsonValue::Str("--host".to_string()), JsonValue::Str("1".to_string())]);
    s.handle(&request(4, Command::Launch(args)));
    assert_eq!(s.port, None);
    let args = launch_args(vec![JsonValue::Str("--port".to_string())]);
    s.handle(&request(5, Command::Launch(args)));
    assert_eq!(s.port, None);
}

#[test]
fn endpoint_is_started_once() {
    let mut s = DapState::new();
    let out = s.handle(&request(1, Command::Launch(port_args("+9400"))));
    assert!(matches!(out[0], Outgoing::StartHttpServer { port: 9400, .. }));
    s.mark_server_running();
    assert!(s.is_running);
    let out = s.handle(&request(2, Command::Launch(port_args("9500"))));
    assert_eq!(out.len(), 1);
    assert!(matches!(success_body(&out[0], 2), ResponseBody::Launch));
    assert_eq!(s.port, Some(9500));
    assert_eq!(s.server_to_start(), None);
}

#[test]
fn set_breakpoints_numbers_and_stores_lines() {
    let mut s = DapState::new();
    let out = s.handle(&request(7, set_breakpoints(Some("/src/lib.rs"), &[12, 30, 4])));
    assert_eq!(out.len(), 1);
    match success_body(&out[0], 7) {
        ResponseBody::SetBreakpoints(bps) => {
            assert_eq!(bps.len(), 3);
            for (i, (bp, line)) in bps.iter().zip([12, 30, 4]).enumerate() {
                assert_eq!(bp.id, Some(i as i64 + 1));
                assert!(bp.verified);
                assert_eq!(bp.line, Some(line));
                assert_eq!(bp.column, Some(3));
                assert!(bp.message.is_none());
                assert!(bp.end_line.is_none() && bp.end_column.is_none());
                assert!(bp.instruction_reference.is_none() && bp.offset.is_none());
                let src = bp.source.as_ref().unwrap();
                assert_eq!(src.path.as_deref(), Some("/src/lib.rs"));
                assert_eq!(src.adapter_data_json.as_deref(), Some("{\"k\":1}"));
            }
        }
        other => panic!("unexpected body {:?}", other),
    }
    assert_eq!(s.breakpoints_by_path.get("/src/lib.rs").unwrap(), &vec![12, 30, 4]);
    assert_eq!(s.current_source.as_ref().unwrap().path.as_deref(), Some("/src/lib.rs"));
    // a second request for the same path replaces its lines
    s.handle(&request(8, set_breakpoints(Some("/src/lib.rs"), &[5])));
    assert_eq!(s.breakpoints_by_path.get("/src/lib.rs").unwrap(), &vec![5]);
    // another path keeps its own
    s.handle(&request(9, set_breakpoints(Some("/src/other.rs"), &[])));
    assert_eq!(s.breakpoints_by_path.get("/src/lib.rs").unwrap(), &vec![5]);
    assert_eq!(s.breakpoints_by_path.get("/src/other.rs").unwrap(), &Vec::<i64>::new());
}

#[test]
fn set_breakpoints_without_path_keeps_table() {
    let mut s = DapState::new();
    s.handle(&request(1, set_breakpoints(Some("/a.rs"), &[2])));
    let out = s.handle(&request(2, set_breakpoints(None, &[9])));
    match success_body(&out[0], 2) {
        ResponseBody::SetBreakpoints(bps) => assert_eq!(bps.len(), 1),
        other => panic!("unexpected body {:?}", other),
    }
    assert_eq!(s.breakpoints_by_path.get("/a.rs").unwrap(), &vec![2]);
    assert!(s.current_source.as_ref().unwrap().path.is_none());
    let out = s.handle(&request(
        3,
        Command::SetBreakpoints(SetBreakpointsArguments { source: source(Some("/b.rs")), breakpoints: None }),
    ));
    match success_body(&out[0], 3) {
        ResponseBody::SetBreakpoints(bps) => assert!(bps.is_empty()),
        other => panic!("unexpected body {:?}", other),
    }
    assert_eq!(s.breakpoints_by_path.get("/b.rs").unwrap(), &Vec::<i64>::new());
}

#[test]
fn pause_stops_at_first_breakpoint_and_trace_shows_it() {
    let mut s = DapState::new();
    s.handle(&request(1, set_breakpoints(Some("/src/lib.rs"), &[42, 7])));
    let out = exchange(&mut s, request(2, Command::Pause));
    assert_eq!(out.len(), 2);
    assert!(matches!(success_body(&out[0], 2), ResponseBody::Pause));
    match &out[1] {
        Outgoing::Send(Event::Stopped(body)) => {
            assert_eq!(body.reason, StoppedEventReason::Pause);
            assert_eq!(body.description.as_deref(), Some("Paused"));
            assert_eq!(body.thread_id, Some(1));
            assert_eq!(body.preserve_focus_hint, Some(false));
            assert!(body.text.is_none());
            assert_eq!(body.all_threads_stopped, Some(true));
            assert!(body.hit_breakpoint_ids.is_none());
        }
        other => panic!("unexpected {:?}", other),
    }
    assert_eq!(s.stopped_line, 42);
    assert_eq!(s.stopped_column, 1);
    let out = s.handle(&request(3, stack_trace()));
    match success_body(&out[0], 3) {
        ResponseBody::StackTrace(trace) => {
            assert_eq!(trace.total_frames, Some(1));
            assert_eq!(trace.stack_frames.len(), 1);
            let f = &trace.stack_frames[0];
            assert_eq!(f.id, 1);
            assert_eq!(f.name, "main");
            assert_eq!(f.line, 42);
            assert_eq!(f.column, 1);
            assert_eq!(f.source.as_ref().unwrap().path.as_deref(), Some("/src/lib.rs"));
            assert_eq!(f.source.as_ref().unwrap().name.as_deref(), Some("lib.rs"));
        }
        other => panic!("unexpected body {:?}", other),
    }
}

#[test]
fn pause_without_breakpoints_stops_at_line_one() {
    let mut s = DapState::new();
    s.stopped_line = 50;
    s.stopped_column = 8;
    exchange(&mut s, request(1, Command::Pause));
    assert_eq!((s.stopped_line, s.stopped_column), (1, 1));
    s.handle(&request(2, set_breakpoints(Some("/x.rs"), &[])));
    exchange(&mut s, request(3, Command::Pause));
    assert_eq!((s.stopped_line, s.stopped_column), (1, 1));
}

#[test]
fn stack_trace_without_source_shows_unknown() {
    let mut s = DapState::new();
    let out = s.handle(&request(4, stack_trace()));
    match success_body(&out[0], 4) {
        ResponseBody::StackTrace(trace) => {
            let src = trace.stack_frames[0].source.as_ref().unwrap();
            assert_eq!(src.name.as_deref(), Some("unknown"));
            assert!(src.path.is_none());
            assert!(src.adapter_data_json.is_none());
            assert_eq!(trace.stack_frames[0].line, 1);
            assert_eq!(trace.stack_frames[0].column, 1);
        }
        other => panic!("unexpected body {:?}", other),
    }
}

#[test]
fn threads_scopes_variables_answers() {
    let mut s = DapState::new();
    let out = s.handle(&request(5, Command::Threads));
    match success_body(&out[0], 5) {
        ResponseBody::Threads(ts) => {
            assert_eq!(ts.len(), 1);
            assert_eq!(ts[0].id, 1);
            assert_eq!(ts[0].name, "Main Thread");
        }
        other => panic!("unexpected body {:?}", other),
    }
    let out = s.handle(&request(6, Command::Scopes));
    match success_body(&out[0], 6) {
        ResponseBody::Scopes(scopes) => {
            assert_eq!(scopes.len(), 1);
            assert_eq!(scopes[0].name, "Locals");
            assert_eq!(scopes[0].variables_reference, 2000);
            assert!(!scopes[0].expensive);
            assert!(scopes[0].source.is_none());
        }
        other => panic!("unexpected body {:?}", other),
    }
    let out = s.handle(&request(7, Command::Variables));
    match success_body(&out[0], 7) {
        ResponseBody::Variables(vars) => {
            assert_eq!(vars.len(), 1);
            assert_eq!(vars[0].name, "demo");
            assert_eq!(vars[0].value, "1");
            assert_eq!(vars[0].type_field.as_deref(), Some("i32"));
            assert_eq!(vars[0].evaluate_name.as_deref(), Some("demo"));
            assert_eq!(vars[0].variables_reference, 0);
            assert!(vars[0].memory_reference.is_none());
        }
        other => panic!("unexpected body {:?}", other),
    }
}

#[test]
fn continue_answers_then_continued_event() {
    let mut s = DapState::new();
    let out = exchange(&mut s, request(8, Command::Continue));
    assert_eq!(out.len(), 2);
    match success_body(&out[0], 8) {
        ResponseBody::Continue(c) => assert_eq!(c.all_threads_continued, Some(true)),
        other => panic!("unexpected body {:?}", other),
    }
    match &out[1] {
        Outgoing::Send(Event::Continued(body)) => {
            assert_eq!(body.thread_id, 1);
            assert_eq!(body.all_threads_continued, Some(true));
        }
        other => panic!("unexpected {:?}", other),
    }
}

#[test]
fn plain_requests_get_plain_answers() {
    let mut s = DapState::new();
    let cases: Vec<(Command, fn(&ResponseBody) -> bool)> = vec![
        (Command::Restart, |b| matches!(b, ResponseBody::Restart)),
        (Command::Attach, |b| matches!(b, ResponseBody::Attach)),
        (Command::ConfigurationDone, |b| matches!(b, ResponseBody::ConfigurationDone)),
        (Command::SetExceptionBreakpoints, |b| matches!(b, ResponseBody::SetExceptionBreakpoints)),
        (Command::Disconnect, |b| matches!(b, ResponseBody::Disconnect)),
    ];
    for (i, (cmd, is_expected)) in cases.into_iter().enumerate() {
        let seq = 100 + i as i64;
        let out = s.handle(&request(seq, cmd));
        assert_eq!(out.len(), 1);
        assert!(is_expected(success_body(&out[0], seq)));
    }
    assert_eq!(s.stopped_line, 1);
    assert!(s.port.is_none());
}

#[test]
fn unsupported_command_is_refused_with_its_name() {
    let mut s = DapState::new();
    let out = s.handle(&request(11, Command::Unsupported("Evaluate(EvaluateArguments)".to_string())));
    assert_eq!(out.len(), 1);
    match &out[0] {
        Outgoing::Respond(r) => {
            assert_eq!(r.request_seq, 11);
            assert!(!r.success);
            assert!(r.body.is_none());
            match r.message.as_ref().unwrap() {
                ResponseMessage::Error(m) => {
                    assert_eq!(m, "Unsupported command: Evaluate(EvaluateArguments)")
                }
                other => panic!("unexpected message {:?}", other),
            }
        }
        other => panic!("unexpected {:?}", other),
    }
}

#[test]
fn pause_event_and_console_line_helpers() {
    match ink_dap::handler::pause_stopped_event(3) {
        Event::Stopped(body) => {
            assert_eq!(body.thread_id, Some(3));
            assert_eq!(body.reason, StoppedEventReason::Pause);
        }
        other => panic!("unexpected {:?}", other),
    }
    match ink_dap::log_channel::console_line("hello") {
        Event::Output(body) => {
            assert_eq!(body.category, Some(OutputEventCategory::Console));
            assert_eq!(body.output, "hello\n");
        }
        other => panic!("unexpected {:?}", other),
    }
}

#[test]
fn unsent_pause_response_moves_nothing() {
    let mut s = DapState::new();
    s.handle(&request(1, set_breakpoints(Some("/src/lib.rs"), &[42])));
    s.stopped_line = 9;
    s.stopped_column = 4;
    let out = s.handle(&request(2, Command::Pause));
    assert_eq!(out.len(), 1);
    assert!(matches!(success_body(&out[0], 2), ResponseBody::Pause));
    assert_eq!((s.stopped_line, s.stopped_column), (9, 4));
    let after = s.on_response_sent(&request(2, Command::Pause));
    assert_eq!(after.len(), 1);
    assert!(matches!(&after[0], Outgoing::Send(Event::Stopped(_))));
    assert_eq!((s.stopped_line, s.stopped_column), (42, 1));
}

#[test]
fn follow_up_is_empty_for_other_requests() {
    let mut s = DapState::new();
    for c in [Command::Threads, Command::Scopes, Command::Variables, Command::Disconnect, stack_trace()] {
        assert!(s.on_response_sent(&request(1, c)).is_empty());
    }
    assert_eq!((s.stopped_line, s.stopped_column), (1, 1));
}

#[test]
fn stack_trace_ignores_its_arguments() {
    let mut s = DapState::new();
    s.handle(&request(1, set_breakpoints(Some("/src/lib.rs"), &[8])));
    exchange(&mut s, request(2, Command::Pause));
    let plain = s.handle(&request(3, stack_trace()));
    let odd = s.handle(&request(
        3,
        Command::StackTrace(StackTraceArguments { thread_id: 77, start_frame: Some(5), levels: Some(0) }),
    ));
    assert_eq!(format!("{:?}", plain), format!("{:?}", odd));
    match success_body(&odd[0], 3) {
        ResponseBody::StackTrace(trace) => {
            assert_eq!(trace.stack_frames.len(), 1);
            assert_eq!(trace.stack_frames[0].line, 8);
        }
        other => panic!("unexpected body {:?}", other),
    }
}

#[test]
fn repeated_set_breakpoints_changes_nothing_more() {
    let mut s = DapState::new();
    let first = s.handle(&request(4, set_breakpoints(Some("/a.rs"), &[3, 6])));
    let after_first = format!("{:?}", s);
    let second = s.handle(&request(4, set_breakpoints(Some("/a.rs"), &[3, 6])));
    assert_eq!(format!("{:?}", s), after_first);
    assert_eq!(format!("{:?}", first), format!("{:?}", second));
    match success_body(&second[0], 4) {
        ResponseBody::SetBreakpoints(bps) => {
            assert_eq!(bps[0].id, Some(1));
            assert_eq!(bps[1].id, Some(2));
        }
        other => panic!("unexpected body {:?}", other),
    }
}
