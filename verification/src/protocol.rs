//! The parts of the Debug Adapter Protocol that this adapter reads and writes,
//! as plain values. Fields of a protocol type that the adapter neither reads
//! nor ever fills are left out; the client side leaves them empty.

use vstd::prelude::*;

use crate::json::JsonValue;

verus! {

/// The algorithm of a source checksum.
#[derive(Debug, Clone, Copy, PartialEq, Eq)]
pub enum ChecksumAlgorithm {
    MD5,
    SHA1,
    SHA256,
    Timestamp,
}

/// A checksum of a source file.
#[derive(Debug, Clone)]
pub struct Checksum {
    pub algorithm: ChecksumAlgorithm,
    pub checksum: String,
}

/// How the client should present a source.
#[derive(Debug, Clone, Copy, PartialEq, Eq)]
pub enum PresentationHint {
    Normal,
    Emphasize,
    DeEmphasize,
}

/// A descriptor of source code, as the client sends it. The adapter keeps the
/// related sources and the adapter data as the JSON text they arrived in, and
/// hands them back untouched.
#[derive(Debug, Clone)]
pub struct Source {
    pub name: Option<String>,
    pub path: Option<String>,
    pub source_reference: Option<i32>,
    pub presentation_hint: Option<PresentationHint>,
    pub origin: Option<String>,
    pub sources_json: Option<String>,
    pub adapter_data_json: Option<String>,
    pub checksums: Option<Vec<Checksum>>,
}

/// The mathematical value of a checksum.
pub struct ChecksumView {
    pub algorithm: ChecksumAlgorithm,
    pub checksum: Seq<char>,
}

/// The mathematical value of a source: its text fields as character sequences.
pub struct SourceView {
    pub name: Option<Seq<char>>,
    pub path: Option<Seq<char>>,
    pub source_reference: Option<i32>,
    pub presentation_hint: Option<PresentationHint>,
    pub origin: Option<Seq<char>>,
    pub sources_json: Option<Seq<char>>,
    pub adapter_data_json: Option<Seq<char>>,
    pub checksums: Option<Seq<ChecksumView>>,
}

/// The characters of an optional text.
pub open spec fn opt_text(t: Option<String>) -> Option<Seq<char>> {
    match t {
        Some(s) => Some(s@),
        None => None,
    }
}

impl View for Checksum {
    type V = ChecksumView;

    open spec fn view(&self) -> ChecksumView {
        ChecksumView { algorithm: self.algorithm, checksum: self.checksum@ }
    }
}

impl View for Source {
    type V = SourceView;

    open spec fn view(&self) -> SourceView {
        SourceView {
            name: opt_text(self.name),
            path: opt_text(self.path),
            source_reference: self.source_reference,
            presentation_hint: self.presentation_hint,
            origin: opt_text(self.origin),
            sources_json: opt_text(self.sources_json),
            adapter_data_json: opt_text(self.adapter_data_json),
            checksums: match self.checksums {
                Some(v) => Some(v@.map_values(|c: Checksum| c@)),
                None => None,
            },
        }
    }
}

/// A copy of an optional text.
pub fn copy_text(t: &Option<String>) -> (copy: Option<String>)
    ensures
        copy == *t,
{
    match t {
        Some(s) => Some(s.clone()),
        None => None,
    }
}

impl Checksum {
    /// A copy of this checksum.
    pub fn duplicate(&self) -> (copy: Checksum)
        ensures
            copy == *self,
    {
        Checksum { algorithm: self.algorithm, checksum: self.checksum.clone() }
    }
}

/// A copy of a list of checksums.
fn copy_checksums(list: &Vec<Checksum>) -> (copy: Vec<Checksum>)
    ensures
        copy@ == list@,
{
    let mut copy: Vec<Checksum> = Vec::new();
    let mut i: usize = 0;
    while i < list.len()
        invariant
            i <= list@.len(),
            copy@ == list@.take(i as int),
        decreases list@.len() - i,
    {
        copy.push(list[i].duplicate());
        assert(list@.take(i + 1) =~= list@.take(i as int).push(list@[i as int]));
        i = i + 1;
    }
    assert(list@.take(list@.len() as int) =~= list@);
    copy
}

impl Source {
    /// A copy of this source, equal to it as a value.
    pub fn duplicate(&self) -> (copy: Source)
        ensures
            copy@ == self@,
    {
        let checksums = match &self.checksums {
            Some(list) => Some(copy_checksums(list)),
            None => None,
        };
        Source {
            name: copy_text(&self.name),
            path: copy_text(&self.path),
            source_reference: self.source_reference,
            presentation_hint: self.presentation_hint,
            origin: copy_text(&self.origin),
            sources_json: copy_text(&self.sources_json),
            adapter_data_json: copy_text(&self.adapter_data_json),
            checksums,
        }
    }

    /// The source that a stack frame reports when the client has named none.
    pub fn unknown() -> (source: Source)
        ensures
            source@ == unknown_source(),
            source.name matches Some(name) && name@ == "unknown"@,
            source.path is None,
            source.source_reference is None,
            source.presentation_hint is None,
            source.origin is None,
            source.sources_json is None,
            source.adapter_data_json is None,
            source.checksums is None,
    {
        Source {
            name: Some(String::from_str("unknown")),
            path: None,
            source_reference: None,
            presentation_hint: None,
            origin: None,
            sources_json: None,
            adapter_data_json: None,
            checksums: None,
        }
    }
}

/// The value of the source reported when the client has named none: it is
/// called `unknown` and carries nothing else.
pub open spec fn unknown_source() -> SourceView {
    SourceView {
        name: Some("unknown"@),
        path: None,
        source_reference: None,
        presentation_hint: None,
        origin: None,
        sources_json: None,
        adapter_data_json: None,
        checksums: None,
    }
}

/// A breakpoint as the client asks for it.
#[derive(Debug, Clone, Copy, PartialEq, Eq)]
pub struct SourceBreakpoint {
    pub line: i64,
    pub column: Option<i64>,
}

/// A breakpoint as the adapter reports it.
#[derive(Debug, Clone)]
pub struct Breakpoint {
    pub id: Option<i64>,
    pub verified: bool,
    pub message: Option<String>,
    pub source: Option<Source>,
    pub line: Option<i64>,
    pub column: Option<i64>,
    pub end_line: Option<i64>,
    pub end_column: Option<i64>,
    pub instruction_reference: Option<String>,
    pub offset: Option<i64>,
}

/// A stack frame as the adapter reports it.
#[derive(Debug, Clone)]
pub struct StackFrame {
    pub id: i64,
    pub name: String,
    pub source: Option<Source>,
    pub line: i64,
    pub column: i64,
    pub end_line: Option<i64>,
    pub end_column: Option<i64>,
    pub can_restart: Option<bool>,
    pub instruction_pointer_reference: Option<String>,
}

/// A thread of the debuggee.
#[derive(Debug, Clone)]
pub struct Thread {
    pub id: i64,
    pub name: String,
}

/// A scope of variables.
#[derive(Debug, Clone)]
pub struct Scope {
    pub name: String,
    pub variables_reference: i64,
    pub named_variables: Option<i64>,
    pub indexed_variables: Option<i64>,
    pub expensive: bool,
    pub source: Option<Source>,
    pub line: Option<i64>,
    pub column: Option<i64>,
    pub end_line: Option<i64>,
    pub end_column: Option<i64>,
}

/// A variable in a scope.
#[derive(Debug, Clone)]
pub struct Variable {
    pub name: String,
    pub value: String,
    pub type_field: Option<String>,
    pub evaluate_name: Option<String>,
    pub variables_reference: i64,
    pub named_variables: Option<i64>,
    pub indexed_variables: Option<i64>,
    pub memory_reference: Option<String>,
}

/// The capabilities the adapter announces; the ones left out are not announced.
#[derive(Debug, Clone, Copy, PartialEq, Eq)]
pub struct Capabilities {
    pub supports_configuration_done_request: Option<bool>,
    pub supports_set_variable: Option<bool>,
    pub supports_step_back: Option<bool>,
    pub supports_restart_frame: Option<bool>,
    pub supports_goto_targets_request: Option<bool>,
    pub supports_conditional_breakpoints: Option<bool>,
    pub supports_hit_conditional_breakpoints: Option<bool>,
    pub supports_terminate_request: Option<bool>,
    pub supports_evaluate_for_hovers: Option<bool>,
}

/// Why the debuggee stopped.
#[derive(Debug, Clone, Copy, PartialEq, Eq)]
pub enum StoppedEventReason {
    Step,
    Breakpoint,
    Exception,
    Pause,
    Entry,
    Goto,
    Function,
    Data,
    Instruction,
}

/// The body of a `stopped` event.
#[derive(Debug, Clone)]
pub struct StoppedEventBody {
    pub reason: StoppedEventReason,
    pub description: Option<String>,
    pub thread_id: Option<i64>,
    pub preserve_focus_hint: Option<bool>,
    pub text: Option<String>,
    pub all_threads_stopped: Option<bool>,
    pub hit_breakpoint_ids: Option<Vec<i64>>,
}

/// The body of a `continued` event.
#[derive(Debug, Clone, Copy, PartialEq, Eq)]
pub struct ContinuedEventBody {
    pub thread_id: i64,
    pub all_threads_continued: Option<bool>,
}

/// The category of an `output` event.
#[derive(Debug, Clone, Copy, PartialEq, Eq)]
pub enum OutputEventCategory {
    Console,
    Important,
    Stdout,
    Stderr,
    Telemetry,
}

/// The body of an `output` event.
#[derive(Debug, Clone)]
pub struct OutputEventBody {
    pub category: Option<OutputEventCategory>,
    pub output: String,
}

/// An event the adapter sends to the client.
#[derive(Debug, Clone)]
pub enum Event {
    Initialized,
    Stopped(StoppedEventBody),
    Continued(ContinuedEventBody),
    Output(OutputEventBody),
}

/// The message of an unsuccessful response.
#[derive(Debug, Clone)]
pub enum ResponseMessage {
    Cancelled,
    NotStopped,
    Error(String),
}

/// The body of a response to a `continue` request.
#[derive(Debug, Clone, Copy, PartialEq, Eq)]
pub struct ContinueResponse {
    pub all_threads_continued: Option<bool>,
}

/// The body of a response to a `stackTrace` request.
#[derive(Debug, Clone)]
pub struct StackTraceResponse {
    pub stack_frames: Vec<StackFrame>,
    pub total_frames: Option<i64>,
}

/// The body of a successful response. `SetExceptionBreakpoints` reports no
/// breakpoints.
#[derive(Debug, Clone)]
pub enum ResponseBody {
    Initialize(Capabilities),
    ConfigurationDone,
    Launch,
    Restart,
    Attach,
    SetBreakpoints(Vec<Breakpoint>),
    SetExceptionBreakpoints,
    Threads(Vec<Thread>),
    Pause,
    Continue(ContinueResponse),
    StackTrace(StackTraceResponse),
    Scopes(Vec<Scope>),
    Variables(Vec<Variable>),
    Disconnect,
}

/// A response to a request.
#[derive(Debug, Clone)]
pub struct Response {
    pub request_seq: i64,
    pub success: bool,
    pub message: Option<ResponseMessage>,
    pub body: Option<ResponseBody>,
}

impl Response {
    /// The successful response with `body` to the request numbered `request_seq`.
    pub fn success(request_seq: i64, body: ResponseBody) -> (response: Response)
        ensures
            response == (Response { request_seq, success: true, message: None, body: Some(body) }),
    {
        Response { request_seq, success: true, message: None, body: Some(body) }
    }

    /// The failed response with the error `message` to the request numbered `request_seq`.
    pub fn error(request_seq: i64, message: String) -> (response: Response)
        ensures
            response == (Response {
                request_seq,
                success: false,
                message: Some(ResponseMessage::Error(message)),
                body: None,
            }),
    {
        Response { request_seq, success: false, message: Some(ResponseMessage::Error(message)), body: None }
    }
}

/// The arguments of a `launch` request that the adapter reads: the
/// implementation-specific attributes.
#[derive(Debug)]
pub struct LaunchRequestArguments {
    pub additional_data: Option<JsonValue>,
}

/// The arguments of a `setBreakpoints` request.
#[derive(Debug, Clone)]
pub struct SetBreakpointsArguments {
    pub source: Source,
    pub breakpoints: Option<Vec<SourceBreakpoint>>,
}

/// The arguments of a `stackTrace` request.
#[derive(Debug, Clone, Copy, PartialEq, Eq)]
pub struct StackTraceArguments {
    pub thread_id: i64,
    pub start_frame: Option<i64>,
    pub levels: Option<i64>,
}

/// A request command. The arguments of the commands the adapter does not read
/// are not kept; an unsupported command keeps the text that names it in the
/// error message.
#[derive(Debug)]
pub enum Command {
    Initialize,
    Launch(LaunchRequestArguments),
    Restart,
    Attach,
    ConfigurationDone,
    SetBreakpoints(SetBreakpointsArguments),
    SetExceptionBreakpoints,
    Threads,
    Pause,
    Continue,
    StackTrace(StackTraceArguments),
    Scopes,
    Variables,
    Disconnect,
    Unsupported(String),
}

/// A request from the client.
#[derive(Debug)]
pub struct Request {
    pub seq: i64,
    pub command: Command,
}

} // verus!
