//! The state of a debug session.

use vstd::prelude::*;

use crate::breakpoints::BreakpointTable;
use crate::protocol::Source;

verus! {

/// The port of the sandbox endpoint when the `launch` request names none.
pub const DEFAULT_PORT: u16 = 9229;

/// The address the sandbox endpoint listens on.
pub const DEFAULT_ADDRESS: &'static str = "127.0.0.1";

/// The state of a debug session.
#[derive(Debug)]
pub struct DapState {
    /// The one thread the adapter reports.
    pub main_thread_id: i64,
    /// The source of the last `setBreakpoints` request.
    pub current_source: Option<Source>,
    /// The line the debuggee is shown stopped at.
    pub stopped_line: i64,
    /// The column the debuggee is shown stopped at.
    pub stopped_column: i64,
    /// The breakpoint lines by source path.
    pub breakpoints_by_path: BreakpointTable,
    /// The reference of the one scope of variables.
    pub vars_ref: i64,
    /// The port of the sandbox endpoint, as the `launch` request named it.
    pub port: Option<u16>,
    /// Whether the sandbox endpoint is serving.
    pub is_running: bool,
}

/// The first breakpoint line set for the path of the current source, if any.
pub open spec fn first_breakpoint_line(s: DapState) -> Option<i64> {
    match s.current_source {
        Some(src) => match src.path {
            Some(p) => if s.breakpoints_by_path@.contains_key(p@) && s.breakpoints_by_path@[p@].len()
                > 0 {
                Some(s.breakpoints_by_path@[p@][0])
            } else {
                None
            },
            None => None,
        },
        None => None,
    }
}

/// The line a pause stops at: the first breakpoint of the current source, or line 1.
pub open spec fn stop_line(s: DapState) -> i64 {
    match first_breakpoint_line(s) {
        Some(line) => line,
        None => 1,
    }
}

/// The port the sandbox endpoint is to be started on, when it is not serving yet.
pub open spec fn spec_server_to_start(s: DapState) -> Option<u16> {
    if s.is_running {
        None
    } else {
        match s.port {
            Some(p) => Some(p),
            None => Some(DEFAULT_PORT),
        }
    }
}

impl DapState {
    /// The state of a fresh session: thread 1, stopped at line 1, column 1,
    /// variables under reference 2000, no breakpoints, no endpoint serving.
    pub fn new() -> (s: DapState)
        ensures
            s.main_thread_id == 1,
            s.current_source is None,
            s.stopped_line == 1,
            s.stopped_column == 1,
            s.breakpoints_by_path@ == Map::<Seq<char>, Seq<i64>>::empty(),
            s.vars_ref == 2000,
            s.port is None,
            !s.is_running,
    {
        DapState {
            main_thread_id: 1,
            current_source: None,
            stopped_line: 1,
            stopped_column: 1,
            breakpoints_by_path: BreakpointTable::new(),
            vars_ref: 2000,
            port: None,
            is_running: false,
        }
    }

    /// Moves the stop location to the first breakpoint of the current source,
    /// or to line 1 when it has none; the column is 1 either way.
    pub fn pick_stop_location(&mut self)
        ensures
            *final(self) == (DapState {
                stopped_line: stop_line(*old(self)),
                stopped_column: 1,
                ..*old(self)
            }),
    {
        let mut line: i64 = 1;
        if let Some(src) = &self.current_source {
            if let Some(path) = &src.path {
                if let Some(lines) = self.breakpoints_by_path.get(path.as_str()) {
                    if lines.len() > 0 {
                        line = lines[0];
                    }
                }
            }
        }
        self.stopped_line = line;
        self.stopped_column = 1;
    }

    /// The port to start the sandbox endpoint on: none when it is already
    /// serving, else the port the `launch` request named, or the default one.
    pub fn server_to_start(&self) -> (port: Option<u16>)
        ensures
            port == spec_server_to_start(*self),
    {
        if self.is_running {
            return None;
        }
        match self.port {
            Some(p) => Some(p),
            None => Some(DEFAULT_PORT),
        }
    }

    /// Records that the sandbox endpoint is serving.
    pub fn mark_server_running(&mut self)
        ensures
            *final(self) == (DapState { is_running: true, ..*old(self) }),
    {
        self.is_running = true;
    }
}

} // verus!
