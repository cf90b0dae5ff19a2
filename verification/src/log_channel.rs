//! The channel that carries log lines to the client's debug console.

use vstd::prelude::*;

use crate::log_sender::channel_send;
pub use crate::log_sender::LogSender;
use crate::protocol::{Event, OutputEventBody, OutputEventCategory};

verus! {

impl LogSender {
    /// Hands `message`, unchanged, to the channel.
    pub fn send(&mut self, message: String)
        ensures
            final(self).handed_lines() == old(self).handed_lines().push(message@),
            final(self).channel() == old(self).channel(),
    {
        channel_send(self, message);
    }
}

/// `after` is `before` with one more line, `line`, handed to the same channel.
pub open spec fn handed_one_more(before: LogSender, after: LogSender, line: Seq<char>) -> bool {
    &&& after.handed_lines() == before.handed_lines().push(line)
    &&& after.channel() == before.channel()
}

/// Hands `message`, unchanged, to the log channel when one has been set up;
/// without a channel the message is dropped. Tells whether it was handed over.
pub fn send_log(log: &mut Option<LogSender>, message: String) -> (handed_over: bool)
    ensures
        handed_over == (*old(log) is Some),
        match *old(log) {
            Some(before) => match *final(log) {
                Some(after) => {
                    &&& handed_one_more(before, after, message@)
                    &&& after.handed_lines().len() == before.handed_lines().len() + 1
                    &&& after.handed_lines().last() == message@
                    &&& after.handed_lines().drop_last() == before.handed_lines()
                },
                None => false,
            },
            None => *final(log) is None,
        },
{
    match log {
        Some(sender) => {
            sender.send(message);
            true
        },
        None => false,
    }
}

/// `e` shows `message` as one line of the client's debug console.
pub open spec fn is_console_line(e: Event, message: Seq<char>) -> bool {
    &&& e matches Event::Output(body)
    &&& body.category == Some(OutputEventCategory::Console)
    &&& body.output@ == message + "\n"@
}

/// The `output` event that shows a log line in the client's debug console.
pub fn console_line(message: &str) -> (e: Event)
    ensures
        is_console_line(e, message@),
        e matches Event::Output(body) && body.output@.len() == message@.len() + 1
            && body.output@.take(message@.len() as int) == message@
            && body.output@.last() == '\n',
{
    let mut output = String::from_str(message);
    output.append("\n");
    proof {
        reveal_strlit("\n");
        assert(output@.take(message@.len() as int) =~= message@);
    }
    Event::Output(OutputEventBody { category: Some(OutputEventCategory::Console), output })
}

} // verus!
