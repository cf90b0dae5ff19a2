//! The sending half of the log channel, with a record of what it handed on.

use tokio::sync::mpsc::UnboundedSender;
use vstd::prelude::*;

verus! {

/// The sending half of tokio's unbounded channel.
#[verifier::external_type_specification]
#[verifier::external_body]
#[verifier::reject_recursive_types(T)]
pub struct ExUnboundedSender<T>(UnboundedSender<T>);

/// The sending half of the log channel. Beside the channel it keeps a record
/// of every line passed to the channel's `send`, oldest first; only the
/// constructor and the one function that makes that call touch the record.
pub struct LogSender {
    tx: UnboundedSender<String>,
    handed: Ghost<Seq<Seq<char>>>,
}

impl LogSender {
    /// The lines passed to the channel's `send` through this sender, in order.
    pub closed spec fn handed_lines(&self) -> Seq<Seq<char>> {
        self.handed@
    }

    /// The channel this sender hands lines to.
    pub closed spec fn channel(&self) -> UnboundedSender<String> {
        self.tx
    }

    /// A sender for `tx` that has handed over nothing yet.
    pub fn new(tx: UnboundedSender<String>) -> (sender: LogSender)
        ensures
            sender.handed_lines() == Seq::<Seq<char>>::empty(),
            sender.channel() == tx,
    {
        LogSender { tx, handed: Ghost(Seq::empty()) }
    }
}

/// Calls tokio's `UnboundedSender::send` on the sender's channel with
/// `message` itself, so the record of `sender` gains exactly that line. Tokio
/// queues the value it is given for the receiving half, first in, first out,
/// or hands it back when that half has been dropped; which of the two
/// happened is not visible here and the outcome is discarded, as the log is
/// best effort.
#[verifier::external_body]
pub(crate) fn channel_send(sender: &mut LogSender, message: String)
    ensures
        final(sender).handed_lines() == old(sender).handed_lines().push(message@),
        final(sender).channel() == old(sender).channel(),
{
    let _ = sender.tx.send(message);
}

} // verus!
