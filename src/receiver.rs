//! What the receiver does with each thing its socket hands it.
//!
//! The caller owns the socket: it receives a datagram, decodes it, hands the
//! outcome here as a [`ReceiveEvent`], and performs the [`ReceiverAction`]
//! that comes back. A decode failure, a receive failure and an argument of
//! an unsupported type each end the loop with one diagnostic line.
use vstd::prelude::*;
use vstd::string::StringExecFns;
use crate::argument::{all_supported, first_unsupported, models, tags_of, ArgumentModel};
use crate::message::Message;
use crate::report::{
    argument_texts, bundle_line, bundle_line_text, local_timestamp, message_line,
    message_line_text, views,
};

verus! {

/// The outcome of one receive-and-decode.
#[derive(Clone, Debug, PartialEq, Eq)]
pub enum ReceiveEvent {
    /// A decoded message; `float_texts[i]` is the display text of argument
    /// `i` where it is a float.
    Message { message: Message, float_texts: Vec<String> },
    /// A decoded bundle, by its text.
    Bundle(String),
    /// The datagram did not decode; the text says why.
    DecodeFailed(String),
    /// The socket failed to receive; the text says why.
    ReceiveFailed(String),
}

/// What the receive loop does next.
#[derive(Clone, Debug, PartialEq, Eq)]
pub enum ReceiverAction {
    /// Print the line and go on receiving.
    Print(String),
    /// Print the diagnostic line and stop.
    Stop(String),
}

/// The model of a [`ReceiverAction`]: whether the loop goes on, and the line.
pub open spec fn action_view(a: ReceiverAction) -> (bool, Seq<char>) {
    match a {
        ReceiverAction::Print(s) => (true, s@),
        ReceiverAction::Stop(s) => (false, s@),
    }
}

/// The event is well formed: a message comes with one float text per argument.
pub open spec fn event_well_formed(e: ReceiveEvent) -> bool {
    e matches ReceiveEvent::Message { message, float_texts } ==> float_texts@.len()
        == message.args@.len()
}

/// Whether `event` meets [`receiver_step`]'s requirement.
pub fn event_is_well_formed(event: &ReceiveEvent) -> (r: bool)
    ensures
        r == event_well_formed(*event),
{
    match event {
        ReceiveEvent::Message { message, float_texts } => float_texts.len() == message.args.len(),
        _ => true,
    }
}

/// What the receiver does for `e`, given the time stamp for a printed line.
pub open spec fn receiver_reaction(stamp: Seq<char>, e: ReceiveEvent) -> (bool, Seq<char>) {
    match e {
        ReceiveEvent::Message { message, float_texts } => {
            let m = models(message.args@);
            if all_supported(m) {
                (
                    true,
                    message_line_text(
                        stamp,
                        message.addr@,
                        argument_texts(m, views(float_texts@)),
                        tags_of(m),
                    ),
                )
            } else {
                let i = choose|i: int| first_unsupported(m, i);
                (false, "Unsupported type: "@ + m[i]->Unsupported_0)
            }
        },
        ReceiveEvent::Bundle(b) => (true, bundle_line_text(b@)),
        ReceiveEvent::DecodeFailed(e) => (false, "Error decoding packet: "@ + e@),
        ReceiveEvent::ReceiveFailed(e) => (false, "Error receiving from socket: "@ + e@),
    }
}

/// A sequence has at most one first unsupported element.
proof fn lemma_first_unsupported_unique(m: Seq<ArgumentModel>, i: int, j: int)
    requires
        first_unsupported(m, i),
        first_unsupported(m, j),
    ensures
        i == j,
{
    if i < j {
        assert(m.subrange(0, j)[i] == m[i]);
    } else if j < i {
        assert(m.subrange(0, i)[j] == m[j]);
    }
}

/// The receiver's decision for one event, with `stamp` as the time stamp.
pub fn receiver_step(stamp: &str, event: &ReceiveEvent) -> (r: ReceiverAction)
    requires
        event_well_formed(*event),
    ensures
        action_view(r) == receiver_reaction(stamp@, *event),
{
    match event {
        ReceiveEvent::Message { message, float_texts } => {
            match message_line(stamp, message.addr.as_str(), &message.args, float_texts) {
                Ok(line) => ReceiverAction::Print(line),
                Err(e) => {
                    let ghost m = models(message.args@);
                    proof {
                        let j = choose|j: int|
                            first_unsupported(m, j) && m[j] == ArgumentModel::Unsupported(e.name@);
                        let i = choose|i: int| first_unsupported(m, i);
                        lemma_first_unsupported_unique(m, i, j);
                    }
                    let mut s = String::from_str("Unsupported type: ");
                    s.append(e.name.as_str());
                    ReceiverAction::Stop(s)
                },
            }
        },
        ReceiveEvent::Bundle(b) => ReceiverAction::Print(bundle_line(b.as_str())),
        ReceiveEvent::DecodeFailed(e) => {
            let mut s = String::from_str("Error decoding packet: ");
            s.append(e.as_str());
            ReceiverAction::Stop(s)
        },
        ReceiveEvent::ReceiveFailed(e) => {
            let mut s = String::from_str("Error receiving from socket: ");
            s.append(e.as_str());
            ReceiverAction::Stop(s)
        },
    }
}

/// [`receiver_step`] with the local time now as the time stamp.
pub fn receiver_step_now(event: &ReceiveEvent) -> (r: ReceiverAction)
    requires
        event_well_formed(*event),
    ensures
        exists|stamp: Seq<char>| action_view(r) == receiver_reaction(stamp, *event),
{
    let stamp = local_timestamp();
    receiver_step(stamp.as_str(), event)
}

} // verus!
