//! Operations that take one or more platform calls.
use crate::platform::{Call, CallView, Reply};
use vstd::prelude::*;

verus! {

/// What comes after a reply, or at the start.
#[derive(Debug)]
pub enum Next<O, T> {
    /// One more call: the one that the operation now asks for.
    Ask(O),
    /// The end of the operation, with its output.
    Done(T),
}

/// An operation that stands before a platform call. It says which call, and
/// goes on with the reply.
pub trait Operation: Sized {
    /// What the operation returns in the end.
    type Output;

    /// The output as a mathematical value.
    type Model;

    /// The mathematical value of an output.
    spec fn model(output: Self::Output) -> Self::Model;

    /// Whether the operation is in one of its states.
    spec fn wf(&self) -> bool;

    /// The call that the operation asks for.
    spec fn awaiting(&self) -> CallView;

    /// What the operation does with the reply.
    spec fn after(self, reply: Reply) -> Next<Self, Self::Model>;

    /// Returns the call that the operation asks for.
    fn call(&self) -> (call: Call)
        requires
            self.wf(),
        ensures
            call@ == self.awaiting(),
    ;

    /// Goes on with the reply to the call.
    fn resume(self, reply: Reply) -> (next: Next<Self, Self::Output>)
        requires
            self.wf(),
            reply.answers(self.awaiting()),
        ensures
            (match next {
                Next::Ask(op) => op.wf() && self.after(reply) == Next::<Self, Self::Model>::Ask(op),
                Next::Done(output) => self.after(reply) == Next::<Self, Self::Model>::Done(
                    Self::model(output),
                ),
            }),
    ;
}

/// Where an operation stands after a sequence of replies. Once it is done,
/// further replies change nothing.
pub open spec fn run<O: Operation>(op: O, replies: Seq<Reply>) -> Next<O, O::Model>
    decreases replies.len(),
{
    if replies.len() == 0 {
        Next::Ask(op)
    } else {
        match op.after(replies[0]) {
            Next::Ask(rest) => run(rest, replies.drop_first()),
            Next::Done(output) => Next::Done(output),
        }
    }
}

/// The calls that an operation asks for when it is given a sequence of
/// replies, up to and with the one that it asks for last.
pub open spec fn calls<O: Operation>(op: O, replies: Seq<Reply>) -> Seq<CallView>
    decreases replies.len(),
{
    if replies.len() == 0 {
        seq![op.awaiting()]
    } else {
        match op.after(replies[0]) {
            Next::Ask(rest) => seq![op.awaiting()] + calls(rest, replies.drop_first()),
            Next::Done(_) => seq![op.awaiting()],
        }
    }
}

/// Whether each reply can be the one to the call that the operation asks for
/// when it comes.
pub open spec fn answered<O: Operation>(op: O, replies: Seq<Reply>) -> bool
    decreases replies.len(),
{
    replies.len() > 0 ==> replies[0].answers(op.awaiting()) && (op.after(
        replies[0],
    ) matches Next::Ask(rest) ==> answered(rest, replies.drop_first()))
}

} // verus!
