//! Object names.
//!
//! The driver names each object of a category (buffer, vertex array, texture,
//! shader, program) by a non-zero integer, and answers a request that it
//! cannot serve with zero. The layer hands out names that it has checked, and
//! never releases one by itself: the owner of a name deletes the object.

use vstd::prelude::*;

verus! {

use crate::driver::{calls, Answer, Call, Command, Reply};
use crate::error::{outcome, Error, Failure};

/// A request for one object name: waiting for the driver's answer, or settled.
#[derive(Debug, PartialEq, Eq)]
pub enum Allocation {
    Pending,
    Finished(Result<u32, Error>),
}

/// The mathematical content of an [`Allocation`].
pub enum AllocationView {
    Pending,
    Finished(Result<u32, Failure>),
}

impl View for Allocation {
    type V = AllocationView;

    open spec fn view(&self) -> AllocationView {
        match *self {
            Allocation::Pending => AllocationView::Pending,
            Allocation::Finished(result) => AllocationView::Finished(outcome(result)),
        }
    }
}

/// What a name that the driver handed back amounts to: the name itself, and an
/// allocation failure for zero.
pub open spec fn checked(name: u32) -> Result<u32, Failure> {
    if name == 0 {
        Err(Failure::AllocationError)
    } else {
        Ok(name)
    }
}

/// The state that follows `state` on the driver's answer. A pending request
/// takes a name; any other answer is out of contract. A settled request stays
/// as it is.
pub open spec fn step(state: AllocationView, answer: Answer) -> AllocationView {
    match state {
        AllocationView::Pending => match answer {
            Answer::Name(name) => AllocationView::Finished(checked(name)),
            _ => AllocationView::Finished(Err(Failure::InvalidArgument)),
        },
        AllocationView::Finished(result) => AllocationView::Finished(result),
    }
}

/// Checks a name that the driver handed back.
pub fn validate(name: u32) -> (result: Result<u32, Error>)
    ensures
        outcome(result) == checked(name),
{
    if name == 0 {
        Err(Error::AllocationError)
    } else {
        Ok(name)
    }
}

impl Allocation {
    /// Takes the driver's answer to the request. No further call follows.
    pub fn advance(self, reply: Reply) -> (next: (Allocation, Vec<Command>))
        ensures
            next.0@ == step(self@, reply@),
            calls(next.1@) == Seq::<Call>::empty(),
    {
        let state = match self {
            Allocation::Pending => match reply {
                Reply::Name(name) => Allocation::Finished(validate(name)),
                _ => Allocation::Finished(Err(Error::InvalidArgument)),
            },
            Allocation::Finished(result) => Allocation::Finished(result),
        };
        (state, Vec::new())
    }
}

/// A name that was handed out is never zero.
pub proof fn lemma_allocated_name_is_nonzero(answer: Answer, name: u32)
    requires
        step(AllocationView::Pending, answer) == AllocationView::Finished(Ok(name)),
    ensures
        name != 0,
        answer == Answer::Name(name),
{
}

} // verus!
