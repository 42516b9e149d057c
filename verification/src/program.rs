//! Program objects: creation, the shaders attached to them, linking, use and
//! deletion.
//!
//! A program is created empty, takes shaders, and is linked. Linking leaves it
//! linked or failed; a failed program may take other shaders and be linked
//! again, and either may be deleted. Only a linked program is fit for use, but
//! whether a program is linked or was deleted is not checked on use: that is
//! left to the driver. Shaders may be detached and deleted once a link
//! succeeded, since linking copies what was compiled.

use vstd::prelude::*;
use vstd::utf8::{decode_utf8, valid_utf8};

verus! {

use crate::driver::{calls, Answer, Call, Command, Reply, LINK_STATUS, STATUS_TRUE};
use crate::error::{outcome, Error, Failure};
use crate::handle::Allocation;
use crate::log::{ask_length, ask_text, length_query, log_text, retrieval, text_length, text_of, Subject};

/// Where the linking of a program stands.
#[derive(Debug, PartialEq, Eq)]
pub enum Link {
    /// The link was triggered and its status asked for.
    Linking { program: u32 },
    /// The link failed; the length of the log was asked for.
    Measuring { program: u32 },
    /// The log was asked for.
    Fetching { program: u32 },
    /// Linking is over: the program is linked, or it is not and this is why.
    Finished(Result<(), Error>),
}

/// The mathematical content of a [`Link`].
pub enum LinkView {
    Linking { program: u32 },
    Measuring { program: u32 },
    Fetching { program: u32 },
    Finished(Result<(), Failure>),
}

impl View for Link {
    type V = LinkView;

    open spec fn view(&self) -> LinkView {
        match *self {
            Link::Linking { program } => LinkView::Linking { program },
            Link::Measuring { program } => LinkView::Measuring { program },
            Link::Fetching { program } => LinkView::Fetching { program },
            Link::Finished(result) => LinkView::Finished(outcome(result)),
        }
    }
}

/// The state that follows `state` on the driver's answer, and the calls to
/// make next; the answer of the last of them is the next one to hand in.
///
/// The status is looked at once. An answer of a kind that the state did not
/// ask for ends the linking with `InvalidArgument`. Finished linking stays as
/// it is.
pub open spec fn step(state: LinkView, answer: Answer) -> (LinkView, Seq<Call>) {
    match (state, answer) {
        (LinkView::Linking { program }, Answer::Value(status)) => if status == STATUS_TRUE {
            (LinkView::Finished(Ok(())), Seq::empty())
        } else {
            (LinkView::Measuring { program }, seq![length_query(Subject::Program(program))])
        },
        (LinkView::Measuring { program }, Answer::Value(length)) => (
            LinkView::Fetching { program },
            seq![retrieval(Subject::Program(program), length)],
        ),
        (LinkView::Fetching { program }, Answer::Bytes(bytes)) => (
            LinkView::Finished(Err(Failure::LinkError(log_text(bytes)))),
            Seq::empty(),
        ),
        (LinkView::Finished(result), _) => (LinkView::Finished(result), Seq::empty()),
        _ => (LinkView::Finished(Err(Failure::InvalidArgument)), Seq::empty()),
    }
}

/// The state that linking reaches from `state` on a series of answers.
pub open spec fn run(state: LinkView, answers: Seq<Answer>) -> LinkView
    decreases answers.len(),
{
    if answers.len() == 0 {
        state
    } else {
        run(step(state, answers[0]).0, answers.drop_first())
    }
}

/// The calls that attach each of `shaders` to `program`, in their order.
pub open spec fn attachments(program: u32, shaders: Seq<u32>) -> Seq<Call> {
    Seq::new(shaders.len(), |i: int| Call::AttachShader { program, shader: shaders[i] })
}

/// The calls that detach each of `shaders` from `program`, in their order.
pub open spec fn detachments(program: u32, shaders: Seq<u32>) -> Seq<Call> {
    Seq::new(shaders.len(), |i: int| Call::DetachShader { program, shader: shaders[i] })
}

/// The call that makes the program the current one.
pub fn set_used(id: u32) -> (batch: Vec<Command>)
    ensures
        calls(batch@) == seq![Call::UseProgram { program: id }],
{
    let mut batch: Vec<Command> = Vec::new();
    batch.push(Command::UseProgram { program: id });
    batch
}

/// Requests an empty program object: the pending request and the call to make.
pub fn create() -> (start: (Allocation, Vec<Command>))
    ensures
        start.0 == Allocation::Pending,
        calls(start.1@) == seq![Call::CreateProgram],
{
    let mut batch: Vec<Command> = Vec::new();
    batch.push(Command::CreateProgram);
    (Allocation::Pending, batch)
}

/// The calls that attach the shaders to the program, one call each, in the
/// given order. A shader that occurs twice is attached twice.
pub fn attach_shaders(program: u32, shaders: Vec<u32>) -> (batch: Vec<Command>)
    ensures
        calls(batch@) == attachments(program, shaders@),
{
    let mut batch: Vec<Command> = Vec::new();
    let mut i: usize = 0;
    while i < shaders.len()
        invariant
            i <= shaders.len(),
            batch@.len() == i,
            forall|j: int|
                0 <= j < i ==> batch@[j]@ == (Call::AttachShader { program, shader: shaders@[j] }),
        decreases shaders.len() - i,
    {
        batch.push(Command::AttachShader { program, shader: shaders[i] });
        i = i + 1;
    }
    assert(calls(batch@) =~= attachments(program, shaders@));
    batch
}

/// The calls that detach the shaders from the program, one call each, in the
/// given order.
pub fn detach_shaders(program: u32, shaders: Vec<u32>) -> (batch: Vec<Command>)
    ensures
        calls(batch@) == detachments(program, shaders@),
{
    let mut batch: Vec<Command> = Vec::new();
    let mut i: usize = 0;
    while i < shaders.len()
        invariant
            i <= shaders.len(),
            batch@.len() == i,
            forall|j: int|
                0 <= j < i ==> batch@[j]@ == (Call::DetachShader { program, shader: shaders@[j] }),
        decreases shaders.len() - i,
    {
        batch.push(Command::DetachShader { program, shader: shaders[i] });
        i = i + 1;
    }
    assert(calls(batch@) =~= detachments(program, shaders@));
    batch
}

/// Starts linking the program: the calls that trigger the link and ask for its
/// status.
pub fn link(program: u32) -> (start: (Link, Vec<Command>))
    ensures
        start.0@ == (LinkView::Linking { program }),
        calls(start.1@) == seq![
            Call::LinkProgram { program },
            Call::GetProgramiv { program, parameter: LINK_STATUS },
        ],
{
    let mut batch: Vec<Command> = Vec::new();
    batch.push(Command::LinkProgram { program });
    batch.push(Command::GetProgramiv { program, parameter: LINK_STATUS });
    (Link::Linking { program }, batch)
}

/// The call that releases the program object.
pub fn delete(program: u32) -> (batch: Vec<Command>)
    ensures
        calls(batch@) == seq![Call::DeleteProgram { program }],
{
    let mut batch: Vec<Command> = Vec::new();
    batch.push(Command::DeleteProgram { program });
    batch
}

impl Link {
    /// Takes the driver's answer to the last call of the previous batch and
    /// gives the next state with the calls to make.
    pub fn advance(self, reply: Reply) -> (next: (Link, Vec<Command>))
        ensures
            (next.0@, calls(next.1@)) == step(self@, reply@),
            match (self, reply, next.0) {
                (
                    Link::Fetching { .. },
                    Reply::Bytes(bytes),
                    Link::Finished(Err(Error::LinkError(log))),
                ) => {
                    &&& log@.len() == 0 <==> text_length(bytes@) == 0
                    &&& valid_utf8(bytes@.take(text_length(bytes@))) ==> log@ == decode_utf8(
                        bytes@.take(text_length(bytes@)),
                    )
                },
                _ => true,
            },
    {
        let mut batch: Vec<Command> = Vec::new();
        let state = match (self, reply) {
            (Link::Linking { program }, Reply::Value(status)) => {
                if status == STATUS_TRUE {
                    Link::Finished(Ok(()))
                } else {
                    batch.push(ask_length(Subject::Program(program)));
                    Link::Measuring { program }
                }
            },
            (Link::Measuring { program }, Reply::Value(length)) => {
                batch.push(ask_text(Subject::Program(program), length));
                Link::Fetching { program }
            },
            (Link::Fetching { program }, Reply::Bytes(bytes)) => Link::Finished(
                Err(Error::LinkError(text_of(bytes))),
            ),
            (Link::Finished(result), _) => Link::Finished(result),
            _ => Link::Finished(Err(Error::InvalidArgument)),
        };
        (state, batch)
    }
}

/// Linking succeeds exactly when the driver reports success, and then no log
/// is asked for: from the status on, the program is linked if and only if the
/// status is the driver's value for success.
pub proof fn lemma_linked_iff_status(program: u32, status: i32)
    ensures
        step(LinkView::Linking { program }, Answer::Value(status)).0 == LinkView::Finished(Ok(()))
            <==> status == STATUS_TRUE,
        status == STATUS_TRUE ==> step(LinkView::Linking { program }, Answer::Value(status)).1
            == Seq::<Call>::empty(),
{
}

/// A link that the driver reports as failed ends, after the length of the log
/// and the log were asked for, with `LinkError` holding the text of that log.
pub proof fn lemma_failed_link_reports_log(program: u32, status: i32, length: i32, bytes: Seq<u8>)
    requires
        status != STATUS_TRUE,
    ensures
        run(
            LinkView::Linking { program },
            seq![Answer::Value(status), Answer::Value(length), Answer::Bytes(bytes)],
        ) == LinkView::Finished(Err(Failure::LinkError(log_text(bytes)))),
        step(LinkView::Linking { program }, Answer::Value(status)).1 == seq![
            length_query(Subject::Program(program)),
        ],
        step(LinkView::Measuring { program }, Answer::Value(length)).1 == seq![
            retrieval(Subject::Program(program), length),
        ],
{
    let answers = seq![Answer::Value(status), Answer::Value(length), Answer::Bytes(bytes)];
    let a1 = answers.drop_first();
    let a2 = a1.drop_first();
    assert(a2.drop_first().len() == 0);
    assert(a1[0] == Answer::Value(length));
    assert(a2[0] == Answer::Bytes(bytes));
    reveal_with_fuel(run, 4);
}

/// Attaching is done in order: attaching one list and then another makes the
/// calls of attaching the two lists joined.
pub proof fn lemma_attachments_concatenate(program: u32, first: Seq<u32>, second: Seq<u32>)
    ensures
        attachments(program, first + second) == attachments(program, first) + attachments(
            program,
            second,
        ),
{
    assert(attachments(program, first + second) =~= attachments(program, first) + attachments(
        program,
        second,
    ));
}

} // verus!
