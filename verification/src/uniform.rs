//! Uniforms: the named inputs of a linked program.
//!
//! A uniform is written in two calls: the first resolves its name to a
//! location in the program, the second writes to that location. A name that
//! the program does not use resolves to -1, and the driver ignores a write to
//! that location: this is no failure.

use vstd::prelude::*;

verus! {

use crate::driver::{calls, Answer, Call, Command, Reply};
use crate::error::{outcome, Error, Failure};

/// Where the writing of a uniform stands. Components are IEEE 754
/// single-precision bit patterns.
#[derive(Debug, PartialEq, Eq)]
pub enum Write {
    /// The location was asked for; two components go to it.
    Locating2 { x: u32, y: u32 },
    /// The location was asked for; three components go to it.
    Locating3 { x: u32, y: u32, z: u32 },
    /// The writing is over.
    Finished(Result<(), Error>),
}

/// The mathematical content of a [`Write`].
pub enum WriteView {
    Locating2 { x: u32, y: u32 },
    Locating3 { x: u32, y: u32, z: u32 },
    Finished(Result<(), Failure>),
}

impl View for Write {
    type V = WriteView;

    open spec fn view(&self) -> WriteView {
        match *self {
            Write::Locating2 { x, y } => WriteView::Locating2 { x, y },
            Write::Locating3 { x, y, z } => WriteView::Locating3 { x, y, z },
            Write::Finished(result) => WriteView::Finished(outcome(result)),
        }
    }
}

/// Where the lookup of a uniform's location stands.
#[derive(Debug, PartialEq, Eq)]
pub enum Lookup {
    /// The location was asked for.
    Resolving,
    /// The lookup is over: the location as the driver gave it, -1 for a name
    /// that the program does not use.
    Finished(Result<i32, Error>),
}

/// The mathematical content of a [`Lookup`].
pub enum LookupView {
    Resolving,
    Finished(Result<i32, Failure>),
}

impl View for Lookup {
    type V = LookupView;

    open spec fn view(&self) -> LookupView {
        match *self {
            Lookup::Resolving => LookupView::Resolving,
            Lookup::Finished(result) => LookupView::Finished(outcome(result)),
        }
    }
}

/// The state that follows `state` on the driver's answer. The location is
/// handed on as the driver gave it; -1 is a location like any other. An
/// answer that is no integer ends the lookup with `InvalidArgument`; a
/// finished lookup stays as it is.
pub open spec fn resolve(state: LookupView, answer: Answer) -> LookupView {
    match (state, answer) {
        (LookupView::Resolving, Answer::Value(location)) => LookupView::Finished(Ok(location)),
        (LookupView::Finished(result), _) => LookupView::Finished(result),
        _ => LookupView::Finished(Err(Failure::InvalidArgument)),
    }
}

/// A name can be handed to the driver when it holds no NUL character: the
/// driver reads names up to the first one.
pub open spec fn is_name(name: Seq<char>) -> bool {
    forall|i: int| 0 <= i < name.len() ==> name[i] != '\0'
}

/// The state that follows `state` on the driver's answer, and the calls to
/// make next. Whatever location the driver gives, -1 included, the
/// components are written to it and the writing has succeeded. An answer that
/// is no integer ends the writing with `InvalidArgument`; finished writing
/// stays as it is.
pub open spec fn step(state: WriteView, answer: Answer) -> (WriteView, Seq<Call>) {
    match (state, answer) {
        (WriteView::Locating2 { x, y }, Answer::Value(location)) => (
            WriteView::Finished(Ok(())),
            seq![Call::Uniform2fv { location, x, y }],
        ),
        (WriteView::Locating3 { x, y, z }, Answer::Value(location)) => (
            WriteView::Finished(Ok(())),
            seq![Call::Uniform3fv { location, x, y, z }],
        ),
        (WriteView::Finished(result), _) => (WriteView::Finished(result), Seq::empty()),
        _ => (WriteView::Finished(Err(Failure::InvalidArgument)), Seq::empty()),
    }
}

/// Whether the name holds no NUL character.
fn check_name(name: &str) -> (ok: bool)
    ensures
        ok == is_name(name@),
{
    let mut ok = true;
    for c in it: name.chars()
        invariant
            it.seq() == name@,
            ok == is_name(name@.take(it.index() as int)),
    {
        proof {
            let seen = name@.take(it.index() as int);
            let next = name@.take(it.index() + 1);
            assert(c == name@[it.index() as int]);
            assert(next[it.index() as int] == c);
            assert(forall|i: int| 0 <= i < seen.len() ==> seen[i] == next[i]);
        }
        if c == '\0' {
            ok = false;
        }
    }
    assert(name@.take(name@.len() as int) == name@);
    ok
}

/// The command that resolves `uniform` in `program`.
fn locate(program: u32, uniform: &str) -> (command: Command)
    ensures
        command@ == (Call::GetUniformLocation { program, name: uniform@ }),
{
    Command::GetUniformLocation { program, name: uniform.to_owned() }
}

/// Starts resolving the uniform named `uniform` of `program`: one call, whose
/// answer is the location. A name that holds a NUL character ends the lookup
/// at once with `InvalidArgument` and no call is made.
pub fn get_location(program: u32, uniform: &str) -> (start: (Lookup, Vec<Command>))
    ensures
        is_name(uniform@) ==> {
            &&& start.0@ == LookupView::Resolving
            &&& calls(start.1@) == seq![Call::GetUniformLocation { program, name: uniform@ }]
        },
        !is_name(uniform@) ==> {
            &&& start.0@ == LookupView::Finished(Err(Failure::InvalidArgument))
            &&& calls(start.1@) == Seq::<Call>::empty()
        },
{
    if !check_name(uniform) {
        return (Lookup::Finished(Err(Error::InvalidArgument)), Vec::new());
    }
    let mut batch: Vec<Command> = Vec::new();
    batch.push(locate(program, uniform));
    (Lookup::Resolving, batch)
}

/// Starts writing a three-component vector to the uniform named `uniform` of
/// `program`. The first three elements of `data` are written and the rest is
/// ignored. With fewer than three elements, or a name that holds a NUL
/// character, the writing ends at once with `InvalidArgument` and no call is
/// made.
pub fn set_float_vec3(program: u32, uniform: &str, data: &Vec<u32>) -> (start: (
    Write,
    Vec<Command>,
))
    ensures
        data@.len() >= 3 && is_name(uniform@) ==> {
            &&& start.0@ == (WriteView::Locating3 { x: data@[0], y: data@[1], z: data@[2] })
            &&& calls(start.1@) == seq![Call::GetUniformLocation { program, name: uniform@ }]
        },
        data@.len() < 3 || !is_name(uniform@) ==> {
            &&& start.0@ == WriteView::Finished(Err(Failure::InvalidArgument))
            &&& calls(start.1@) == Seq::<Call>::empty()
        },
{
    if data.len() < 3 || !check_name(uniform) {
        return (Write::Finished(Err(Error::InvalidArgument)), Vec::new());
    }
    let mut batch: Vec<Command> = Vec::new();
    batch.push(locate(program, uniform));
    (Write::Locating3 { x: data[0], y: data[1], z: data[2] }, batch)
}

/// Starts writing a two-component vector to the uniform named `uniform` of
/// `program`. The first two elements of `data` are written and the rest is
/// ignored. With fewer than two elements, or a name that holds a NUL
/// character, the writing ends at once with `InvalidArgument` and no call is
/// made.
pub fn set_float_vec2(program: u32, uniform: &str, data: &Vec<u32>) -> (start: (
    Write,
    Vec<Command>,
))
    ensures
        data@.len() >= 2 && is_name(uniform@) ==> {
            &&& start.0@ == (WriteView::Locating2 { x: data@[0], y: data@[1] })
            &&& calls(start.1@) == seq![Call::GetUniformLocation { program, name: uniform@ }]
        },
        data@.len() < 2 || !is_name(uniform@) ==> {
            &&& start.0@ == WriteView::Finished(Err(Failure::InvalidArgument))
            &&& calls(start.1@) == Seq::<Call>::empty()
        },
{
    if data.len() < 2 || !check_name(uniform) {
        return (Write::Finished(Err(Error::InvalidArgument)), Vec::new());
    }
    let mut batch: Vec<Command> = Vec::new();
    batch.push(locate(program, uniform));
    (Write::Locating2 { x: data[0], y: data[1] }, batch)
}

impl Lookup {
    /// Takes the driver's answer to the lookup. No further call follows.
    pub fn advance(self, reply: Reply) -> (next: (Lookup, Vec<Command>))
        ensures
            next.0@ == resolve(self@, reply@),
            calls(next.1@) == Seq::<Call>::empty(),
    {
        let state = match (self, reply) {
            (Lookup::Resolving, Reply::Value(location)) => Lookup::Finished(Ok(location)),
            (Lookup::Finished(result), _) => Lookup::Finished(result),
            _ => Lookup::Finished(Err(Error::InvalidArgument)),
        };
        (state, Vec::new())
    }
}

impl Write {
    /// Takes the location that the driver resolved and gives the finished
    /// state with the call that writes.
    pub fn advance(self, reply: Reply) -> (next: (Write, Vec<Command>))
        ensures
            (next.0@, calls(next.1@)) == step(self@, reply@),
    {
        let mut batch: Vec<Command> = Vec::new();
        let state = match (self, reply) {
            (Write::Locating2 { x, y }, Reply::Value(location)) => {
                batch.push(Command::Uniform2fv { location, x, y });
                Write::Finished(Ok(()))
            },
            (Write::Locating3 { x, y, z }, Reply::Value(location)) => {
                batch.push(Command::Uniform3fv { location, x, y, z });
                Write::Finished(Ok(()))
            },
            (Write::Finished(result), _) => Write::Finished(result),
            _ => Write::Finished(Err(Error::InvalidArgument)),
        };
        (state, batch)
    }
}

/// A lookup ends with whatever location the driver resolves, handed on as it
/// came and never as a failure: for a name that the program does not use that
/// is -1. A write that is then made to that location succeeds like any other.
pub proof fn lemma_location_is_handed_on(location: i32, x: u32, y: u32, z: u32)
    ensures
        resolve(LookupView::Resolving, Answer::Value(location)) == LookupView::Finished(
            Ok(location),
        ),
        step(WriteView::Locating3 { x, y, z }, Answer::Value(location)).0 == WriteView::Finished(
            Ok(()),
        ),
        step(WriteView::Locating2 { x, y }, Answer::Value(location)).0 == WriteView::Finished(
            Ok(()),
        ),
{
}

/// Once the name and the data were accepted, the writing succeeds at whatever
/// location the driver resolves, and exactly the components that were taken
/// from the data are written there. A name that the program does not use
/// resolves to -1; the write to it is made like any other.
pub proof fn lemma_write_succeeds_at_any_location(x: u32, y: u32, z: u32, location: i32)
    ensures
        step(WriteView::Locating3 { x, y, z }, Answer::Value(location)) == (
            WriteView::Finished(Ok(())),
            seq![Call::Uniform3fv { location, x, y, z }],
        ),
        step(WriteView::Locating2 { x, y }, Answer::Value(location)) == (
            WriteView::Finished(Ok(())),
            seq![Call::Uniform2fv { location, x, y }],
        ),
{
}

} // verus!
