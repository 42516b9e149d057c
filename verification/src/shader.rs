//! Shader objects: creation, compilation, and the diagnostics of a failed
//! compile.
//!
//! A build asks the driver for a shader object of the wanted stage, submits
//! the source text as it is, has it compiled, and asks for the compile
//! status. The status alone tells success from failure: a log can always be
//! fetched and may be empty, so it is fetched only after a failure.

use vstd::prelude::*;
use vstd::utf8::{decode_utf8, encode_utf8, valid_utf8};

verus! {

use crate::driver::{calls, Answer, Call, Command, Reply, COMPILE_STATUS, STATUS_TRUE};
use crate::error::{outcome, Error, Failure};
use crate::log::{ask_length, ask_text, length_query, log_text, retrieval, text_length, text_of, Subject};

/// Where the build of a shader stands.
#[derive(Debug, PartialEq, Eq)]
pub enum Build {
    /// A shader object was requested; `source` goes to it once it is there.
    Creating { source: String },
    /// The source was submitted and compiled; the status was asked for.
    Compiling { shader: u32 },
    /// The compile failed; the length of the log was asked for.
    Measuring { shader: u32 },
    /// The log was asked for.
    Fetching { shader: u32 },
    /// The build is over: the shader's name, or why there is none.
    Finished(Result<u32, Error>),
}

/// The mathematical content of a [`Build`].
pub enum BuildView {
    Creating { source: Seq<char> },
    Compiling { shader: u32 },
    Measuring { shader: u32 },
    Fetching { shader: u32 },
    Finished(Result<u32, Failure>),
}

impl View for Build {
    type V = BuildView;

    open spec fn view(&self) -> BuildView {
        match *self {
            Build::Creating { source } => BuildView::Creating { source: source@ },
            Build::Compiling { shader } => BuildView::Compiling { shader },
            Build::Measuring { shader } => BuildView::Measuring { shader },
            Build::Fetching { shader } => BuildView::Fetching { shader },
            Build::Finished(result) => BuildView::Finished(outcome(result)),
        }
    }
}

/// Source text can be submitted when the driver can be told its length: it
/// takes no more than `i32::MAX` bytes as UTF-8.
pub open spec fn fits(source: Seq<char>) -> bool {
    encode_utf8(source).len() <= i32::MAX
}

/// The calls that submit `source` to `shader`, compile it and ask how that went.
pub open spec fn compilation(shader: u32, source: Seq<char>) -> Seq<Call> {
    seq![
        Call::ShaderSource { shader, source },
        Call::CompileShader { shader },
        Call::GetShaderiv { shader, parameter: COMPILE_STATUS },
    ]
}

/// The state that follows `state` on the driver's answer, and the calls to
/// make next; the answer of the last of them is the next one to hand in.
///
/// An answer of a kind that the state did not ask for ends the build with
/// `InvalidArgument`, and so does source that is too long to submit. A
/// finished build stays as it is.
pub open spec fn step(state: BuildView, answer: Answer) -> (BuildView, Seq<Call>) {
    match (state, answer) {
        (BuildView::Creating { source }, Answer::Name(shader)) => if shader == 0 {
            (BuildView::Finished(Err(Failure::AllocationError)), Seq::empty())
        } else if !fits(source) {
            (BuildView::Finished(Err(Failure::InvalidArgument)), Seq::empty())
        } else {
            (BuildView::Compiling { shader }, compilation(shader, source))
        },
        (BuildView::Compiling { shader }, Answer::Value(status)) => if status == STATUS_TRUE {
            (BuildView::Finished(Ok(shader)), Seq::empty())
        } else {
            (BuildView::Measuring { shader }, seq![length_query(Subject::Shader(shader))])
        },
        (BuildView::Measuring { shader }, Answer::Value(length)) => (
            BuildView::Fetching { shader },
            seq![retrieval(Subject::Shader(shader), length)],
        ),
        (BuildView::Fetching { shader }, Answer::Bytes(bytes)) => (
            BuildView::Finished(Err(Failure::CompileError(log_text(bytes)))),
            Seq::empty(),
        ),
        (BuildView::Finished(result), _) => (BuildView::Finished(result), Seq::empty()),
        _ => (BuildView::Finished(Err(Failure::InvalidArgument)), Seq::empty()),
    }
}

/// The state that a build reaches from `state` on a series of answers.
pub open spec fn run(state: BuildView, answers: Seq<Answer>) -> BuildView
    decreases answers.len(),
{
    if answers.len() == 0 {
        state
    } else {
        run(step(state, answers[0]).0, answers.drop_first())
    }
}

/// Whether the source text can be submitted.
fn check_length(source: &String) -> (ok: bool)
    ensures
        ok == fits(source@),
{
    source.as_str().as_bytes().len() <= 0x7FFF_FFFF
}

/// Starts the build of a shader of stage `kind` from source text: the first
/// state and the call to make. Source that takes more than `i32::MAX` bytes
/// ends the build at once with `InvalidArgument` and no call is made.
pub fn new_from_string(kind: u32, source: String) -> (start: (Build, Vec<Command>))
    ensures
        fits(source@) ==> {
            &&& start.0@ == (BuildView::Creating { source: source@ })
            &&& calls(start.1@) == seq![Call::CreateShader { kind }]
        },
        !fits(source@) ==> {
            &&& start.0@ == BuildView::Finished(Err(Failure::InvalidArgument))
            &&& calls(start.1@) == Seq::<Call>::empty()
        },
{
    if !check_length(&source) {
        return (Build::Finished(Err(Error::InvalidArgument)), Vec::new());
    }
    let mut batch: Vec<Command> = Vec::new();
    batch.push(Command::CreateShader { kind });
    (Build::Creating { source }, batch)
}

/// Starts the build of a shader from what reading its source file gave: the
/// text, or the reader's message. A failed read ends the build at once with
/// `IoError` and no call is made; text that was read is built as by
/// [`new_from_string`].
pub fn new_from_file(kind: u32, text: Result<String, String>) -> (start: (Build, Vec<Command>))
    ensures
        match text {
            Ok(source) => {
                &&& fits(source@) ==> {
                    &&& start.0@ == (BuildView::Creating { source: source@ })
                    &&& calls(start.1@) == seq![Call::CreateShader { kind }]
                }
                &&& !fits(source@) ==> {
                    &&& start.0@ == BuildView::Finished(Err(Failure::InvalidArgument))
                    &&& calls(start.1@) == Seq::<Call>::empty()
                }
            },
            Err(message) => {
                &&& start.0@ == BuildView::Finished(Err(Failure::IoError(message@)))
                &&& calls(start.1@) == Seq::<Call>::empty()
            },
        },
{
    match text {
        Ok(source) => new_from_string(kind, source),
        Err(message) => (Build::Finished(Err(Error::IoError(message))), Vec::new()),
    }
}

impl Build {
    /// Takes the driver's answer to the last call of the previous batch and
    /// gives the next state with the calls to make.
    pub fn advance(self, reply: Reply) -> (next: (Build, Vec<Command>))
        ensures
            (next.0@, calls(next.1@)) == step(self@, reply@),
            match (self, reply, next.0) {
                (
                    Build::Fetching { .. },
                    Reply::Bytes(bytes),
                    Build::Finished(Err(Error::CompileError(log))),
                ) => {
                    &&& log@.len() == 0 <==> text_length(bytes@) == 0
                    &&& valid_utf8(bytes@.take(text_length(bytes@))) ==> log@ == decode_utf8(
                        bytes@.take(text_length(bytes@)),
                    )
                },
                _ => true,
            },
    {
        let mut batch: Vec<Command> = Vec::new();
        let state = match (self, reply) {
            (Build::Creating { source }, Reply::Name(shader)) => {
                if shader == 0 {
                    Build::Finished(Err(Error::AllocationError))
                } else if !check_length(&source) {
                    Build::Finished(Err(Error::InvalidArgument))
                } else {
                    batch.push(Command::ShaderSource { shader, source });
                    batch.push(Command::CompileShader { shader });
                    batch.push(Command::GetShaderiv { shader, parameter: COMPILE_STATUS });
                    Build::Compiling { shader }
                }
            },
            (Build::Compiling { shader }, Reply::Value(status)) => {
                if status == STATUS_TRUE {
                    Build::Finished(Ok(shader))
                } else {
                    batch.push(ask_length(Subject::Shader(shader)));
                    Build::Measuring { shader }
                }
            },
            (Build::Measuring { shader }, Reply::Value(length)) => {
                batch.push(ask_text(Subject::Shader(shader), length));
                Build::Fetching { shader }
            },
            (Build::Fetching { shader }, Reply::Bytes(bytes)) => Build::Finished(
                Err(Error::CompileError(text_of(bytes))),
            ),
            (Build::Finished(result), _) => Build::Finished(result),
            _ => Build::Finished(Err(Error::InvalidArgument)),
        };
        (state, batch)
    }
}

/// The states in which no shader is named zero.
pub open spec fn well_formed(state: BuildView) -> bool {
    match state {
        BuildView::Creating { .. } => true,
        BuildView::Compiling { shader } => shader != 0,
        BuildView::Measuring { shader } => shader != 0,
        BuildView::Fetching { shader } => shader != 0,
        BuildView::Finished(Ok(shader)) => shader != 0,
        BuildView::Finished(Err(_)) => true,
    }
}

/// A finished build stays finished, whatever is handed in.
pub proof fn lemma_finished_is_final(result: Result<u32, Failure>, answers: Seq<Answer>)
    ensures
        run(BuildView::Finished(result), answers) == BuildView::Finished(result),
    decreases answers.len(),
{
    if answers.len() > 0 {
        lemma_finished_is_final(result, answers.drop_first());
    }
}

/// No series of answers leads a build out of the well-formed states.
pub proof fn lemma_run_keeps_well_formed(state: BuildView, answers: Seq<Answer>)
    requires
        well_formed(state),
    ensures
        well_formed(run(state, answers)),
    decreases answers.len(),
{
    if answers.len() > 0 {
        lemma_run_keeps_well_formed(step(state, answers[0]).0, answers.drop_first());
    }
}

/// Whatever the driver answers, a build that succeeds hands out a name that
/// is not zero.
pub proof fn lemma_built_name_is_nonzero(source: Seq<char>, answers: Seq<Answer>, shader: u32)
    requires
        run(BuildView::Creating { source }, answers) == BuildView::Finished(Ok(shader)),
    ensures
        shader != 0,
{
    lemma_run_keeps_well_formed(BuildView::Creating { source }, answers);
}

/// Source that the driver accepts: when the driver made the shader object and
/// reports the compile as successful, the build ends with the object's name
/// right after the status, and asks for no log.
pub proof fn lemma_accepted_source_builds(source: Seq<char>, shader: u32)
    requires
        fits(source),
        shader != 0,
    ensures
        run(
            BuildView::Creating { source },
            seq![Answer::Name(shader), Answer::Value(STATUS_TRUE)],
        ) == BuildView::Finished(Ok(shader)),
        step(BuildView::Compiling { shader }, Answer::Value(STATUS_TRUE)).1 == Seq::<Call>::empty(),
{
    let answers = seq![Answer::Name(shader), Answer::Value(STATUS_TRUE)];
    let rest = answers.drop_first();
    assert(rest.drop_first().len() == 0);
    reveal_with_fuel(run, 3);
}

/// Source that the driver rejects: when the driver made the shader object and
/// reports anything but success, the build asks for the log's length, then for
/// the log, and ends with `CompileError` holding the text of that log.
pub proof fn lemma_rejected_source_fails(
    source: Seq<char>,
    shader: u32,
    status: i32,
    length: i32,
    bytes: Seq<u8>,
)
    requires
        fits(source),
        shader != 0,
        status != STATUS_TRUE,
    ensures
        run(
            BuildView::Creating { source },
            seq![
                Answer::Name(shader),
                Answer::Value(status),
                Answer::Value(length),
                Answer::Bytes(bytes),
            ],
        ) == BuildView::Finished(Err(Failure::CompileError(log_text(bytes)))),
        step(BuildView::Compiling { shader }, Answer::Value(status)).1 == seq![
            length_query(Subject::Shader(shader)),
        ],
        step(BuildView::Measuring { shader }, Answer::Value(length)).1 == seq![
            retrieval(Subject::Shader(shader), length),
        ],
{
    let answers = seq![
        Answer::Name(shader),
        Answer::Value(status),
        Answer::Value(length),
        Answer::Bytes(bytes),
    ];
    let a1 = answers.drop_first();
    let a2 = a1.drop_first();
    let a3 = a2.drop_first();
    assert(a3.drop_first().len() == 0);
    assert(a1[0] == Answer::Value(status));
    assert(a2[0] == Answer::Value(length));
    assert(a3[0] == Answer::Bytes(bytes));
    reveal_with_fuel(run, 5);
}

/// A request that the driver cannot serve: on the zero name the build ends
/// with `AllocationError` and nothing is submitted.
pub proof fn lemma_unserved_request_fails(source: Seq<char>)
    ensures
        step(BuildView::Creating { source }, Answer::Name(0)) == (
            BuildView::Finished(Err(Failure::AllocationError)),
            Seq::<Call>::empty(),
        ),
{
}

/// Source that is too long to submit: whatever shader object the driver
/// made, nothing is submitted to it and the build ends with
/// `InvalidArgument`.
pub proof fn lemma_oversized_source_fails(source: Seq<char>, shader: u32)
    requires
        !fits(source),
        shader != 0,
    ensures
        step(BuildView::Creating { source }, Answer::Name(shader)) == (
            BuildView::Finished(Err(Failure::InvalidArgument)),
            Seq::<Call>::empty(),
        ),
{
}

} // verus!
