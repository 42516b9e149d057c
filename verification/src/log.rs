//! The diagnostic log of a shader or a program.
//!
//! The driver keeps one log per object. It is read in two calls: the first
//! asks how long the log is, the second fills a buffer of that length. The
//! driver ends the text with a zero byte; what lies behind it is not text.

use vstd::prelude::*;
use vstd::utf8::{decode_utf8, valid_utf8};

verus! {

use crate::driver::{Call, Command, INFO_LOG_LENGTH};

/// The object whose log is read.
#[derive(Debug, Clone, Copy, PartialEq, Eq)]
pub enum Subject {
    Shader(u32),
    Program(u32),
}

/// The call that asks for the length of the subject's log.
pub open spec fn length_query(subject: Subject) -> Call {
    match subject {
        Subject::Shader(shader) => Call::GetShaderiv { shader, parameter: INFO_LOG_LENGTH },
        Subject::Program(program) => Call::GetProgramiv { program, parameter: INFO_LOG_LENGTH },
    }
}

/// The size of the buffer for a log whose length the driver gave as `length`:
/// that length, and nothing for a length below zero.
pub open spec fn capacity(length: i32) -> i32 {
    if length > 0 {
        length
    } else {
        0
    }
}

/// The call that fetches the subject's log, once its length is known.
pub open spec fn retrieval(subject: Subject, length: i32) -> Call {
    match subject {
        Subject::Shader(shader) => Call::GetShaderInfoLog { shader, capacity: capacity(length) },
        Subject::Program(program) => Call::GetProgramInfoLog {
            program,
            capacity: capacity(length),
        },
    }
}

/// `n` is where the text in `bytes` ends: at the first zero byte, or at the
/// end of the buffer where there is none.
pub open spec fn ends_text(bytes: Seq<u8>, n: int) -> bool {
    &&& 0 <= n <= bytes.len()
    &&& forall|i: int| 0 <= i < n ==> bytes[i] != 0
    &&& n < bytes.len() ==> bytes[n] == 0
}

/// The number of bytes of text in a log buffer.
pub open spec fn text_length(bytes: Seq<u8>) -> int {
    choose|n: int| ends_text(bytes, n)
}

/// What `String::from_utf8_lossy` makes of a byte sequence.
pub uninterp spec fn utf8_lossy(bytes: Seq<u8>) -> Seq<char>;

/// The text that a filled log buffer holds.
pub open spec fn log_text(bytes: Seq<u8>) -> Seq<char> {
    utf8_lossy(bytes.take(text_length(bytes)))
}

/// The text of a buffer ends in one place only.
pub proof fn lemma_text_length_unique(bytes: Seq<u8>, n: int)
    requires
        ends_text(bytes, n),
    ensures
        text_length(bytes) == n,
{
    let m = text_length(bytes);
    assert(ends_text(bytes, m));
    if m < n {
        assert(bytes[m] != 0);
    } else if n < m {
        assert(bytes[n] != 0);
    }
}

/// Every buffer has an end of text, within its bounds.
pub proof fn lemma_text_length_bounds(bytes: Seq<u8>)
    ensures
        ends_text(bytes, text_length(bytes)),
    decreases bytes.len(),
{
    if bytes.len() == 0 {
        assert(ends_text(bytes, 0));
    } else if bytes[0] == 0 {
        assert(ends_text(bytes, 0));
    } else {
        let rest = bytes.drop_first();
        lemma_text_length_bounds(rest);
        let k = text_length(rest);
        assert forall|i: int| 0 <= i < k + 1 implies bytes[i] != 0 by {
            if i > 0 {
                assert(rest[i - 1] != 0);
            }
        }
        if k + 1 < bytes.len() {
            assert(rest[k] == 0);
        }
        assert(ends_text(bytes, k + 1));
    }
}

/// Calls `String::from_utf8_lossy` and takes the result as an owned string.
/// Believed of it: it is a function of the bytes alone; bytes that are valid
/// UTF-8 come out as the characters they encode; and the result is empty for
/// no bytes and for no others, since every ill-formed stretch is replaced by
/// a replacement character and every other byte belongs to a character.
#[verifier::external_body]
fn decode_lossy(bytes: &Vec<u8>) -> (text: String)
    ensures
        text@ == utf8_lossy(bytes@),
        valid_utf8(bytes@) ==> text@ == decode_utf8(bytes@),
        text@.len() == 0 <==> bytes@.len() == 0,
{
    String::from_utf8_lossy(bytes.as_slice()).into_owned()
}

/// The command that asks for the length of the subject's log.
pub fn ask_length(subject: Subject) -> (command: Command)
    ensures
        command@ == length_query(subject),
{
    match subject {
        Subject::Shader(shader) => Command::GetShaderiv { shader, parameter: INFO_LOG_LENGTH },
        Subject::Program(program) => Command::GetProgramiv { program, parameter: INFO_LOG_LENGTH },
    }
}

/// The command that fetches the subject's log into a buffer made for the
/// length that the driver reported.
pub fn ask_text(subject: Subject, length: i32) -> (command: Command)
    ensures
        command@ == retrieval(subject, length),
{
    let capacity: i32 = if length > 0 {
        length
    } else {
        0
    };
    match subject {
        Subject::Shader(shader) => Command::GetShaderInfoLog { shader, capacity },
        Subject::Program(program) => Command::GetProgramInfoLog { program, capacity },
    }
}

/// Reads the text out of a filled log buffer: the bytes before the first
/// zero byte, decoded as UTF-8, with a replacement character for each
/// stretch that is not.
pub fn text_of(bytes: Vec<u8>) -> (text: String)
    ensures
        text@ == log_text(bytes@),
        text@.len() == 0 <==> text_length(bytes@) == 0,
        valid_utf8(bytes@.take(text_length(bytes@))) ==> text@ == decode_utf8(
            bytes@.take(text_length(bytes@)),
        ),
{
    let mut bytes = bytes;
    let ghost filled = bytes@;
    let mut end: usize = 0;
    while end < bytes.len() && bytes[end] != 0
        invariant
            bytes@ == filled,
            end <= bytes.len(),
            forall|i: int| 0 <= i < end ==> filled[i] != 0,
        decreases bytes.len() - end,
    {
        end = end + 1;
    }
    proof {
        lemma_text_length_unique(filled, end as int);
    }
    bytes.truncate(end);
    assert(bytes@ == filled.take(end as int));
    decode_lossy(&bytes)
}

} // verus!
