use glkit::driver::{Command, Reply, COMPILE_STATUS, INFO_LOG_LENGTH};
use glkit::error::Error;
use glkit::shader::{new_from_file, new_from_string, Build};

const VERTEX_SHADER: u32 = 0x8B31;

fn source() -> String {
    String::from("void main() { gl_Position = vec4(0.0); }")
}

#[test]
fn build_starts_by_requesting_a_shader_of_the_kind() {
    let (state, batch) = new_from_string(VERTEX_SHADER, source());
    assert_eq!(state, Build::Creating { source: source() });
    assert_eq!(batch, vec![Command::CreateShader { kind: VERTEX_SHADER }]);
}

#[test]
fn source_is_submitted_verbatim_then_compiled_then_checked() {
    let (state, _) = new_from_string(VERTEX_SHADER, source());
    let (state, batch) = state.advance(Reply::Name(7));
    assert_eq!(state, Build::Compiling { shader: 7 });
    assert_eq!(
        batch,
        vec![
            Command::ShaderSource { shader: 7, source: source() },
            Command::CompileShader { shader: 7 },
            Command::GetShaderiv { shader: 7, parameter: COMPILE_STATUS },
        ]
    );
}

#[test]
fn accepted_source_yields_the_handle_and_no_log() {
    let (state, _) = new_from_string(VERTEX_SHADER, source());
    let (state, _) = state.advance(Reply::Name(7));
    let (state, batch) = state.advance(Reply::Value(1));
    assert_eq!(state, Build::Finished(Ok(7)));
    assert!(batch.is_empty());
}

#[test]
fn rejected_source_yields_the_log_as_compile_error() {
    let (state, _) = new_from_string(VERTEX_SHADER, String::from("void main( {"));
    let (state, _) = state.advance(Reply::Name(3));
    let (state, batch) = state.advance(Reply::Value(0));
    assert_eq!(state, Build::Measuring { shader: 3 });
    assert_eq!(batch, vec![Command::GetShaderiv { shader: 3, parameter: INFO_LOG_LENGTH }]);
    let (state, batch) = state.advance(Reply::Value(24));
    assert_eq!(state, Build::Fetching { shader: 3 });
    assert_eq!(batch, vec![Command::GetShaderInfoLog { shader: 3, capacity: 24 }]);
    let mut filled = b"0:1: syntax error at '{'".to_vec();
    filled[23] = 0;
    let (state, batch) = state.advance(Reply::Bytes(filled));
    assert_eq!(
        state,
        Build::Finished(Err(Error::CompileError(String::from("0:1: syntax error at '{"))))
    );
    assert!(batch.is_empty());
}

#[test]
fn log_text_ends_at_the_first_zero_byte() {
    let (state, _) = Build::Fetching { shader: 3 }.advance(Reply::Bytes(b"bad\0left over\0".to_vec()));
    assert_eq!(state, Build::Finished(Err(Error::CompileError(String::from("bad")))));
}

#[test]
fn log_without_zero_byte_is_taken_whole() {
    let (state, _) = Build::Fetching { shader: 3 }.advance(Reply::Bytes(b"bad".to_vec()));
    assert_eq!(state, Build::Finished(Err(Error::CompileError(String::from("bad")))));
}

#[test]
fn log_that_is_not_utf8_is_decoded_with_replacement_characters() {
    let (state, _) = Build::Fetching { shader: 3 }.advance(Reply::Bytes(vec![b'a', 0xFF, b'b', 0]));
    assert_eq!(
        state,
        Build::Finished(Err(Error::CompileError(String::from("a\u{FFFD}b"))))
    );
}

#[test]
fn utf8_log_is_decoded_as_it_is() {
    let (state, _) =
        Build::Fetching { shader: 3 }.advance(Reply::Bytes("Fehler: \u{00FC}\0".as_bytes().to_vec()));
    assert_eq!(
        state,
        Build::Finished(Err(Error::CompileError(String::from("Fehler: \u{00FC}"))))
    );
}

#[test]
fn empty_log_is_an_empty_text() {
    let (state, batch) = Build::Measuring { shader: 3 }.advance(Reply::Value(0));
    assert_eq!(batch, vec![Command::GetShaderInfoLog { shader: 3, capacity: 0 }]);
    let (state, _) = state.advance(Reply::Bytes(Vec::new()));
    assert_eq!(state, Build::Finished(Err(Error::CompileError(String::new()))));
}

#[test]
fn negative_log_length_asks_for_no_bytes() {
    let (_, batch) = Build::Measuring { shader: 3 }.advance(Reply::Value(-5));
    assert_eq!(batch, vec![Command::GetShaderInfoLog { shader: 3, capacity: 0 }]);
}

#[test]
fn zero_handle_is_an_allocation_error() {
    let (state, _) = new_from_string(0xFFFF, source());
    let (state, batch) = state.advance(Reply::Name(0));
    assert_eq!(state, Build::Finished(Err(Error::AllocationError)));
    assert!(batch.is_empty());
}

#[test]
fn unreadable_file_is_an_io_error_not_a_compile_error() {
    let read: Result<String, String> =
        Err(String::from("No such file or directory (os error 2)"));
    let (state, batch) = new_from_file(VERTEX_SHADER, read);
    assert_eq!(
        state,
        Build::Finished(Err(Error::IoError(String::from("No such file or directory (os error 2)"))))
    );
    assert!(batch.is_empty());
}

#[test]
fn readable_file_is_built_like_a_string() {
    let (state, batch) = new_from_file(VERTEX_SHADER, Ok(source()));
    assert_eq!(state, Build::Creating { source: source() });
    assert_eq!(batch, vec![Command::CreateShader { kind: VERTEX_SHADER }]);
}

#[test]
fn answer_of_the_wrong_kind_is_an_invalid_argument() {
    let (state, _) = new_from_string(VERTEX_SHADER, source());
    let (state, batch) = state.advance(Reply::Value(7));
    assert_eq!(state, Build::Finished(Err(Error::InvalidArgument)));
    assert!(batch.is_empty());
    let (state, _) = Build::Compiling { shader: 7 }.advance(Reply::Nothing);
    assert_eq!(state, Build::Finished(Err(Error::InvalidArgument)));
}

#[test]
fn finished_build_stays_finished() {
    let (state, batch) = Build::Finished(Ok(7)).advance(Reply::Value(0));
    assert_eq!(state, Build::Finished(Ok(7)));
    assert!(batch.is_empty());
}
