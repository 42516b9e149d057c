use glkit::driver::{Command, Reply};
use glkit::error::Error;
use glkit::uniform::{get_location, set_float_vec2, set_float_vec3, Lookup, Write};

fn bits(values: &[f32]) -> Vec<u32> {
    values.iter().map(|value| value.to_bits()).collect()
}

#[test]
fn vec3_needs_three_elements() {
    for data in [bits(&[]), bits(&[1.0]), bits(&[1.0, 2.0])] {
        let (state, batch) = set_float_vec3(5, "light", &data);
        assert_eq!(state, Write::Finished(Err(Error::InvalidArgument)));
        assert!(batch.is_empty());
    }
}

#[test]
fn vec2_needs_two_elements() {
    for data in [bits(&[]), bits(&[1.0])] {
        let (state, batch) = set_float_vec2(5, "scale", &data);
        assert_eq!(state, Write::Finished(Err(Error::InvalidArgument)));
        assert!(batch.is_empty());
    }
}

#[test]
fn vec3_writes_the_first_three_elements() {
    let data = bits(&[0.5, -1.0, 2.0, 9.0, 9.0]);
    let (state, batch) = set_float_vec3(5, "light", &data);
    assert_eq!(
        state,
        Write::Locating3 { x: 0.5f32.to_bits(), y: (-1.0f32).to_bits(), z: 2.0f32.to_bits() }
    );
    assert_eq!(
        batch,
        vec![Command::GetUniformLocation { program: 5, name: String::from("light") }]
    );
    let (state, batch) = state.advance(Reply::Value(2));
    assert_eq!(state, Write::Finished(Ok(())));
    assert_eq!(
        batch,
        vec![Command::Uniform3fv {
            location: 2,
            x: 0.5f32.to_bits(),
            y: (-1.0f32).to_bits(),
            z: 2.0f32.to_bits(),
        }]
    );
}

#[test]
fn vec2_writes_the_first_two_elements() {
    let data = bits(&[0.25, 4.0, 9.0]);
    let (state, _) = set_float_vec2(5, "scale", &data);
    let (state, batch) = state.advance(Reply::Value(0));
    assert_eq!(state, Write::Finished(Ok(())));
    assert_eq!(
        batch,
        vec![Command::Uniform2fv { location: 0, x: 0.25f32.to_bits(), y: 4.0f32.to_bits() }]
    );
}

#[test]
fn absent_uniform_resolves_to_minus_one_and_the_write_succeeds() {
    let data = bits(&[1.0, 2.0, 3.0]);
    let (state, _) = set_float_vec3(5, "unused", &data);
    let (state, batch) = state.advance(Reply::Value(-1));
    assert_eq!(state, Write::Finished(Ok(())));
    assert_eq!(
        batch,
        vec![Command::Uniform3fv {
            location: -1,
            x: 1.0f32.to_bits(),
            y: 2.0f32.to_bits(),
            z: 3.0f32.to_bits(),
        }]
    );
}

#[test]
fn name_with_a_nul_character_is_invalid() {
    let data = bits(&[1.0, 2.0, 3.0]);
    let (state, batch) = set_float_vec3(5, "li\0ght", &data);
    assert_eq!(state, Write::Finished(Err(Error::InvalidArgument)));
    assert!(batch.is_empty());
    let (state, _) = set_float_vec2(5, "\0", &data);
    assert_eq!(state, Write::Finished(Err(Error::InvalidArgument)));
}

#[test]
fn names_are_passed_as_they_are() {
    let data = bits(&[1.0, 2.0]);
    let (_, batch) = set_float_vec2(5, "", &data);
    assert_eq!(batch, vec![Command::GetUniformLocation { program: 5, name: String::new() }]);
    let (_, batch) = set_float_vec2(5, "gr\u{00F6}\u{00DF}e[0].x", &data);
    assert_eq!(
        batch,
        vec![Command::GetUniformLocation {
            program: 5,
            name: String::from("gr\u{00F6}\u{00DF}e[0].x"),
        }]
    );
}

#[test]
fn write_refuses_an_answer_that_is_no_location() {
    let (state, batch) = Write::Locating2 { x: 0, y: 0 }.advance(Reply::Name(1));
    assert_eq!(state, Write::Finished(Err(Error::InvalidArgument)));
    assert!(batch.is_empty());
}

#[test]
fn lookup_is_one_call_and_hands_the_location_on() {
    let (state, batch) = get_location(5, "light");
    assert_eq!(state, Lookup::Resolving);
    assert_eq!(
        batch,
        vec![Command::GetUniformLocation { program: 5, name: String::from("light") }]
    );
    let (state, batch) = state.advance(Reply::Value(3));
    assert_eq!(state, Lookup::Finished(Ok(3)));
    assert!(batch.is_empty());
}

#[test]
fn lookup_of_an_absent_uniform_gives_minus_one_without_failure() {
    let (state, batch) = get_location(5, "unused");
    assert_eq!(batch.len(), 1);
    let (state, batch) = state.advance(Reply::Value(-1));
    assert_eq!(state, Lookup::Finished(Ok(-1)));
    assert!(batch.is_empty());
}

#[test]
fn lookup_refuses_a_nul_in_the_name_and_an_answer_that_is_no_location() {
    let (state, batch) = get_location(5, "un\0used");
    assert_eq!(state, Lookup::Finished(Err(Error::InvalidArgument)));
    assert!(batch.is_empty());
    let (state, _) = get_location(5, "light");
    assert_eq!(state.advance(Reply::Name(3)).0, Lookup::Finished(Err(Error::InvalidArgument)));
    assert_eq!(
        Lookup::Finished(Ok(-1)).advance(Reply::Value(4)).0,
        Lookup::Finished(Ok(-1))
    );
}
