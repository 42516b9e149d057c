use glkit::driver::{Command, COLOR_BUFFER_BIT};
use glkit::draw::arrays;
use glkit::error::Error;
use glkit::{clear, get_error};

const TRIANGLES: u32 = 0x0004;

#[test]
fn draw_is_a_single_call_with_the_range() {
    assert_eq!(
        arrays(TRIANGLES, 0, 3),
        Ok(vec![Command::DrawArrays { mode: TRIANGLES, first: 0, count: 3 }])
    );
    assert_eq!(
        arrays(TRIANGLES, 0x7FFF_FFFF, 0x7FFF_FFFF),
        Ok(vec![Command::DrawArrays { mode: TRIANGLES, first: i32::MAX, count: i32::MAX }])
    );
}

#[test]
fn draw_range_beyond_the_drivers_reach_is_invalid() {
    assert_eq!(arrays(TRIANGLES, 0x8000_0000, 3), Err(Error::InvalidArgument));
    assert_eq!(arrays(TRIANGLES, 0, 0x8000_0000), Err(Error::InvalidArgument));
    assert_eq!(arrays(TRIANGLES, usize::MAX, usize::MAX), Err(Error::InvalidArgument));
}

#[test]
fn clear_clears_the_colour_buffer() {
    assert_eq!(clear(), vec![Command::Clear { mask: COLOR_BUFFER_BIT }]);
}

#[test]
fn error_code_is_asked_for_in_one_call() {
    assert_eq!(get_error(), vec![Command::GetError]);
}
