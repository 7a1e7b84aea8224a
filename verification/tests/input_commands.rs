use contour_terrain::input::{command_for, Command, Key, ZOOM_FLOOR_BITS};
use contour_terrain::scalar::Scalar;

fn s(x: f32) -> Scalar {
    Scalar::from_bits(x.to_bits())
}

#[test]
fn the_zoom_floor_is_a_hundredth() {
    assert_eq!(ZOOM_FLOOR_BITS, 0.01f32.to_bits());
}

#[test]
fn arrows_and_letters_pan() {
    let step = s(0.1);
    assert_eq!(command_for(Key::Up, step), Command::PanUp);
    assert_eq!(command_for(Key::Char('w'), step), Command::PanUp);
    assert_eq!(command_for(Key::Down, step), Command::PanDown);
    assert_eq!(command_for(Key::Char('s'), step), Command::PanDown);
    assert_eq!(command_for(Key::Left, step), Command::PanLeft);
    assert_eq!(command_for(Key::Char('a'), step), Command::PanLeft);
    assert_eq!(command_for(Key::Right, step), Command::PanRight);
    assert_eq!(command_for(Key::Char('d'), step), Command::PanRight);
}

#[test]
fn threshold_glyph_set_and_quit_keys() {
    let step = s(0.1);
    assert_eq!(command_for(Key::Char('['), step), Command::LowerThreshold);
    assert_eq!(command_for(Key::Char(']'), step), Command::RaiseThreshold);
    assert_eq!(command_for(Key::Char('u'), step), Command::ToggleGlyphs);
    assert_eq!(command_for(Key::Char('q'), step), Command::Quit);
    assert_eq!(command_for(Key::Esc, step), Command::Quit);
}

#[test]
fn zooming_out_is_always_granted() {
    assert_eq!(command_for(Key::Char('-'), s(0.1)), Command::ZoomOut);
    assert_eq!(command_for(Key::Char('-'), s(0.01)), Command::ZoomOut);
    assert_eq!(command_for(Key::Char('-'), s(0.0)), Command::ZoomOut);
    assert_eq!(command_for(Key::Char('-'), s(f32::NAN)), Command::ZoomOut);
}

#[test]
fn zooming_in_stops_at_the_floor() {
    assert_eq!(command_for(Key::Char('='), s(0.1)), Command::ZoomIn);
    assert_eq!(command_for(Key::Char('='), s(0.011)), Command::ZoomIn);
    let just_above = f32::from_bits(0.01f32.to_bits() + 1);
    assert_eq!(command_for(Key::Char('='), s(just_above)), Command::ZoomIn);
    assert_eq!(command_for(Key::Char('='), s(0.01)), Command::Nothing);
    assert_eq!(command_for(Key::Char('='), s(0.009)), Command::Nothing);
    assert_eq!(command_for(Key::Char('='), s(0.0)), Command::Nothing);
    assert_eq!(command_for(Key::Char('='), s(-1.0)), Command::Nothing);
    assert_eq!(command_for(Key::Char('='), s(f32::NAN)), Command::Nothing);
    assert_eq!(command_for(Key::Char('='), s(f32::INFINITY)), Command::ZoomIn);
}

#[test]
fn other_keys_change_nothing() {
    let step = s(0.1);
    assert_eq!(command_for(Key::Other, step), Command::Nothing);
    assert_eq!(command_for(Key::Char('x'), step), Command::Nothing);
    assert_eq!(command_for(Key::Char('W'), step), Command::Nothing);
    assert_eq!(command_for(Key::Char('+'), step), Command::Nothing);
    assert_eq!(command_for(Key::Char(' '), step), Command::Nothing);
}
