//! Input decisions: which command a key press stands for.
//!
//! The terminal hands over a key and the loop around it carries the command
//! out: panning and zooming are arithmetic on the viewport's real numbers.
//! What is decided here is which command a key means, and whether the zoom
//! may still go in.

use vstd::arithmetic::power2::lemma2_to64;
use vstd::prelude::*;
use crate::scalar::Scalar;

verus! {

/// A key press, as far as the viewer tells keys apart.
#[derive(Clone, Copy, Debug, PartialEq, Eq, Structural)]
pub enum Key {
    Char(char),
    Up,
    Down,
    Left,
    Right,
    Esc,
    /// Any key without a meaning of its own.
    Other,
}

/// What a key press asks for.
#[derive(Clone, Copy, Debug, PartialEq, Eq, Structural)]
pub enum Command {
    /// Move the pan point up by one step (`starty` shrinks).
    PanUp,
    /// Move the pan point down by one step (`starty` grows).
    PanDown,
    /// Move the pan point left by one step.
    PanLeft,
    /// Move the pan point right by one step.
    PanRight,
    /// Shrink the step by a thousandth.
    ZoomIn,
    /// Grow the step by a thousandth.
    ZoomOut,
    /// Lower the threshold by a hundredth.
    LowerThreshold,
    /// Raise the threshold by a hundredth.
    RaiseThreshold,
    /// Switch between the ASCII and the box-drawing glyphs.
    ToggleGlyphs,
    /// Leave the loop.
    Quit,
    /// Change nothing; the frame is still drawn again.
    Nothing,
}

/// The encoding of the single-precision number nearest to 0.01: the step
/// must lie strictly above it for the zoom to go further in.
pub const ZOOM_FLOOR_BITS: u32 = 0x3c23_d70a;

/// The zoom floor.
pub open spec fn zoom_floor() -> Scalar {
    Scalar { bits: ZOOM_FLOOR_BITS }
}

/// The command of a key under the current step. `=` zooms in only while
/// the step is above the floor, so that the step stays positive.
pub open spec fn command_of(key: Key, step: Scalar) -> Command {
    match key {
        Key::Up => Command::PanUp,
        Key::Down => Command::PanDown,
        Key::Left => Command::PanLeft,
        Key::Right => Command::PanRight,
        Key::Esc => Command::Quit,
        Key::Other => Command::Nothing,
        Key::Char(c) => {
            if c == 'w' {
                Command::PanUp
            } else if c == 's' {
                Command::PanDown
            } else if c == 'a' {
                Command::PanLeft
            } else if c == 'd' {
                Command::PanRight
            } else if c == '=' {
                if step.spec_gt(zoom_floor()) {
                    Command::ZoomIn
                } else {
                    Command::Nothing
                }
            } else if c == '-' {
                Command::ZoomOut
            } else if c == '[' {
                Command::LowerThreshold
            } else if c == ']' {
                Command::RaiseThreshold
            } else if c == 'u' {
                Command::ToggleGlyphs
            } else if c == 'q' {
                Command::Quit
            } else {
                Command::Nothing
            }
        },
    }
}

/// Decides the command for a key press.
pub fn command_for(key: Key, step: Scalar) -> (command: Command)
    ensures
        command == command_of(key, step),
{
    match key {
        Key::Up => Command::PanUp,
        Key::Down => Command::PanDown,
        Key::Left => Command::PanLeft,
        Key::Right => Command::PanRight,
        Key::Esc => Command::Quit,
        Key::Other => Command::Nothing,
        Key::Char(c) => match c {
            'w' => Command::PanUp,
            's' => Command::PanDown,
            'a' => Command::PanLeft,
            'd' => Command::PanRight,
            '=' => {
                if step.gt(Scalar::from_bits(ZOOM_FLOOR_BITS)) {
                    Command::ZoomIn
                } else {
                    Command::Nothing
                }
            },
            '-' => Command::ZoomOut,
            '[' => Command::LowerThreshold,
            ']' => Command::RaiseThreshold,
            'u' => Command::ToggleGlyphs,
            'q' => Command::Quit,
            _ => Command::Nothing,
        },
    }
}

/// Zooming in is only ever granted to a step that is a number above the
/// floor, hence positive.
pub proof fn lemma_zoom_in_keeps_step_positive(key: Key, step: Scalar)
    requires
        command_of(key, step) == Command::ZoomIn,
    ensures
        !step.is_nan_spec(),
        step.key() > zoom_floor().key() > 0,
{
}

/// The zoom floor is a single-precision number nearest to a hundredth.
pub proof fn lemma_zoom_floor_rounds_hundredth()
    ensures
        zoom_floor().rounds(1, 100),
{
    lemma2_to64();
}

} // verus!
