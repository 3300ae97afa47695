//! Core library of an e-paper badge that displays a "system": a named owner
//! together with an ordered roster of members, each carrying a name and
//! pronouns.
//!
//! The library covers the on-flash binary roster format, the owned roster
//! builder, the validating flash-region reader, the on-device menu state
//! machine, and the decision logic of the vendor USB control protocol with
//! its background flash-update task.

use vstd::prelude::*;

pub mod badge;
pub mod binding;
pub mod binfmt;
pub mod downloaders;
pub mod draw;
pub mod file;
pub mod hashes;
pub mod protocol;
pub mod system;
pub mod text;
pub mod uf2;
pub mod usb;

verus! {

/// The physical buttons on the badge.
#[derive(Eq, PartialEq, Structural, Debug, Clone, Copy)]
pub enum Button {
    A,
    B,
    C,
    D,
    Up,
    Down,
    USER,
}

impl Button {
    /// The wire code of this button, as used by the USB `ButtonPress` request.
    pub open spec fn spec_code(self) -> u8 {
        match self {
            Button::A => 0,
            Button::B => 1,
            Button::C => 2,
            Button::D => 3,
            Button::Up => 4,
            Button::Down => 5,
            Button::USER => 6,
        }
    }

    pub fn code(self) -> (r: u8)
        ensures
            r == self.spec_code(),
    {
        match self {
            Button::A => 0,
            Button::B => 1,
            Button::C => 2,
            Button::D => 3,
            Button::Up => 4,
            Button::Down => 5,
            Button::USER => 6,
        }
    }

    /// Decodes a wire code back into a button; inverse of `code` exactly on
    /// the seven assigned codes.
    pub fn from_u8(value: u8) -> (r: Option<Button>)
        ensures
            r matches Some(b) ==> b.spec_code() == value,
            r is None <==> value >= 7,
    {
        match value {
            0 => Some(Button::A),
            1 => Some(Button::B),
            2 => Some(Button::C),
            3 => Some(Button::D),
            4 => Some(Button::Up),
            5 => Some(Button::Down),
            6 => Some(Button::USER),
            _ => None,
        }
    }
}

/// Width of the badge's e-paper panel in pixels.
pub const WIDTH: u32 = 296;

/// Height of the badge's e-paper panel in pixels.
pub const HEIGHT: u32 = 128;

} // verus!
