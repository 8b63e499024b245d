use vstd::prelude::*;

verus! {

/// An atomic fixture state change: set the color, the brightness, or the
/// power of the lamp. Value type, copyable, no identity.
#[derive(Clone, Copy, Debug, PartialEq, Eq, Structural)]
pub enum SetState {
    /// red, green and blue channels, each from 0 to 255
    Color(u8, u8, u8),
    /// from 1 to 100
    Brightness(u8),
    /// on or off
    Power(bool),
}

/// The lamp state reported by the vendor API.
#[derive(Clone, Copy, Debug, PartialEq, Eq, Structural)]
pub struct GetState {
    /// red channel, 0 to 255
    pub r: u8,
    /// green channel, 0 to 255
    pub g: u8,
    /// blue channel, 0 to 255
    pub b: u8,
    /// from 1 to 100
    pub brightness: u8,
    /// on or off
    pub power: bool,
}

impl SetState {
    /// Name of the vendor API command that applies this state change.
    pub open spec fn spec_command_name(&self) -> Seq<char> {
        match self {
            SetState::Color(_, _, _) => "color"@,
            SetState::Brightness(_) => "brightness"@,
            SetState::Power(_) => "turn"@,
        }
    }

    /// The command name the vendor API expects for this kind of state change.
    pub fn command_name(&self) -> (r: &'static str)
        ensures
            r@ == self.spec_command_name(),
    {
        match self {
            SetState::Color(_, _, _) => "color",
            SetState::Brightness(_) => "brightness",
            SetState::Power(_) => "turn",
        }
    }
}

/// A brightness limited to the range the vendor API accepts, 1 to 100.
pub open spec fn spec_clamped_brightness(b: u8) -> u8 {
    if b < 1 {
        1
    } else if b > 100 {
        100
    } else {
        b
    }
}

/// Limits a brightness to the 1..=100 range the vendor API accepts.
pub fn clamped_brightness(b: u8) -> (r: u8)
    ensures
        r == spec_clamped_brightness(b),
        1 <= r <= 100,
{
    if b < 1 {
        1
    } else if b > 100 {
        100
    } else {
        b
    }
}

/// The value the vendor API expects for a power command.
pub fn power_value(on: bool) -> (r: &'static str)
    ensures
        on ==> r@ == "on"@,
        !on ==> r@ == "off"@,
{
    if on {
        "on"
    } else {
        "off"
    }
}

} // verus!
