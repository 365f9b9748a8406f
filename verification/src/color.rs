//! Colours with channels in thousandths of full intensity.

use vstd::prelude::*;

verus! {

/// Largest value of a colour channel: full intensity.
pub const CHANNEL_MAX: u16 = 1000;

/// One of the four channels of a colour, in the order they are checked.
#[derive(Clone, Copy, PartialEq, Eq, Structural, Debug)]
pub enum Channel {
    Red,
    Green,
    Blue,
    Alpha,
}

/// A channel value above [`CHANNEL_MAX`] was given for a colour.
#[derive(Clone, Copy, PartialEq, Eq, Structural, Debug)]
pub struct ConfigurationError {
    /// The first channel, in the order red, green, blue, alpha, that is out of range.
    pub channel: Channel,
    /// The value that was given for it.
    pub value: u16,
}

/// The channels of a colour as mathematical integers.
pub struct Rgba {
    pub red: int,
    pub green: int,
    pub blue: int,
    pub alpha: int,
}

impl Rgba {
    /// Every channel lies between zero and full intensity.
    pub open spec fn in_range(self) -> bool {
        &&& 0 <= self.red <= CHANNEL_MAX
        &&& 0 <= self.green <= CHANNEL_MAX
        &&& 0 <= self.blue <= CHANNEL_MAX
        &&& 0 <= self.alpha <= CHANNEL_MAX
    }
}

/// An RGBA colour. Each channel is a number of thousandths between 0 and
/// [`CHANNEL_MAX`]; the type admits no other value.
#[derive(Clone, Copy, PartialEq, Eq, Structural, Debug)]
pub struct Color {
    red: u16,
    green: u16,
    blue: u16,
    alpha: u16,
}

impl View for Color {
    type V = Rgba;

    closed spec fn view(&self) -> Rgba {
        Rgba {
            red: self.red as int,
            green: self.green as int,
            blue: self.blue as int,
            alpha: self.alpha as int,
        }
    }
}

/// The first of four channel values that exceeds [`CHANNEL_MAX`], if any does.
pub open spec fn first_out_of_range(red: u16, green: u16, blue: u16, alpha: u16) -> Option<
    ConfigurationError,
> {
    if red > CHANNEL_MAX {
        Some(ConfigurationError { channel: Channel::Red, value: red })
    } else if green > CHANNEL_MAX {
        Some(ConfigurationError { channel: Channel::Green, value: green })
    } else if blue > CHANNEL_MAX {
        Some(ConfigurationError { channel: Channel::Blue, value: blue })
    } else if alpha > CHANNEL_MAX {
        Some(ConfigurationError { channel: Channel::Alpha, value: alpha })
    } else {
        None
    }
}

impl Color {
    /// What every value of the type meets: no channel is above full intensity.
    #[verifier::type_invariant]
    pub open spec fn channels_in_range(self) -> bool {
        self@.in_range()
    }

    /// Builds a colour from four channel values in thousandths.
    ///
    /// Fails on the first channel above [`CHANNEL_MAX`], naming it and its value.
    pub fn new(red: u16, green: u16, blue: u16, alpha: u16) -> (color: Result<
        Color,
        ConfigurationError,
    >)
        ensures
            match color {
                Ok(c) => {
                    &&& first_out_of_range(red, green, blue, alpha) is None
                    &&& c@ == (Rgba {
                        red: red as int,
                        green: green as int,
                        blue: blue as int,
                        alpha: alpha as int,
                    })
                },
                Err(e) => first_out_of_range(red, green, blue, alpha) == Some(e),
            },
    {
        if red > CHANNEL_MAX {
            Err(ConfigurationError { channel: Channel::Red, value: red })
        } else if green > CHANNEL_MAX {
            Err(ConfigurationError { channel: Channel::Green, value: green })
        } else if blue > CHANNEL_MAX {
            Err(ConfigurationError { channel: Channel::Blue, value: blue })
        } else if alpha > CHANNEL_MAX {
            Err(ConfigurationError { channel: Channel::Alpha, value: alpha })
        } else {
            Ok(Color { red, green, blue, alpha })
        }
    }

    /// The four channels in the order red, green, blue, alpha.
    pub fn channels(&self) -> (channels: (u16, u16, u16, u16))
        ensures
            channels.0 == self@.red,
            channels.1 == self@.green,
            channels.2 == self@.blue,
            channels.3 == self@.alpha,
            self@.in_range(),
    {
        proof {
            use_type_invariant(self);
        }
        (self.red, self.green, self.blue, self.alpha)
    }

    /// A colour known to be valid because each channel is at most [`CHANNEL_MAX`].
    pub(crate) fn from_thousandths(red: u16, green: u16, blue: u16, alpha: u16) -> (color: Color)
        requires
            red <= CHANNEL_MAX,
            green <= CHANNEL_MAX,
            blue <= CHANNEL_MAX,
            alpha <= CHANNEL_MAX,
        ensures
            color@ == (Rgba {
                red: red as int,
                green: green as int,
                blue: blue as int,
                alpha: alpha as int,
            }),
    {
        Color { red, green, blue, alpha }
    }
}

/// Two colours with the same channels are the same colour.
pub proof fn lemma_color_determined_by_channels(a: Color, b: Color)
    requires
        a@ == b@,
    ensures
        a == b,
{
}

} // verus!
