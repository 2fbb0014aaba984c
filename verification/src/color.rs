//! The colour of the RGB LED and its hexadecimal notation.
//!
//! Reading and writing the `#rrggbb` notation is done by the
//! `colors_transform` crate; the two functions that call it are the only
//! unproved code in this module.

use vstd::prelude::*;

verus! {

/// A colour as three 8-bit channel intensities.
#[derive(Clone, Copy, Debug, PartialEq, Eq, Structural)]
pub struct Rgb {
    pub red: u8,
    pub green: u8,
    pub blue: u8,
}

/// What `colors_transform` reads from `text` as a hexadecimal colour: the
/// three channels, or `None` where it rejects the text.
pub uninterp spec fn hex_color(text: Seq<char>) -> Option<(u8, u8, u8)>;

/// The sixteen lower-case hexadecimal digits, in order.
pub open spec fn hex_digits() -> Seq<char> {
    seq!['0', '1', '2', '3', '4', '5', '6', '7', '8', '9', 'a', 'b', 'c', 'd', 'e', 'f']
}

/// The two hexadecimal digits of one channel, high digit first.
pub open spec fn hex_pair(channel: u8) -> Seq<char> {
    seq![hex_digits()[channel as int / 16], hex_digits()[channel as int % 16]]
}

/// The CSS notation of a colour: `#`, then two lower-case hexadecimal digits
/// for each of red, green and blue.
pub open spec fn css_hex(color: Rgb) -> Seq<char> {
    seq!['#'] + hex_pair(color.red) + hex_pair(color.green) + hex_pair(color.blue)
}

/// The colour that a parsed hexadecimal text stands for.
pub open spec fn color_of(channels: Option<(u8, u8, u8)>) -> Option<Rgb> {
    match channels {
        Some((red, green, blue)) => Some(Rgb { red, green, blue }),
        None => None,
    }
}

/// Calls `colors_transform::Rgb::from_hex_str` and hands back the channels it
/// read. The call depends on `text` alone, so its result is named
/// [`hex_color`]; a text that the crate rejects gives `None`. The crate
/// returns whole channel values between 0 and 255, which the conversion to
/// `u8` keeps as they are.
#[verifier::external_body]
fn read_hex(text: &str) -> (out: Option<(u8, u8, u8)>)
    ensures
        out == hex_color(text@),
{
    match colors_transform::Rgb::from_hex_str(text) {
        Ok(rgb) => Some((
            colors_transform::Color::get_red(&rgb) as u8,
            colors_transform::Color::get_green(&rgb) as u8,
            colors_transform::Color::get_blue(&rgb) as u8,
        )),
        Err(_) => None,
    }
}

/// Calls `colors_transform::Rgb::to_css_hex_string` on the colour with the
/// given channels. The crate documents the result as the CSS hexadecimal
/// string, in lower case and with no reductions: [`css_hex`] spells that out.
#[verifier::external_body]
fn write_hex(red: u8, green: u8, blue: u8) -> (out: String)
    ensures
        out@ == css_hex(Rgb { red, green, blue }),
{
    colors_transform::Rgb::from(red.into(), green.into(), blue.into()).to_css_hex_string()
}

impl Rgb {
    /// A colour from its three channels.
    pub fn new(red: u8, green: u8, blue: u8) -> (out: Rgb)
        ensures
            out == (Rgb { red, green, blue }),
    {
        Rgb { red, green, blue }
    }

    /// The channels in the order the LED driver takes them: red, green, blue.
    pub fn pixel(&self) -> (out: (u8, u8, u8))
        ensures
            out == (self.red, self.green, self.blue),
    {
        (self.red, self.green, self.blue)
    }

    /// Parses a hexadecimal colour such as `#00ff00`.
    ///
    /// Returns the colour exactly when `colors_transform` accepts the text,
    /// with the channels it read.
    pub fn from_hex_str(text: &str) -> (out: Option<Rgb>)
        ensures
            out == color_of(hex_color(text@)),
    {
        match read_hex(text) {
            Some((red, green, blue)) => Some(Rgb { red, green, blue }),
            None => None,
        }
    }

    /// The colour in CSS notation, `#rrggbb` in lower case.
    pub fn to_css_hex_string(&self) -> (out: String)
        ensures
            out@ == css_hex(*self),
    {
        write_hex(self.red, self.green, self.blue)
    }
}

} // verus!
