//! Colours of single LEDs.

use rgb::{ComponentSlice, RGB8};
use vstd::prelude::*;

verus! {

/// The colour of one LED: three intensities of eight bits each.
#[derive(Clone, Copy, Debug, PartialEq, Eq, Structural)]
pub struct Color {
    pub red: u8,
    pub green: u8,
    pub blue: u8,
}

/// The pixel type of the `rgb` crate, taken as opaque: of what a pixel
/// holds only [`rgb_components`] speaks.
#[verifier::external_type_specification]
#[verifier::external_body]
#[verifier::reject_recursive_types(T)]
pub struct ExRgb<T>(rgb::Rgb<T>);

/// The components of a pixel of the `rgb` crate, in the order in which
/// `ComponentSlice::as_slice` hands them out: red, green, blue.
pub uninterp spec fn rgb_components(px: RGB8) -> Seq<u8>;

/// `ComponentSlice::as_slice` on a single pixel: a view of the pixel as the
/// slice of its three components.
#[verifier::external_body]
#[allow(deprecated)]
fn components(px: &RGB8) -> (parts: &[u8])
    ensures
        parts@ == rgb_components(*px),
        parts@.len() == 3,
{
    px.as_slice()
}

impl Color {
    /// The bytes of the colour in the order they go over the wire: green
    /// first, then red, then blue.
    pub open spec fn wire_bytes(self) -> Seq<u8> {
        seq![self.green, self.red, self.blue]
    }

    /// The colour whose red, green and blue are the three `parts`, in this
    /// order.
    pub open spec fn of_components(parts: Seq<u8>) -> Color {
        Color { red: parts[0], green: parts[1], blue: parts[2] }
    }

    pub fn new(red: u8, green: u8, blue: u8) -> (c: Color)
        ensures
            c == (Color { red, green, blue }),
    {
        Color { red, green, blue }
    }

    /// The colour whose red, green and blue are the three `parts`, in this
    /// order; `None` unless there are exactly three.
    pub fn from_components(parts: &[u8]) -> (r: Option<Color>)
        ensures
            r == if parts@.len() == 3 {
                Some(Color::of_components(parts@))
            } else {
                None
            },
    {
        if parts.len() == 3 {
            Some(Color { red: parts[0], green: parts[1], blue: parts[2] })
        } else {
            None
        }
    }

    /// The colour of a pixel of the `rgb` crate.
    pub fn from_rgb8(px: &RGB8) -> (c: Color)
        ensures
            c == Color::of_components(rgb_components(*px)),
    {
        Color::from_components(components(px)).unwrap()
    }

    /// The bytes of the colour in wire order.
    pub fn to_wire(&self) -> (bytes: [u8; 3])
        ensures
            bytes@ == self.wire_bytes(),
    {
        [self.green, self.red, self.blue]
    }
}

} // verus!
