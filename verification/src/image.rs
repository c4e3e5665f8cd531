//! The raster image descriptor.

use vstd::prelude::*;
use crate::frame::{raster_header, row_bytes};

verus! {

/// A simple representation of a black & white image.
///
/// The pixel data is borrowed: a caller that owns a buffer lends it for the
/// duration of the print.
pub struct Image<'a> {
    /// Image width in pixels.
    pub width: u16,
    /// Image height in pixels.
    pub height: u16,
    /// Packed bitmap data (row-major, 1 bit per pixel).
    pub data: &'a [u8],
}

/// The low eight bits of `value`.
fn low_byte(value: u16) -> (b: u8)
    ensures
        b == value % 0x100,
{
    assert(value & 0xFF == value % 0x100) by (bit_vector);
    (value & 0xFF) as u8
}

/// The high eight bits of `value`.
fn high_byte(value: u16) -> (b: u8)
    ensures
        b == value / 0x100,
{
    assert(value >> 8 == value / 0x100) by (bit_vector);
    (value >> 8) as u8
}

impl<'a> Image<'a> {
    /// Whether the data has exactly one packed row for each line of the
    /// image. Nothing in the driver depends on it: an image that is not
    /// consistent is sent as it is, and the printer makes of it what it can.
    pub open spec fn is_consistent(&self) -> bool {
        self.data@.len() == self.height * row_bytes(self.width)
    }

    /// The length of one row in bytes: the width in pixels divided by eight,
    /// rounded up.
    pub fn row_bytes(&self) -> (n: u16)
        ensures
            n == row_bytes(self.width),
    {
        ((self.width as u32 + 7) / 8) as u16
    }

    /// The header that announces this image to the printer. The width goes
    /// into it in bytes, not in pixels; the height in pixels.
    pub fn header(&self) -> (h: [u8; 8])
        ensures
            h@ == raster_header(self.width, self.height),
    {
        let row: u16 = self.row_bytes();
        let x_l: u8 = low_byte(row);
        let x_h: u8 = high_byte(row);
        let y_l: u8 = low_byte(self.height);
        let y_h: u8 = high_byte(self.height);
        [0x1D, 0x76, 0x30, 0x00, x_l, x_h, y_l, y_h]
    }
}

/// Where the data has one packed row for each line, the header announces
/// exactly the data that follows it: rows times row length is the data's
/// length.
pub proof fn lemma_header_announces_data(image: Image<'_>)
    requires
        image.is_consistent(),
    ensures
        ({
            let h = raster_header(image.width, image.height);
            (h[4] + 0x100 * h[5]) * (h[6] + 0x100 * h[7]) == image.data@.len()
        }),
{
    assert(row_bytes(image.width) * image.height == image.height * row_bytes(image.width))
        by (nonlinear_arith);
}

} // verus!
