//! The printer facade: one method per printer operation.
//!
//! A printer owns its transport and keeps no state of its own. Each operation
//! encodes its command and hands it to the transport at once, in one write;
//! the two operations that need two writes stop at the first that fails.
//! Whatever the transport reports is handed back to the caller unchanged.

use vstd::prelude::*;
use vstd::string::StringSliceAdditionalSpecFns;
use crate::command::{Align, CutMode, Density, Font, Justification, PrintSpeed, UnderlineMode};
use crate::frame::{
    align_frame,
    baud_rate_frame,
    black_mark_frame,
    bold_frame,
    cut_frame,
    density_frame,
    feed_frame,
    font_frame,
    invert_frame,
    justification_frame,
    le_bytes,
    max_speed_frame,
    newline,
    print_speed_frame,
    raster_header,
    size_frame,
    underline_frame,
};
use crate::image::Image;
use crate::transport::{
    accepted_bytes,
    lemma_pair_success,
    lemma_two_writes_make_a_pair,
    logged,
    wrote_pair,
    Write,
    WriteRecord,
};

verus! {

/// Splits `value` into its four bytes, least significant first.
fn le_bytes_of(value: u32) -> (b: [u8; 4])
    ensures
        b@ == le_bytes(value),
{
    assert(value & 0xFF == value % 0x100) by (bit_vector);
    assert((value >> 8) & 0xFF == value / 0x100 % 0x100) by (bit_vector);
    assert((value >> 16) & 0xFF == value / 0x1_0000 % 0x100) by (bit_vector);
    assert(value >> 24 == value / 0x100_0000) by (bit_vector);
    [
        (value & 0xFF) as u8,
        ((value >> 8) & 0xFF) as u8,
        ((value >> 16) & 0xFF) as u8,
        (value >> 24) as u8,
    ]
}

/// A simple ESC/POS printer driver.
pub struct Printer<T: Write> {
    transport: T,
}

impl<T: Write> Printer<T> {
    /// The transport this printer sends through.
    pub closed spec fn transport(&self) -> T {
        self.transport
    }

    /// Every write request this printer's transport has seen, oldest first,
    /// or `None` where the transport keeps no log.
    pub open spec fn sent(&self) -> Option<Seq<WriteRecord<T::Error>>> {
        self.transport().write_log()
    }

    /// Create a new printer from the given transport.
    pub fn new(transport: T) -> (p: Self)
        ensures
            p.transport() == transport,
    {
        Self { transport }
    }

    /// Write raw text to the printer: its UTF-8 bytes as they are, with no
    /// escaping.
    pub fn write(&mut self, text: &str) -> (r: Result<(), T::Error>)
        ensures
            final(self).sent() == logged(
                old(self).sent(),
                WriteRecord { data: text.spec_bytes(), result: r },
            ),
    {
        self.transport.write(text.as_bytes())
    }

    /// Write text followed by a newline, the newline in a write of its own.
    pub fn write_line(&mut self, text: &str) -> (r: Result<(), T::Error>)
        ensures
            wrote_pair(old(self).sent(), text.spec_bytes(), newline(), r, final(self).sent()),
    {
        match self.write(text) {
            Ok(done) => {
                assert(done == ());
                let end: [u8; 1] = [0x0A];
                assert(end@ == newline());
                self.transport.write(&end)
            },
            Err(e) => Err(e),
        }
    }

    /// Feed the specified number of lines.
    pub fn feed(&mut self, lines: u8) -> (r: Result<(), T::Error>)
        ensures
            final(self).sent() == logged(
                old(self).sent(),
                WriteRecord { data: feed_frame(lines), result: r },
            ),
    {
        self.raw(&[0x1B, 0x64, lines])
    }

    /// Cut the paper using the given mode.
    pub fn cut(&mut self, mode: CutMode) -> (r: Result<(), T::Error>)
        ensures
            final(self).sent() == logged(
                old(self).sent(),
                WriteRecord { data: cut_frame(mode), result: r },
            ),
    {
        self.raw(&[0x1D, 0x56, mode.as_byte()])
    }

    /// Enable or disable bold mode.
    pub fn set_bold(&mut self, on: bool) -> (r: Result<(), T::Error>)
        ensures
            final(self).sent() == logged(
                old(self).sent(),
                WriteRecord { data: bold_frame(on), result: r },
            ),
    {
        let flag: u8 = if on { 0x01 } else { 0x00 };
        self.raw(&[0x1B, 0x45, flag])
    }

    /// Set underline mode.
    pub fn set_underline(&mut self, mode: UnderlineMode) -> (r: Result<(), T::Error>)
        ensures
            final(self).sent() == logged(
                old(self).sent(),
                WriteRecord { data: underline_frame(mode), result: r },
            ),
    {
        self.raw(&[0x1B, 0x2D, mode.as_byte()])
    }

    /// Set text alignment.
    pub fn set_align(&mut self, align: Align) -> (r: Result<(), T::Error>)
        ensures
            final(self).sent() == logged(
                old(self).sent(),
                WriteRecord { data: align_frame(align), result: r },
            ),
    {
        self.raw(&[0x1B, 0x61, align.as_byte()])
    }

    /// Select printer font.
    pub fn set_font(&mut self, font: Font) -> (r: Result<(), T::Error>)
        ensures
            final(self).sent() == logged(
                old(self).sent(),
                WriteRecord { data: font_frame(font), result: r },
            ),
    {
        self.raw(&[0x1B, 0x4D, font.as_byte()])
    }

    /// Set character size using width and height multipliers. A multiplier
    /// above 7 counts as 7.
    pub fn set_size(&mut self, width: u8, height: u8) -> (r: Result<(), T::Error>)
        ensures
            final(self).sent() == logged(
                old(self).sent(),
                WriteRecord { data: size_frame(width, height), result: r },
            ),
    {
        let width: u8 = if width > 7 { 7 } else { width };
        let height: u8 = if height > 7 { 7 } else { height };
        let param: u8 = (width << 4) | height;
        self.raw(&[0x1D, 0x21, param])
    }

    /// Enable or disable inverted printing.
    pub fn set_invert(&mut self, on: bool) -> (r: Result<(), T::Error>)
        ensures
            final(self).sent() == logged(
                old(self).sent(),
                WriteRecord { data: invert_frame(on), result: r },
            ),
    {
        let flag: u8 = if on { 0x01 } else { 0x00 };
        self.raw(&[0x1D, 0x42, flag])
    }

    /// Set text justification.
    pub fn set_justification(&mut self, mode: Justification) -> (r: Result<(), T::Error>)
        ensures
            final(self).sent() == logged(
                old(self).sent(),
                WriteRecord { data: justification_frame(mode), result: r },
            ),
    {
        self.raw(&[0x1B, 0x61, mode.as_byte()])
    }

    /// Set print density level.
    pub fn set_density(&mut self, level: Density) -> (r: Result<(), T::Error>)
        ensures
            final(self).sent() == logged(
                old(self).sent(),
                WriteRecord { data: density_frame(level), result: r },
            ),
    {
        self.raw(&[0x1D, 0x7C, level.as_byte()])
    }

    /// Set print speed.
    pub fn set_print_speed(&mut self, speed: PrintSpeed) -> (r: Result<(), T::Error>)
        ensures
            final(self).sent() == logged(
                old(self).sent(),
                WriteRecord { data: print_speed_frame(speed), result: r },
            ),
    {
        self.raw(&[0x1F, 0x50, speed.as_byte()])
    }

    /// Set the serial baud rate used by the printer.
    ///
    /// The baud rate value is encoded little-endian in the command sequence.
    /// Any value is sent as it is.
    pub fn set_baud_rate(&mut self, baud: u32) -> (r: Result<(), T::Error>)
        ensures
            final(self).sent() == logged(
                old(self).sent(),
                WriteRecord { data: baud_rate_frame(baud), result: r },
            ),
    {
        let b: [u8; 4] = le_bytes_of(baud);
        let frame: [u8; 11] = [0x1B, 0x23, 0x23, 0x53, 0x42, 0x44, 0x52, b[0], b[1], b[2], b[3]];
        assert(frame@ == baud_rate_frame(baud));
        self.raw(&frame)
    }

    /// Configure the maximum print speed of the printer.
    pub fn set_max_speed(&mut self, speed: u8) -> (r: Result<(), T::Error>)
        ensures
            final(self).sent() == logged(
                old(self).sent(),
                WriteRecord { data: max_speed_frame(speed), result: r },
            ),
    {
        self.raw(&[0x1B, 0x23, 0x23, 0x53, 0x54, 0x53, 0x50, speed])
    }

    /// Enable or disable black mark detection.
    pub fn set_black_mark(&mut self, on: bool) -> (r: Result<(), T::Error>)
        ensures
            final(self).sent() == logged(
                old(self).sent(),
                WriteRecord { data: black_mark_frame(on), result: r },
            ),
    {
        let flag: u8 = if on { 0x44 } else { 0x66 };
        self.raw(&[0x1F, 0x1B, 0x1F, 0x80, 0x04, 0x05, 0x06, flag])
    }

    /// Print a black & white image using ESC/POS raster format: the header in
    /// one write, the pixel data in a second.
    pub fn print_image(&mut self, image: &Image<'_>) -> (r: Result<(), T::Error>)
        ensures
            wrote_pair(
                old(self).sent(),
                raster_header(image.width, image.height),
                image.data@,
                r,
                final(self).sent(),
            ),
    {
        let header: [u8; 8] = image.header();
        match self.raw(&header) {
            Ok(done) => {
                assert(done == ());
                self.transport.write(image.data)
            },
            Err(e) => Err(e),
        }
    }

    /// Send raw bytes directly to the printer.
    pub fn raw(&mut self, data: &[u8]) -> (r: Result<(), T::Error>)
        ensures
            final(self).sent() == logged(
                old(self).sent(),
                WriteRecord { data: data@, result: r },
            ),
    {
        self.transport.write(data)
    }
}

/// Writing a line is writing the text and then, where that succeeded,
/// writing a single newline byte: `first` and `second` are the transport's
/// answers to the two, `mid` and `after` its log after each.
pub proof fn lemma_write_line_is_write_then_newline<E>(
    before: Option<Seq<WriteRecord<E>>>,
    text: Seq<u8>,
    first: Result<(), E>,
    mid: Option<Seq<WriteRecord<E>>>,
    second: Result<(), E>,
    after: Option<Seq<WriteRecord<E>>>,
)
    requires
        mid == logged(before, WriteRecord { data: text, result: first }),
        after == logged(mid, WriteRecord { data: newline(), result: second }),
    ensures
        first is Err ==> wrote_pair(before, text, newline(), first, mid),
        first is Ok ==> wrote_pair(before, text, newline(), second, after),
{
    lemma_two_writes_make_a_pair(before, text, first, mid, newline(), second, after);
}

/// A line that was written without failure has added the text's bytes and one
/// `0x0A` to what the transport delivered, and nothing else.
pub proof fn lemma_write_line_output<E>(
    before: Seq<WriteRecord<E>>,
    text: Seq<u8>,
    r: Result<(), E>,
    after: Seq<WriteRecord<E>>,
)
    requires
        wrote_pair(Some(before), text, newline(), r, Some(after)),
        r is Ok,
    ensures
        accepted_bytes(after) == accepted_bytes(before) + text.push(0x0A),
{
    lemma_pair_success(before, text, newline(), r, after);
    assert(text + newline() == text.push(0x0A));
    assert(accepted_bytes(before) + text + newline() == accepted_bytes(before) + (text
        + newline()));
}

} // verus!
