//! The byte sequences of the printer's commands.
//!
//! Every command is a short fixed prefix followed by its parameter bytes.
//! ESC is `0x1B`, GS is `0x1D` and FS is `0x1F`.

use vstd::prelude::*;
use crate::command::{Align, CutMode, Density, Font, Justification, PrintSpeed, UnderlineMode};

verus! {

/// The byte that switches a mode on (`0x01`) or off (`0x00`).
pub open spec fn flag_byte(on: bool) -> u8 {
    if on {
        0x01
    } else {
        0x00
    }
}

/// Feed `lines` print lines: ESC `d` n.
pub open spec fn feed_frame(lines: u8) -> Seq<u8> {
    seq![0x1Bu8, 0x64u8, lines]
}

/// Cut the paper: GS `V` m.
pub open spec fn cut_frame(mode: CutMode) -> Seq<u8> {
    seq![0x1Du8, 0x56u8, mode.byte()]
}

/// Bold on or off: ESC `E` n.
pub open spec fn bold_frame(on: bool) -> Seq<u8> {
    seq![0x1Bu8, 0x45u8, flag_byte(on)]
}

/// Underline style: ESC `-` n.
pub open spec fn underline_frame(mode: UnderlineMode) -> Seq<u8> {
    seq![0x1Bu8, 0x2Du8, mode.byte()]
}

/// Alignment: ESC `a` n.
pub open spec fn align_frame(align: Align) -> Seq<u8> {
    seq![0x1Bu8, 0x61u8, align.byte()]
}

/// Font selection: ESC `M` n.
pub open spec fn font_frame(font: Font) -> Seq<u8> {
    seq![0x1Bu8, 0x4Du8, font.byte()]
}

/// A size multiplier cut down to the three bits the protocol has for it.
pub open spec fn clamp_multiplier(m: u8) -> u8 {
    if m > 7 {
        7
    } else {
        m
    }
}

/// The parameter of the size command: the clamped width multiplier in the high
/// nibble, the clamped height multiplier in the low one.
pub open spec fn size_param(width: u8, height: u8) -> u8 {
    (clamp_multiplier(width) << 4) | clamp_multiplier(height)
}

/// Character size: GS `!` n.
pub open spec fn size_frame(width: u8, height: u8) -> Seq<u8> {
    seq![0x1Du8, 0x21u8, size_param(width, height)]
}

/// Inverted printing on or off: GS `B` n.
pub open spec fn invert_frame(on: bool) -> Seq<u8> {
    seq![0x1Du8, 0x42u8, flag_byte(on)]
}

/// Justification: ESC `a` n, the same wire command as alignment.
pub open spec fn justification_frame(mode: Justification) -> Seq<u8> {
    seq![0x1Bu8, 0x61u8, mode.byte()]
}

/// Print density: GS `|` n.
pub open spec fn density_frame(level: Density) -> Seq<u8> {
    seq![0x1Du8, 0x7Cu8, level.byte()]
}

/// Print speed: FS `P` n.
pub open spec fn print_speed_frame(speed: PrintSpeed) -> Seq<u8> {
    seq![0x1Fu8, 0x50u8, speed.byte()]
}

/// The four bytes of `value`, least significant first.
pub open spec fn le_bytes(value: u32) -> Seq<u8> {
    seq![
        (value % 0x100) as u8,
        (value / 0x100 % 0x100) as u8,
        (value / 0x1_0000 % 0x100) as u8,
        (value / 0x100_0000) as u8,
    ]
}

/// Serial baud rate: ESC `#` `#` `S` `B` `D` `R`, then the rate as four bytes,
/// least significant first.
pub open spec fn baud_rate_frame(baud: u32) -> Seq<u8> {
    seq![0x1Bu8, 0x23u8, 0x23u8, 0x53u8, 0x42u8, 0x44u8, 0x52u8] + le_bytes(baud)
}

/// Maximum print speed: ESC `#` `#` `S` `T` `S` `P` n.
pub open spec fn max_speed_frame(speed: u8) -> Seq<u8> {
    seq![0x1Bu8, 0x23u8, 0x23u8, 0x53u8, 0x54u8, 0x53u8, 0x50u8, speed]
}

/// The byte that enables (`0x44`) or disables (`0x66`) black mark detection.
pub open spec fn black_mark_byte(on: bool) -> u8 {
    if on {
        0x44
    } else {
        0x66
    }
}

/// Black mark detection on or off: a fixed seven-byte prefix and one byte.
pub open spec fn black_mark_frame(on: bool) -> Seq<u8> {
    seq![0x1Fu8, 0x1Bu8, 0x1Fu8, 0x80u8, 0x04u8, 0x05u8, 0x06u8, black_mark_byte(on)]
}

/// The number of bytes that hold one row of `width` pixels at one bit each.
pub open spec fn row_bytes(width: u16) -> int {
    (width + 7) / 8
}

/// The header of a raster bit image in mode 0: GS `v` `0` `0x00`, then the row
/// length in bytes and the height in pixels, each as two bytes, low byte first.
pub open spec fn raster_header(width: u16, height: u16) -> Seq<u8> {
    seq![
        0x1Du8,
        0x76u8,
        0x30u8,
        0x00u8,
        (row_bytes(width) % 0x100) as u8,
        (row_bytes(width) / 0x100) as u8,
        (height % 0x100) as u8,
        (height / 0x100) as u8,
    ]
}

/// The single byte that ends a line of text.
pub open spec fn newline() -> Seq<u8> {
    seq![0x0Au8]
}

/// The size parameter is sixteen times the clamped width multiplier plus the
/// clamped height multiplier, so each multiplier can be read back from its
/// nibble.
pub proof fn lemma_size_param(width: u8, height: u8)
    ensures
        size_param(width, height) == 16 * clamp_multiplier(width) + clamp_multiplier(height),
        size_param(width, height) >> 4 == clamp_multiplier(width),
        size_param(width, height) & 0x0F == clamp_multiplier(height),
{
    let w = clamp_multiplier(width);
    let h = clamp_multiplier(height);
    assert(w <= 7 && h <= 7 ==> ((w << 4) | h) == 16 * w + h && ((w << 4) | h) >> 4 == w && ((w
        << 4) | h) & 0x0F == h) by (bit_vector);
}

/// The four bytes stand for the number they were made from: each byte is
/// worth 256 times the one before.
pub proof fn lemma_le_bytes(value: u32)
    ensures
        le_bytes(value).len() == 4,
        le_bytes(value)[0] + 0x100 * le_bytes(value)[1] + 0x1_0000 * le_bytes(value)[2]
            + 0x100_0000 * le_bytes(value)[3] == value,
{
}

/// The row length is the least number of bytes with room for every pixel of a
/// row, and the header carries it and the height as 16-bit numbers, low byte
/// first.
pub proof fn lemma_raster_header(width: u16, height: u16)
    ensures
        8 * (row_bytes(width) - 1) < width <= 8 * row_bytes(width),
        raster_header(width, height).len() == 8,
        raster_header(width, height)[4] + 0x100 * raster_header(width, height)[5] == row_bytes(
            width,
        ),
        raster_header(width, height)[6] + 0x100 * raster_header(width, height)[7] == height,
{
}

/// Alignment and justification are one wire command under two names: options
/// with the same protocol byte give the same frame.
pub proof fn lemma_justification_is_alignment(align: Align, mode: Justification)
    requires
        align.byte() == mode.byte(),
    ensures
        align_frame(align) == justification_frame(mode),
{
}

} // verus!
