//! The closed sets of options that printer commands take.
//!
//! Each option maps to exactly one protocol byte. The tables are independent of
//! one another; a byte value never changes once it is published here.

use vstd::prelude::*;

verus! {

/// Paper cutting modes.
#[derive(Copy, Clone, Debug, PartialEq, Eq, Structural)]
pub enum CutMode {
    /// Full paper cut.
    Full,
    /// Partial paper cut.
    Partial,
}

impl CutMode {
    /// The protocol byte that stands for this cut mode on the wire.
    pub open spec fn byte(self) -> u8 {
        match self {
            CutMode::Full => 0x00,
            CutMode::Partial => 0x01,
        }
    }

    /// Returns the protocol byte that stands for this cut mode on the wire.
    pub fn as_byte(self) -> (b: u8)
        ensures
            b == self.byte(),
    {
        match self {
            CutMode::Full => 0x00,
            CutMode::Partial => 0x01,
        }
    }
}

/// Underline styles.
#[derive(Copy, Clone, Debug, PartialEq, Eq, Structural)]
pub enum UnderlineMode {
    /// No underline.
    Off,
    /// Single underline.
    Single,
    /// Double underline.
    Double,
}

impl UnderlineMode {
    /// The protocol byte that stands for this underline style on the wire.
    pub open spec fn byte(self) -> u8 {
        match self {
            UnderlineMode::Off => 0x00,
            UnderlineMode::Single => 0x01,
            UnderlineMode::Double => 0x02,
        }
    }

    /// Returns the protocol byte that stands for this underline style on the wire.
    pub fn as_byte(self) -> (b: u8)
        ensures
            b == self.byte(),
    {
        match self {
            UnderlineMode::Off => 0x00,
            UnderlineMode::Single => 0x01,
            UnderlineMode::Double => 0x02,
        }
    }
}

/// Horizontal alignment modes.
#[derive(Copy, Clone, Debug, PartialEq, Eq, Structural)]
pub enum Align {
    /// Flush left.
    Left,
    /// Centered.
    Center,
    /// Flush right.
    Right,
}

impl Align {
    /// The protocol byte that stands for this alignment on the wire.
    pub open spec fn byte(self) -> u8 {
        match self {
            Align::Left => 0x00,
            Align::Center => 0x01,
            Align::Right => 0x02,
        }
    }

    /// Returns the protocol byte that stands for this alignment on the wire.
    pub fn as_byte(self) -> (b: u8)
        ensures
            b == self.byte(),
    {
        match self {
            Align::Left => 0x00,
            Align::Center => 0x01,
            Align::Right => 0x02,
        }
    }
}

/// Font type selection.
#[derive(Copy, Clone, Debug, PartialEq, Eq, Structural)]
pub enum Font {
    /// The printer's font A.
    FontA,
    /// The printer's font B.
    FontB,
}

impl Font {
    /// The protocol byte that stands for this font on the wire.
    pub open spec fn byte(self) -> u8 {
        match self {
            Font::FontA => 0x00,
            Font::FontB => 0x01,
        }
    }

    /// Returns the protocol byte that stands for this font on the wire.
    pub fn as_byte(self) -> (b: u8)
        ensures
            b == self.byte(),
    {
        match self {
            Font::FontA => 0x00,
            Font::FontB => 0x01,
        }
    }
}

/// Text justification.
#[derive(Copy, Clone, Debug, PartialEq, Eq, Structural)]
pub enum Justification {
    /// Flush left.
    Left,
    /// Centered.
    Center,
    /// Flush right.
    Right,
}

impl Justification {
    /// The protocol byte that stands for this justification on the wire.
    pub open spec fn byte(self) -> u8 {
        match self {
            Justification::Left => 0x00,
            Justification::Center => 0x01,
            Justification::Right => 0x02,
        }
    }

    /// Returns the protocol byte that stands for this justification on the wire.
    pub fn as_byte(self) -> (b: u8)
        ensures
            b == self.byte(),
    {
        match self {
            Justification::Left => 0x00,
            Justification::Center => 0x01,
            Justification::Right => 0x02,
        }
    }
}

/// Print density levels.
#[derive(Copy, Clone, Debug, PartialEq, Eq, Structural)]
pub enum Density {
    /// Density level 0.
    Level0,
    /// Density level 1.
    Level1,
    /// Density level 2.
    Level2,
    /// Density level 3.
    Level3,
    /// Density level 4.
    Level4,
    /// Density level 5.
    Level5,
    /// Density level 6.
    Level6,
    /// Density level 7.
    Level7,
    /// Density level 8.
    Level8,
}

impl Density {
    /// The protocol byte that stands for this density level on the wire.
    pub open spec fn byte(self) -> u8 {
        match self {
            Density::Level0 => 0x00,
            Density::Level1 => 0x01,
            Density::Level2 => 0x02,
            Density::Level3 => 0x03,
            Density::Level4 => 0x04,
            Density::Level5 => 0x05,
            Density::Level6 => 0x06,
            Density::Level7 => 0x07,
            Density::Level8 => 0x08,
        }
    }

    /// Returns the protocol byte that stands for this density level on the wire.
    pub fn as_byte(self) -> (b: u8)
        ensures
            b == self.byte(),
    {
        match self {
            Density::Level0 => 0x00,
            Density::Level1 => 0x01,
            Density::Level2 => 0x02,
            Density::Level3 => 0x03,
            Density::Level4 => 0x04,
            Density::Level5 => 0x05,
            Density::Level6 => 0x06,
            Density::Level7 => 0x07,
            Density::Level8 => 0x08,
        }
    }
}

/// Printer speed options.
#[derive(Copy, Clone, Debug, PartialEq, Eq, Structural)]
pub enum PrintSpeed {
    /// Speed setting 1.
    Speed1,
    /// Speed setting 2.
    Speed2,
    /// Speed setting 3.
    Speed3,
    /// Speed setting 4.
    Speed4,
}

impl PrintSpeed {
    /// The protocol byte that stands for this print speed on the wire.
    pub open spec fn byte(self) -> u8 {
        match self {
            PrintSpeed::Speed1 => 0x00,
            PrintSpeed::Speed2 => 0x01,
            PrintSpeed::Speed3 => 0x02,
            PrintSpeed::Speed4 => 0x03,
        }
    }

    /// Returns the protocol byte that stands for this print speed on the wire.
    pub fn as_byte(self) -> (b: u8)
        ensures
            b == self.byte(),
    {
        match self {
            PrintSpeed::Speed1 => 0x00,
            PrintSpeed::Speed2 => 0x01,
            PrintSpeed::Speed3 => 0x02,
            PrintSpeed::Speed4 => 0x03,
        }
    }
}

} // verus!
