//! Driver for ESC/POS thermal receipt printers.
//!
//! A [`Printer`] wraps a transport and turns each printer operation into the
//! bytes that the printer understands, sent at once over that transport. It
//! keeps no state between calls and never retries: whatever the transport
//! reports is the caller's to deal with.
//!
//! - [`transport`]: what a transport has to offer, and the log by which the
//!   contracts say what was sent through it.
//! - [`command`]: the options that commands take, each with its protocol byte.
//! - [`frame`]: the byte sequence of every command.
//! - [`image`]: the raster image descriptor and its header.
//! - [`printer`]: the printer itself.
//! - [`interop`]: wrappers for transports of another I/O trait set.

pub mod command;
pub mod frame;
pub mod image;
pub mod interop;
pub mod printer;
pub mod transport;

pub use command::{Align, CutMode, Density, Font, Justification, PrintSpeed, UnderlineMode};
pub use image::Image;
pub use interop::{Compat, FromEmbeddedIo};
pub use printer::Printer;
pub use transport::{Read, Write};
