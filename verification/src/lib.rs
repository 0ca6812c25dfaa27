//! Renders a boxed banner at the width of the terminal: a frame of
//! box-drawing glyphs around blocks of text, which are wrapped, aligned,
//! padded and optionally coloured, with dividers and blank rows in between.
//!
//! A [`Banner`] is built by chained calls and rendered to a `String`:
//!
//! ```
//! use terminal_banner::Banner;
//! let banner = Banner::new()
//!     .width(40)
//!     .text("LIPSUM".into())
//!     .divider()
//!     .text("Lorem ipsum dolor sit amet, consectetur adipiscing elit.".into())
//!     .render();
//! ```
//!
//! The modules: [`frame`], [`color`] and [`text`] hold the configuration,
//! [`layout`] says as mathematics what a banner is, [`compose`] draws it,
//! [`banner`] ties both to the line wrapper and the colour decorator,
//! [`trusted`] states what is taken from these on trust, and [`laws`]
//! proves what holds of every banner.
//!
//! No width is refused. All column arithmetic saturates at zero: where the
//! width cannot hold the two rules and the paddings, or a text leaves no
//! room for the offset of its alignment, the rows are drawn with what is
//! left and may then be wider than the width.

pub mod banner;
pub mod color;
pub mod compose;
pub mod frame;
pub mod laws;
pub mod layout;
pub mod text;
pub mod trusted;

pub use banner::{Banner, Line};
pub use color::Color;
pub use colored;
pub use compose::{Block, MeasuredLine};
pub use frame::{BoxSymbols, Padding};
pub use text::{Text, TextAlign, TextStyle};
