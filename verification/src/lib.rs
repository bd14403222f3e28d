//! Tailwind-style utility methods for building widget styles.
//!
//! A [`Style`] records which visual properties have been set and to what.
//! The [`TailwindExt`] trait adds short, predictably named methods to it, each
//! of which writes one tabulated constant to one property (or to a small group
//! of sibling properties), so that styles can be composed by chaining:
//! `Style::new().w_64().h_32().p_4().rounded_lg()`.
//!
//! All lengths are whole pixels. Percentages are held in millionths of a
//! percent and line heights in thousandths of the font size, so that every
//! value in the tables is an exact integer.

pub mod colors;
pub mod font_size;
pub mod font_weight;
pub mod laws;
pub mod line_height;
pub mod radius;
pub mod shadow;
pub mod spacing;
pub mod style;
pub mod tailwind;
pub mod units;

pub use colors::Color;
pub use shadow::BoxShadow;
pub use style::{Prop, Style, Value};
pub use tailwind::TailwindExt;
pub use units::Length;
