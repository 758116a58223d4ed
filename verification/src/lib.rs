//! Strings of Unicode scalar values with constant-time indexing and slicing.
//!
//! [`UString`] owns a growable run of scalar values, as `String` owns text;
//! [`UStr`] is a borrowed, read-only window over such a run, as `&str` is over
//! text. Every element is one `char`, so a position is an index into the run
//! and no operation has to look for an encoding boundary.
//!
//! Both types are modelled by the `Seq<char>` they hold (their view, `@`), and
//! every contract in this crate is stated over that model. The modules are:
//!
//! - [`ustring`]: the owned type, its mutations and how it is built;
//! - [`ustr`]: the borrowed type, which alone defines indexing, slicing and
//!   the prefix and suffix tests;
//! - [`iter`]: the passes over either, by reference and by value;
//! - [`text`]: the way to and from standard text;
//! - [`error`]: the one error, a position or range out of bounds;
//! - [`laws`]: what holds between these operations, proved from their
//!   contracts.

pub mod error;
pub mod iter;
pub mod laws;
mod scalars;
pub mod text;
pub mod ustr;
pub mod ustring;

pub use error::IndexOutOfBounds;
pub use iter::{IntoIter, Iter};
pub use ustr::UStr;
pub use ustring::UString;
