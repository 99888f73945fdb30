//! Small extension traits for types of the standard library, each with a
//! contract that says what its methods return.
//!
//! - [`cow`]: combinators on borrowed-or-owned text and slices that copy only
//!   where a transformation changed the data, with trimming and slicing of
//!   text built on them.
//! - [`option`], [`bool`]: combinators whose closures may fail, and tests of
//!   what an option holds.
//! - [`vec`], [`hash_map`], [`collections`]: chaining methods on vectors and
//!   hash maps, sorted copies of slices, and one membership test for slices,
//!   arrays and hash sets.
//! - [`everything`], [`default`]: combinators on every value, and the default
//!   value of a type.
//! - [`text`], [`slice`]: what trimming, slicing, comparing and cloning mean,
//!   and the functions that do them.

pub mod bool;
pub mod collections;
pub mod cow;
pub mod default;
pub mod everything;
pub mod hash_map;
pub mod option;
pub mod slice;
pub mod text;
pub mod vec;

pub use crate::bool::BoolExt;
pub use crate::collections::Contains;
pub use crate::cow::{CowExt, CowStrExt, IntoCow};
pub use crate::default::_d;
pub use crate::everything::EverythingExt;
pub use crate::hash_map::HashMapExt;
pub use crate::option::{IsEmpty, NonEmpty, OptionExt, OptionExtDeref, OptionExtIterator};
pub use crate::vec::{SliceExtClone, SliceExtCloneOrd, VecExt, VecExtOrd};
