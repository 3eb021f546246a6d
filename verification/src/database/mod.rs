//! Store-agnostic descriptions shared by every adapter.
pub mod clearing;
pub mod index;
pub mod mongodb;
pub mod pagination;
pub mod pair;
