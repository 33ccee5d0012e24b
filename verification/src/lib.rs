//! Singly-linked stacks under three ownership disciplines.
//!
//! * [`first`]: a stack of `i32` whose chain has exactly one owner.
//! * [`second`]: the same stack over any element type, with `peek`,
//!   `peek_mut` and three traversals (by value, by shared reference, by
//!   mutable reference).
//! * [`third`]: a persistent list whose nodes are reference counted, so that
//!   several lists can share a common suffix.
//!
//! Every list is viewed as a `Seq` of its elements, top first. The contracts
//! are written over the sequence operations in [`lifo`], which also holds
//! the laws that follow from them.

pub mod lifo;
pub mod first;
pub mod second;
pub mod third;
