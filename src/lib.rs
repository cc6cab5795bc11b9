//! A ledger of short posts: creating, editing and deleting a post, and
//! liking it at most once per address up to a fixed number of likers.
//! Each instruction is a function from the stored post and the signer to
//! the new post or an error, proved against a model of the instruction.
use vstd::prelude::*;

pub mod address;
pub mod error;
pub mod instructions;
pub mod laws;
pub mod likers;
pub mod tweet;
