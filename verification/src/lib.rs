//! The bridge between completion requests and a single text-generation worker.
//!
//! A caller's request is translated into a generation task ([`request`]), handed to
//! the worker over the dispatch channel together with two reply channels of its own
//! ([`dispatch`]), and answered by folding the worker's token stream into a response
//! ([`aggregate`], [`response`]). The values that travel on the reply channels are in
//! [`token`]; [`isolation`] states that requests served at the same time do not mix.
//!
//! Reading from the reply channels means waiting, which is left to the caller: the
//! library decides what each received value means, one value at a time.

use vstd::prelude::*;

pub mod aggregate;
pub mod dispatch;
pub mod isolation;
pub mod request;
pub mod response;
pub mod text;
pub mod token;

verus! {

/// Upper bound on the number of tokens a single request may ask the worker to generate.
pub const MAX_TOKENS: usize = 4096;

} // verus!
