//! The values a generation worker streams back, and the bookkeeping kept about them.

use vstd::prelude::*;

verus! {

/// One value of a worker's reply stream.
///
/// A stream is any number of `Token` fragments followed by at most one of the two
/// terminal values.
#[derive(Debug, Clone, PartialEq, Eq)]
pub enum Token {
    /// A fragment of generated text.
    Token(String),
    /// The worker finished on its own.
    EndOfText,
    /// The worker ran out of its token budget.
    CutOff,
}

impl Token {
    /// Whether this value ends a stream.
    pub open spec fn is_terminal(self) -> bool {
        self is EndOfText || self is CutOff
    }

    /// The text that this value adds to a completion: the fragment it carries, and
    /// nothing for a terminal value.
    pub open spec fn text(self) -> Seq<char> {
        match self {
            Token::Token(fragment) => fragment@,
            _ => Seq::empty(),
        }
    }

    /// The finish reason that this value stands for when it ends a stream.
    pub open spec fn finish_reason(self) -> FinishReason {
        match self {
            Token::Token(_) => FinishReason::Null,
            Token::EndOfText => FinishReason::Stop,
            Token::CutOff => FinishReason::Length,
        }
    }
}

/// Why a completion ended.
#[derive(Debug, Clone, Copy, PartialEq, Eq, Structural)]
pub enum FinishReason {
    /// No terminal value has been seen.
    Null,
    /// The worker sent `EndOfText`.
    Stop,
    /// The worker sent `CutOff`.
    Length,
}

impl FinishReason {
    /// The name under which a finish reason appears in a serialized response.
    pub open spec fn wire_text(self) -> Seq<char> {
        match self {
            FinishReason::Null => "null"@,
            FinishReason::Stop => "stop"@,
            FinishReason::Length => "length"@,
        }
    }

    /// Returns the name under which this finish reason is serialized.
    pub fn wire_name(&self) -> (name: &'static str)
        ensures
            name@ == self.wire_text(),
    {
        match self {
            FinishReason::Null => "null",
            FinishReason::Stop => "stop",
            FinishReason::Length => "length",
        }
    }
}

impl Default for FinishReason {
    /// The reason before any stream has been read.
    fn default() -> (reason: FinishReason)
        ensures
            reason == FinishReason::Null,
    {
        FinishReason::Null
    }
}

/// Token usage as mathematical integers: the view of a [`TokenCounter`].
pub struct Usage {
    pub prompt_tokens: nat,
    pub completion_tokens: nat,
    pub total_tokens: nat,
}

impl Usage {
    /// The total is the sum of the two parts.
    pub open spec fn balanced(self) -> bool {
        self.total_tokens == self.prompt_tokens + self.completion_tokens
    }
}

/// Token usage of one request.
#[derive(Debug, Clone, Copy, PartialEq, Eq, Structural)]
pub struct TokenCounter {
    pub prompt_tokens: usize,
    pub completion_tokens: usize,
    pub total_tokens: usize,
}

impl View for TokenCounter {
    type V = Usage;

    open spec fn view(&self) -> Usage {
        Usage {
            prompt_tokens: self.prompt_tokens as nat,
            completion_tokens: self.completion_tokens as nat,
            total_tokens: self.total_tokens as nat,
        }
    }
}

} // verus!
