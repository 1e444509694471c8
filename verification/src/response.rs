//! The response handed back to the caller of a completion.

use vstd::prelude::*;
use crate::token::{FinishReason, TokenCounter, Usage};

verus! {

/// The text that identifies a completion response among response shapes.
pub open spec fn object_text() -> Seq<char> {
    "text_completion"@
}

/// The view of a [`CompletionChoice`].
pub struct ChoiceView {
    pub text: Seq<char>,
    pub index: nat,
    pub finish_reason: FinishReason,
}

/// The view of a [`CompletionResponse`].
pub struct ResponseView {
    pub object: Seq<char>,
    pub choices: Seq<ChoiceView>,
    pub counter: Usage,
}

impl ResponseView {
    /// The response with the single choice `text`, at index 0.
    pub open spec fn single(counter: Usage, text: Seq<char>, finish_reason: FinishReason)
        -> ResponseView {
        ResponseView {
            object: object_text(),
            choices: seq![ChoiceView { text, index: 0, finish_reason }],
            counter,
        }
    }
}

/// One generated completion.
#[derive(Debug, Clone, PartialEq, Eq)]
pub struct CompletionChoice {
    pub text: String,
    pub index: usize,
    pub finish_reason: FinishReason,
}

impl View for CompletionChoice {
    type V = ChoiceView;

    open spec fn view(&self) -> ChoiceView {
        ChoiceView {
            text: self.text@,
            index: self.index as nat,
            finish_reason: self.finish_reason,
        }
    }
}

/// The answer to a completion request.
#[derive(Debug, Clone, PartialEq, Eq)]
pub struct CompletionResponse {
    pub object: String,
    pub choices: Vec<CompletionChoice>,
    /// Serialized under the name `usage`.
    pub counter: TokenCounter,
}

impl View for CompletionResponse {
    type V = ResponseView;

    open spec fn view(&self) -> ResponseView {
        ResponseView {
            object: self.object@,
            choices: self.choices@.map_values(|choice: CompletionChoice| choice@),
            counter: self.counter@,
        }
    }
}

impl CompletionResponse {
    /// Builds the response for one finished aggregation: a single choice at index 0
    /// holding `text` and `finish_reason`, together with the usage `counter`.
    pub fn new(counter: TokenCounter, text: String, finish_reason: FinishReason) -> (response:
        CompletionResponse)
        ensures
            response@ == ResponseView::single(counter@, text@, finish_reason),
    {
        let choice = CompletionChoice { text, index: 0, finish_reason };
        let mut choices: Vec<CompletionChoice> = Vec::new();
        choices.push(choice);
        let response = CompletionResponse {
            object: "text_completion".to_string(),
            choices,
            counter,
        };
        assert(response@.choices =~= seq![choice@]);
        response
    }
}

} // verus!
