//! Completion requests and their translation into generation tasks.

use std::collections::HashMap;
use vstd::prelude::*;
use vstd::std_specs::convert::FromSpecImpl;
use crate::MAX_TOKENS;
use crate::text::{concat, join, texts};

verus! {

/// The bit pattern of the single-precision number one.
pub const KNOB_ONE: u32 = 0x3F80_0000;

/// The bit pattern of the single-precision number zero.
pub const KNOB_ZERO: u32 = 0;

/// The token budget of a request that names none.
pub const DEFAULT_MAX_TOKENS: usize = 256;

/// A request field that may be absent, a single item, or a list of items.
#[derive(Debug, Clone, PartialEq, Eq)]
pub enum OptionArray<T> {
    Empty,
    Item(T),
    Array(Vec<T>),
}

impl<T> OptionArray<T> {
    /// The items that the field stands for, in order.
    pub open spec fn items(self) -> Seq<T> {
        match self {
            OptionArray::Empty => Seq::empty(),
            OptionArray::Item(item) => seq![item],
            OptionArray::Array(items) => items@,
        }
    }

    /// Turns the field into the list of its items.
    pub fn into_vec(self) -> (items: Vec<T>)
        ensures
            items@ == self.items(),
    {
        match self {
            OptionArray::Empty => Vec::new(),
            OptionArray::Item(item) => {
                let mut items: Vec<T> = Vec::new();
                items.push(item);
                items
            },
            OptionArray::Array(items) => items,
        }
    }
}

impl<T> Default for OptionArray<T> {
    /// The absent field.
    fn default() -> (field: OptionArray<T>)
        ensures
            field == OptionArray::<T>::Empty,
    {
        OptionArray::Empty
    }
}

/// The smaller of two numbers.
pub open spec fn at_most(value: nat, ceiling: nat) -> nat {
    if value <= ceiling {
        value
    } else {
        ceiling
    }
}

/// The four numbers that steer the choice of each token. Each is a single-precision
/// floating-point number, carried by its bit pattern.
#[derive(Debug, Clone, Copy, PartialEq, Eq, Structural)]
pub struct Sampler {
    pub temperature: u32,
    pub top_p: u32,
    pub presence_penalty: u32,
    pub frequency_penalty: u32,
}

/// The view of a [`CompletionRequest`].
pub struct RequestView {
    pub prompt: Seq<Seq<char>>,
    pub max_tokens: nat,
    pub stop: Seq<Seq<char>>,
    pub sampler: Sampler,
}

impl RequestView {
    /// The request in which every field has been left out.
    pub open spec fn defaults() -> RequestView {
        RequestView {
            prompt: Seq::empty(),
            max_tokens: DEFAULT_MAX_TOKENS as nat,
            stop: Seq::empty(),
            sampler: Sampler {
                temperature: KNOB_ONE,
                top_p: KNOB_ONE,
                presence_penalty: KNOB_ZERO,
                frequency_penalty: KNOB_ZERO,
            },
        }
    }
}

/// A request for a completion as a caller states it. The four sampler numbers are
/// single-precision floating-point numbers, carried by their bit patterns.
#[derive(Debug, Clone, PartialEq, Eq)]
pub struct CompletionRequest {
    pub prompt: OptionArray<String>,
    pub max_tokens: usize,
    pub stop: OptionArray<String>,
    pub temperature: u32,
    pub top_p: u32,
    pub presence_penalty: u32,
    pub frequency_penalty: u32,
}

impl View for CompletionRequest {
    type V = RequestView;

    open spec fn view(&self) -> RequestView {
        RequestView {
            prompt: texts(self.prompt.items()),
            max_tokens: self.max_tokens as nat,
            stop: texts(self.stop.items()),
            sampler: Sampler {
                temperature: self.temperature,
                top_p: self.top_p,
                presence_penalty: self.presence_penalty,
                frequency_penalty: self.frequency_penalty,
            },
        }
    }
}

impl Default for CompletionRequest {
    /// The request in which every field has been left out.
    fn default() -> (request: CompletionRequest)
        ensures
            request@ == RequestView::defaults(),
            request.prompt is Empty,
            request.stop is Empty,
    {
        let request = CompletionRequest {
            prompt: OptionArray::Empty,
            max_tokens: DEFAULT_MAX_TOKENS,
            stop: OptionArray::Empty,
            temperature: KNOB_ONE,
            top_p: KNOB_ONE,
            presence_penalty: KNOB_ZERO,
            frequency_penalty: KNOB_ZERO,
        };
        assert(request@.prompt =~= Seq::empty());
        assert(request@.stop =~= Seq::empty());
        request
    }
}

/// The view of a [`GenerateRequest`].
pub struct TaskView {
    pub prompt: Seq<char>,
    pub max_tokens: nat,
    pub stop: Seq<Seq<char>>,
    pub sampler: Sampler,
    pub occurrences: Map<u16, usize>,
}

/// The generation task that a request stands for under a ceiling on its token budget.
pub open spec fn translation(request: RequestView, ceiling: nat) -> TaskView {
    TaskView {
        prompt: concat(request.prompt),
        max_tokens: at_most(request.max_tokens, ceiling),
        stop: request.stop,
        sampler: request.sampler,
        occurrences: Map::empty(),
    }
}

/// The token budget of a task never exceeds the ceiling, however large the request's
/// own budget is, and a budget within the ceiling is kept as it is.
pub proof fn lemma_budget_within_ceiling(request: RequestView, ceiling: nat)
    ensures
        translation(request, ceiling).max_tokens <= ceiling,
        translation(request, ceiling).max_tokens <= request.max_tokens,
        request.max_tokens <= ceiling ==> translation(request, ceiling).max_tokens
            == request.max_tokens,
        request.max_tokens > ceiling ==> translation(request, ceiling).max_tokens == ceiling,
{
}

/// A generation task as the worker takes it.
#[derive(Debug, Clone)]
pub struct GenerateRequest {
    pub prompt: String,
    pub max_tokens: usize,
    pub stop: Vec<String>,
    pub sampler: Sampler,
    /// How often each token has occurred; filled by the worker while it generates.
    pub occurrences: HashMap<u16, usize>,
}

impl View for GenerateRequest {
    type V = TaskView;

    open spec fn view(&self) -> TaskView {
        TaskView {
            prompt: self.prompt@,
            max_tokens: self.max_tokens as nat,
            stop: texts(self.stop@),
            sampler: self.sampler,
            occurrences: self.occurrences@,
        }
    }
}

impl GenerateRequest {
    /// Translates a request into a generation task whose token budget is at most
    /// `ceiling`.
    pub fn translate(request: CompletionRequest, ceiling: usize) -> (task: GenerateRequest)
        ensures
            task@ == translation(request@, ceiling as nat),
            task.max_tokens <= ceiling,
    {
        let CompletionRequest {
            prompt,
            max_tokens,
            stop,
            temperature,
            top_p,
            presence_penalty,
            frequency_penalty,
        } = request;
        let prompt = join(&prompt.into_vec());
        let max_tokens = if max_tokens <= ceiling {
            max_tokens
        } else {
            ceiling
        };
        GenerateRequest {
            prompt,
            max_tokens,
            stop: stop.into_vec(),
            sampler: Sampler { temperature, top_p, presence_penalty, frequency_penalty },
            occurrences: HashMap::new(),
        }
    }
}

impl From<CompletionRequest> for GenerateRequest {
    /// Translates a request under the ceiling [`MAX_TOKENS`].
    fn from(value: CompletionRequest) -> (task: GenerateRequest)
        ensures
            task@ == translation(value@, MAX_TOKENS as nat),
            task.max_tokens <= MAX_TOKENS,
    {
        GenerateRequest::translate(value, MAX_TOKENS)
    }
}

/// What `from` returns is said by its own `ensures`, over views. A task holds a string
/// and collections, which ghost code cannot build, so `from_spec` names no value and
/// the conversion is not held to it.
impl FromSpecImpl<CompletionRequest> for GenerateRequest {
    open spec fn obeys_from_spec() -> bool {
        false
    }

    open spec fn from_spec(v: CompletionRequest) -> GenerateRequest {
        arbitrary()
    }
}

} // verus!
