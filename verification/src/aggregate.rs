//! Folding a worker's reply stream into a response.
//!
//! A reader of a reply stream sees a sequence of events: `Some(token)` for each
//! value the worker sent, then `None` once the stream has closed. [`Progress`] is the
//! mathematical state of the fold over those events, [`Aggregator`] its executable
//! counterpart, fed one event at a time by whoever reads the stream.

use vstd::prelude::*;
use vstd::string::StringExecFns;
use crate::response::{CompletionResponse, ResponseView};
use crate::text::concat;
use crate::token::{FinishReason, Token, TokenCounter, Usage};

verus! {

/// The state of an aggregation, as mathematical values.
pub struct Progress {
    /// The usage counted so far.
    pub usage: Usage,
    /// The fragments received so far, concatenated in arrival order.
    pub text: Seq<char>,
    /// Why the stream ended, `Null` until a terminal value arrives.
    pub finish_reason: FinishReason,
    /// Whether further events are still consumed.
    pub open: bool,
}

impl Progress {
    /// The state before any token has been read. A missing prompt token count
    /// counts as zero.
    pub open spec fn start(prompt_tokens: Option<usize>) -> Progress {
        let prompt: nat = match prompt_tokens {
            Some(count) => count as nat,
            None => 0,
        };
        Progress {
            usage: Usage { prompt_tokens: prompt, completion_tokens: 0, total_tokens: prompt },
            text: Seq::empty(),
            finish_reason: FinishReason::Null,
            open: true,
        }
    }

    /// The state after one more event. A closed aggregation ignores every event.
    pub open spec fn advance(self, event: Option<Token>) -> Progress {
        if !self.open {
            self
        } else {
            match event {
                Some(Token::Token(fragment)) => Progress {
                    usage: Usage {
                        prompt_tokens: self.usage.prompt_tokens,
                        completion_tokens: self.usage.completion_tokens + 1,
                        total_tokens: self.usage.total_tokens + 1,
                    },
                    text: self.text + fragment@,
                    ..self
                },
                Some(Token::EndOfText) => Progress {
                    finish_reason: FinishReason::Stop,
                    open: false,
                    ..self
                },
                Some(Token::CutOff) => Progress {
                    finish_reason: FinishReason::Length,
                    open: false,
                    ..self
                },
                None => Progress { open: false, ..self },
            }
        }
    }

    /// The state after a sequence of events, taken in order.
    pub open spec fn run(self, events: Seq<Option<Token>>) -> Progress
        decreases events.len(),
    {
        if events.len() == 0 {
            self
        } else {
            self.run(events.drop_last()).advance(events.last())
        }
    }

    /// Whether `event` can be counted without a counter leaving the range of `usize`.
    pub open spec fn has_room(self, event: Option<Token>) -> bool {
        (self.open && event is Some && event->0 is Token) ==> self.usage.total_tokens < usize::MAX
    }

    /// The response that reports this state.
    pub open spec fn response(self) -> ResponseView {
        ResponseView::single(self.usage, self.text, self.finish_reason)
    }
}

/// The events that the reader of a finished stream of `tokens` sees: every token in
/// order, then the closing of the stream.
pub open spec fn stream_events(tokens: Seq<Token>) -> Seq<Option<Token>> {
    tokens.map_values(|token: Token| Some(token)).push(None)
}

/// How many tokens of a stream come before its first terminal value: all of them
/// where it has none.
pub open spec fn consumed(tokens: Seq<Token>) -> nat
    decreases tokens.len(),
{
    if tokens.len() == 0 || tokens.first().is_terminal() {
        0
    } else {
        1 + consumed(tokens.drop_first())
    }
}

/// What aggregating a finished stream comes to, said of the stream as a whole: the
/// fragments before the first terminal value are counted and concatenated, that
/// terminal value gives the finish reason, and whatever follows it is left unread.
pub open spec fn outcome(prompt_tokens: Option<usize>, tokens: Seq<Token>) -> Progress {
    let prompt = Progress::start(prompt_tokens).usage.prompt_tokens;
    let count = consumed(tokens);
    Progress {
        usage: Usage {
            prompt_tokens: prompt,
            completion_tokens: count,
            total_tokens: prompt + count,
        },
        text: concat(tokens.take(count as int).map_values(|token: Token| token.text())),
        finish_reason: if count < tokens.len() {
            tokens[count as int].finish_reason()
        } else {
            FinishReason::Null
        },
        open: false,
    }
}

/// The executable state of one request's aggregation.
#[derive(Debug)]
pub struct Aggregator {
    counter: TokenCounter,
    text: String,
    finish_reason: FinishReason,
    open: bool,
}

impl View for Aggregator {
    type V = Progress;

    closed spec fn view(&self) -> Progress {
        Progress {
            usage: self.counter@,
            text: self.text@,
            finish_reason: self.finish_reason,
            open: self.open,
        }
    }
}

impl Aggregator {
    #[verifier::type_invariant]
    spec fn balanced(self) -> bool {
        self.counter@.balanced()
    }

    /// Starts an aggregation from the worker's reply to the prompt token count, `None`
    /// if that reply channel closed without a value.
    pub fn new(prompt_tokens: Option<usize>) -> (aggregator: Aggregator)
        ensures
            aggregator@ == Progress::start(prompt_tokens),
    {
        let prompt_tokens = match prompt_tokens {
            Some(count) => count,
            None => 0,
        };
        Aggregator {
            counter: TokenCounter {
                prompt_tokens,
                completion_tokens: 0,
                total_tokens: prompt_tokens,
            },
            text: String::new(),
            finish_reason: FinishReason::Null,
            open: true,
        }
    }

    /// Takes one event of the token stream, `None` standing for the stream having
    /// closed, and returns the state that follows. The stream is to be read further
    /// for as long as that state is open.
    pub fn step(self, event: Option<Token>) -> (next: Aggregator)
        requires
            self@.has_room(event),
        ensures
            next@ == self@.advance(event),
    {
        match event {
            Some(token) => self.absorb(&token),
            None => self.close(),
        }
    }

    /// Whether the aggregation still consumes events.
    pub fn is_open(&self) -> (open: bool)
        ensures
            open == self@.open,
    {
        self.open
    }

    /// The usage counted so far.
    pub fn counter(&self) -> (counter: TokenCounter)
        ensures
            counter@ == self@.usage,
            counter@.balanced(),
    {
        proof {
            use_type_invariant(self);
        }
        self.counter
    }

    /// Ends the aggregation and reports it.
    pub fn into_response(self) -> (response: CompletionResponse)
        ensures
            response@ == self@.response(),
            response@.counter.balanced(),
    {
        proof {
            use_type_invariant(&self);
        }
        CompletionResponse::new(self.counter, self.text, self.finish_reason)
    }

    fn absorb(self, token: &Token) -> (next: Aggregator)
        requires
            self@.has_room(Some(*token)),
        ensures
            next@ == self@.advance(Some(*token)),
    {
        proof {
            use_type_invariant(&self);
        }
        if !self.open {
            return self;
        }
        let Aggregator { counter, text, finish_reason, open } = self;
        match token {
            Token::Token(fragment) => {
                let mut text = text;
                text.append(fragment.as_str());
                Aggregator {
                    counter: TokenCounter {
                        prompt_tokens: counter.prompt_tokens,
                        completion_tokens: counter.completion_tokens + 1,
                        total_tokens: counter.total_tokens + 1,
                    },
                    text,
                    finish_reason,
                    open,
                }
            },
            Token::EndOfText => Aggregator {
                counter,
                text,
                finish_reason: FinishReason::Stop,
                open: false,
            },
            Token::CutOff => Aggregator {
                counter,
                text,
                finish_reason: FinishReason::Length,
                open: false,
            },
        }
    }

    fn close(self) -> (next: Aggregator)
        ensures
            next@ == self@.advance(None),
    {
        proof {
            use_type_invariant(&self);
        }
        Aggregator {
            counter: self.counter,
            text: self.text,
            finish_reason: self.finish_reason,
            open: false,
        }
    }
}

/// Aggregates a finished stream at once: the response for a worker that replied
/// `prompt_tokens` to the prompt token count and then sent `tokens` before the stream
/// closed.
pub fn collect(prompt_tokens: Option<usize>, tokens: &[Token]) -> (response: CompletionResponse)
    requires
        outcome(prompt_tokens, tokens@).usage.total_tokens <= usize::MAX,
    ensures
        response@ == outcome(prompt_tokens, tokens@).response(),
        response@.counter.balanced(),
{
    let ghost start = Progress::start(prompt_tokens);
    let ghost events = stream_events(tokens@);
    proof {
        lemma_outcome(prompt_tokens, tokens@);
    }
    let mut aggregator = Aggregator::new(prompt_tokens);
    let mut i: usize = 0;
    assert(events.take(0) =~= Seq::empty());
    while i < tokens.len() && aggregator.is_open()
        invariant
            i <= tokens.len(),
            start == Progress::start(prompt_tokens),
            events == stream_events(tokens@),
            aggregator@ == start.run(events.take(i as int)),
            start.run(events).usage.total_tokens <= usize::MAX,
        decreases tokens.len() - i,
    {
        proof {
            let seen = events.take(i as int);
            let next = events.take(i + 1);
            assert(next.drop_last() =~= seen);
            assert(next.last() == Some(tokens@[i as int]));
            assert(events =~= next + events.skip(i + 1));
            lemma_run_concat(start, next, events.skip(i + 1));
            lemma_run_grows(start.run(next), events.skip(i + 1));
        }
        aggregator = aggregator.absorb(&tokens[i]);
        i += 1;
    }
    proof {
        let seen = events.take(i as int);
        if i == tokens.len() {
            assert(events.drop_last() =~= seen);
        } else {
            assert(events =~= seen + events.skip(i as int));
            lemma_run_concat(start, seen, events.skip(i as int));
            lemma_closed_absorbs(start.run(seen), events.skip(i as int));
        }
    }
    aggregator.close().into_response()
}

/// Feeding a finished stream event by event comes to the outcome said of the stream
/// as a whole.
pub proof fn lemma_outcome(prompt_tokens: Option<usize>, tokens: Seq<Token>)
    ensures
        Progress::start(prompt_tokens).run(stream_events(tokens)) == outcome(prompt_tokens, tokens),
        consumed(tokens) <= tokens.len(),
{
    let start = Progress::start(prompt_tokens);
    let events = stream_events(tokens);
    let count = consumed(tokens) as int;
    lemma_consumed(tokens);
    let read = tokens.take(count);
    let seen = read.map_values(|token: Token| Some(token));
    let rest = events.skip(count);
    assert(events =~= seen + rest);
    lemma_run_concat(start, seen, rest);
    lemma_fragments(start, read);
    let reached = start.run(seen);
    assert(start.text + concat(read.map_values(|token: Token| token.text())) =~= concat(
        read.map_values(|token: Token| token.text()),
    ));
    assert(rest =~= seq![rest[0]] + rest.skip(1));
    lemma_run_concat(reached, seq![rest[0]], rest.skip(1));
    assert(seq![rest[0]].drop_last() =~= Seq::<Option<Token>>::empty());
    assert(reached.run(seq![rest[0]]) == reached.advance(rest[0])) by {
        reveal_with_fuel(Progress::run, 2);
    }
    lemma_closed_absorbs(reached.advance(rest[0]), rest.skip(1));
}

/// The tokens before the first terminal value are fragments, and what follows them,
/// if anything, is a terminal value.
proof fn lemma_consumed(tokens: Seq<Token>)
    ensures
        consumed(tokens) <= tokens.len(),
        forall|i: int| 0 <= i < consumed(tokens) ==> !(#[trigger] tokens[i]).is_terminal(),
        consumed(tokens) < tokens.len() ==> tokens[consumed(tokens) as int].is_terminal(),
    decreases tokens.len(),
{
    if tokens.len() > 0 && !tokens.first().is_terminal() {
        let later = tokens.drop_first();
        lemma_consumed(later);
        assert forall|i: int| 0 <= i < consumed(tokens) implies !(#[trigger] tokens[i]).is_terminal(
        ) by {
            if i > 0 {
                assert(tokens[i] == later[i - 1]);
            }
        }
        if consumed(tokens) < tokens.len() {
            assert(tokens[consumed(tokens) as int] == later[consumed(later) as int]);
        }
    }
}

/// Fragments keep an open aggregation open and leave its finish reason alone; each is
/// counted once and its text appended.
proof fn lemma_fragments(state: Progress, tokens: Seq<Token>)
    requires
        state.open,
        forall|i: int| 0 <= i < tokens.len() ==> !(#[trigger] tokens[i]).is_terminal(),
    ensures
        state.run(tokens.map_values(|token: Token| Some(token))) == (Progress {
            usage: Usage {
                prompt_tokens: state.usage.prompt_tokens,
                completion_tokens: state.usage.completion_tokens + tokens.len(),
                total_tokens: state.usage.total_tokens + tokens.len(),
            },
            text: state.text + concat(tokens.map_values(|token: Token| token.text())),
            ..state
        }),
    decreases tokens.len(),
{
    let sent = tokens.map_values(|token: Token| Some(token));
    let parts = tokens.map_values(|token: Token| token.text());
    if tokens.len() == 0 {
        assert(state.text + concat(parts) =~= state.text);
    } else {
        lemma_fragments(state, tokens.drop_last());
        assert(sent.drop_last() =~= tokens.drop_last().map_values(|token: Token| Some(token)));
        assert(parts.drop_last() =~= tokens.drop_last().map_values(|token: Token| token.text()));
        assert(!tokens[tokens.len() - 1].is_terminal());
        assert(state.text + concat(parts) =~= (state.text + concat(parts.drop_last()))
            + parts.last());
    }
}

/// Events may be fed in one piece or in two: running `first + second` is running
/// `first` and then `second`.
pub proof fn lemma_run_concat(
    state: Progress,
    first: Seq<Option<Token>>,
    second: Seq<Option<Token>>,
)
    ensures
        state.run(first + second) == state.run(first).run(second),
    decreases second.len(),
{
    if second.len() == 0 {
        assert(first + second =~= first);
    } else {
        assert((first + second).drop_last() =~= first + second.drop_last());
        lemma_run_concat(state, first, second.drop_last());
    }
}

/// Once an aggregation has closed, nothing that arrives afterwards changes it.
pub proof fn lemma_closed_absorbs(state: Progress, events: Seq<Option<Token>>)
    requires
        !state.open,
    ensures
        state.run(events) == state,
    decreases events.len(),
{
    if events.len() > 0 {
        lemma_closed_absorbs(state, events.drop_last());
    }
}

/// Aggregation only ever adds: the prompt token count stays, the other counters never
/// decrease, the text received so far stays a prefix of the text, and a closed
/// aggregation stays closed.
pub proof fn lemma_run_grows(state: Progress, events: Seq<Option<Token>>)
    ensures
        state.run(events).usage.prompt_tokens == state.usage.prompt_tokens,
        state.run(events).usage.completion_tokens >= state.usage.completion_tokens,
        state.run(events).usage.total_tokens >= state.usage.total_tokens,
        state.text.is_prefix_of(state.run(events).text),
        !state.open ==> !state.run(events).open,
    decreases events.len(),
{
    if events.len() > 0 {
        lemma_run_grows(state, events.drop_last());
    }
}

/// The total is the sum of prompt and completion tokens in every state that an
/// aggregation reaches from a state where it is.
pub proof fn lemma_run_balanced(state: Progress, events: Seq<Option<Token>>)
    requires
        state.usage.balanced(),
    ensures
        state.run(events).usage.balanced(),
    decreases events.len(),
{
    if events.len() > 0 {
        lemma_run_balanced(state, events.drop_last());
    }
}

/// The total is the sum of prompt and completion tokens from the start of an
/// aggregation on, after whatever events, and in the outcome of every stream.
pub proof fn lemma_total_is_sum(
    prompt_tokens: Option<usize>,
    events: Seq<Option<Token>>,
    tokens: Seq<Token>,
)
    ensures
        Progress::start(prompt_tokens).usage.balanced(),
        Progress::start(prompt_tokens).run(events).usage.balanced(),
        outcome(prompt_tokens, tokens).usage.balanced(),
{
    lemma_run_balanced(Progress::start(prompt_tokens), events);
}

/// Which of the two terminal values ends a stream decides the finish reason and
/// nothing else: after the same fragments, `EndOfText` gives `Stop` and `CutOff` gives
/// `Length`, with the same text and the same counters.
pub proof fn lemma_terminal_choice(prompt_tokens: Option<usize>, fragments: Seq<Token>)
    requires
        forall|i: int| 0 <= i < fragments.len() ==> !(#[trigger] fragments[i]).is_terminal(),
    ensures
        ({
            let stopped = outcome(prompt_tokens, fragments.push(Token::EndOfText));
            let cut = outcome(prompt_tokens, fragments.push(Token::CutOff));
            &&& stopped.finish_reason == FinishReason::Stop
            &&& cut.finish_reason == FinishReason::Length
            &&& stopped.usage == cut.usage
            &&& stopped.usage.completion_tokens == fragments.len()
            &&& stopped.text == cut.text
        }),
{
    let stopped = fragments.push(Token::EndOfText);
    let cut = fragments.push(Token::CutOff);
    lemma_consumed(stopped);
    lemma_consumed(cut);
    assert(forall|i: int| 0 <= i < fragments.len() ==> stopped[i] == fragments[i]);
    assert(forall|i: int| 0 <= i < fragments.len() ==> cut[i] == fragments[i]);
    assert(stopped[fragments.len() as int].is_terminal());
    assert(cut[fragments.len() as int].is_terminal());
    assert(consumed(stopped) == fragments.len());
    assert(consumed(cut) == fragments.len());
    assert(stopped.take(fragments.len() as int) =~= fragments);
    assert(cut.take(fragments.len() as int) =~= fragments);
}

/// The same, said of an aggregation under way: a terminal value closes it and sets
/// the finish reason, and changes neither counters nor text. One that had closed
/// before looks at neither terminal value.
pub proof fn lemma_terminal_event(state: Progress, events: Seq<Option<Token>>)
    ensures
        ({
            let before = state.run(events);
            let stopped = state.run(events.push(Some(Token::EndOfText)));
            let cut = state.run(events.push(Some(Token::CutOff)));
            &&& stopped.usage == before.usage
            &&& cut.usage == before.usage
            &&& stopped.text == before.text
            &&& cut.text == before.text
            &&& !stopped.open
            &&& !cut.open
            &&& before.open ==> stopped.finish_reason == FinishReason::Stop
            &&& before.open ==> cut.finish_reason == FinishReason::Length
            &&& !before.open ==> stopped == before && cut == before
        }),
{
    assert(events.push(Some(Token::EndOfText)).drop_last() =~= events);
    assert(events.push(Some(Token::CutOff)).drop_last() =~= events);
}

/// A stream that closes without a terminal value leaves the finish reason at
/// `Null`, with every fragment counted.
pub proof fn lemma_unterminated_stream(prompt_tokens: Option<usize>, tokens: Seq<Token>)
    requires
        forall|i: int| 0 <= i < tokens.len() ==> !(#[trigger] tokens[i]).is_terminal(),
    ensures
        outcome(prompt_tokens, tokens).finish_reason == FinishReason::Null,
        outcome(prompt_tokens, tokens).usage.completion_tokens == tokens.len(),
{
    lemma_consumed(tokens);
}

/// The prompt token count moves the usage and nothing else: text, completion count
/// and finish reason are those of the stream alone. In particular a stream whose
/// prompt token count is missing aggregates exactly as one whose count is zero.
pub proof fn lemma_prompt_count_apart(
    first: Option<usize>,
    second: Option<usize>,
    tokens: Seq<Token>,
)
    ensures
        outcome(first, tokens).text == outcome(second, tokens).text,
        outcome(first, tokens).finish_reason == outcome(second, tokens).finish_reason,
        outcome(first, tokens).usage.completion_tokens == outcome(
            second,
            tokens,
        ).usage.completion_tokens,
        outcome(None, tokens) == outcome(Some(0), tokens),
        outcome(None, tokens).usage.prompt_tokens == 0,
{
}

/// The same, said of an aggregation under way, whatever events it is fed.
pub proof fn lemma_prompt_count_apart_in_events(
    first: Option<usize>,
    second: Option<usize>,
    events: Seq<Option<Token>>,
)
    ensures
        ({
            let one = Progress::start(first).run(events);
            let other = Progress::start(second).run(events);
            &&& one.text == other.text
            &&& one.finish_reason == other.finish_reason
            &&& one.open == other.open
            &&& one.usage.completion_tokens == other.usage.completion_tokens
        }),
        Progress::start(None).run(events) == Progress::start(Some(0)).run(events),
    decreases events.len(),
{
    if events.len() > 0 {
        lemma_prompt_count_apart_in_events(first, second, events.drop_last());
    }
}

} // verus!
