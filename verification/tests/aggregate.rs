use completion_bridge::aggregate::{collect, Aggregator};
use completion_bridge::response::{CompletionChoice, CompletionResponse};
use completion_bridge::token::{FinishReason, Token, TokenCounter};

fn fragment(text: &str) -> Token {
    Token::Token(text.to_string())
}

fn feed(prompt_tokens: Option<usize>, events: Vec<Option<Token>>) -> Aggregator {
    let mut aggregator = Aggregator::new(prompt_tokens);
    for event in events {
        aggregator = aggregator.step(event);
    }
    aggregator
}

#[test]
fn two_fragments_then_end_of_text() {
    let response = collect(Some(3), &[fragment("a"), fragment("b"), Token::EndOfText]);
    assert_eq!(response.choices.len(), 1);
    assert_eq!(response.choices[0].text, "ab");
    assert_eq!(response.choices[0].finish_reason, FinishReason::Stop);
    assert_eq!(response.counter.completion_tokens, 2);
    assert_eq!(response.counter.prompt_tokens, 3);
    assert_eq!(response.counter.total_tokens, 5);
}

#[test]
fn cut_off_gives_length() {
    let response = collect(Some(3), &[fragment("a"), fragment("b"), Token::CutOff]);
    assert_eq!(response.choices[0].text, "ab");
    assert_eq!(response.choices[0].finish_reason, FinishReason::Length);
    assert_eq!(response.counter.completion_tokens, 2);
}

#[test]
fn terminal_variant_does_not_change_counters_or_text() {
    let fragments = vec![fragment("x"), fragment(""), fragment("yz"), fragment(" ")];
    let mut stopped = fragments.clone();
    stopped.push(Token::EndOfText);
    let mut cut = fragments;
    cut.push(Token::CutOff);
    let stopped = collect(Some(11), &stopped);
    let cut = collect(Some(11), &cut);
    assert_eq!(stopped.counter, cut.counter);
    assert_eq!(stopped.choices[0].text, cut.choices[0].text);
    assert_eq!(stopped.choices[0].index, cut.choices[0].index);
    assert_eq!(stopped.object, cut.object);
    assert_eq!(stopped.choices[0].finish_reason, FinishReason::Stop);
    assert_eq!(cut.choices[0].finish_reason, FinishReason::Length);
    assert_eq!(
        stopped.counter,
        TokenCounter { prompt_tokens: 11, completion_tokens: 4, total_tokens: 15 }
    );
}

#[test]
fn total_is_prompt_plus_completion() {
    let streams: Vec<(Option<usize>, Vec<Token>)> = vec![
        (None, vec![]),
        (Some(0), vec![Token::EndOfText]),
        (Some(9), vec![fragment("a"), Token::CutOff]),
        (Some(1000), vec![fragment("a"), fragment("b"), fragment("c")]),
        (None, vec![fragment("a"), Token::EndOfText, fragment("b")]),
        (Some(usize::MAX - 2), vec![fragment("a"), fragment("b"), Token::EndOfText]),
    ];
    for (prompt_tokens, tokens) in streams {
        let counter = collect(prompt_tokens, &tokens).counter;
        assert_eq!(counter.total_tokens, counter.prompt_tokens + counter.completion_tokens);
    }
}

#[test]
fn total_is_prompt_plus_completion_after_every_step() {
    let mut aggregator = Aggregator::new(Some(4));
    let events = vec![
        Some(fragment("a")),
        Some(fragment("b")),
        Some(Token::CutOff),
        Some(fragment("c")),
        None,
    ];
    for event in events {
        let counter = aggregator.counter();
        assert_eq!(counter.total_tokens, counter.prompt_tokens + counter.completion_tokens);
        aggregator = aggregator.step(event);
    }
    let counter = aggregator.counter();
    assert_eq!(counter, TokenCounter { prompt_tokens: 4, completion_tokens: 2, total_tokens: 6 });
}

#[test]
fn counters_may_reach_the_largest_number() {
    let response = collect(Some(usize::MAX - 1), &[fragment("a"), Token::EndOfText]);
    assert_eq!(
        response.counter,
        TokenCounter {
            prompt_tokens: usize::MAX - 1,
            completion_tokens: 1,
            total_tokens: usize::MAX,
        }
    );
}

#[test]
fn missing_prompt_token_count_defaults_to_zero() {
    let response = collect(None, &[fragment("a"), fragment("b"), Token::EndOfText]);
    assert_eq!(
        response.counter,
        TokenCounter { prompt_tokens: 0, completion_tokens: 2, total_tokens: 2 }
    );
    assert_eq!(response.choices[0].text, "ab");
    assert_eq!(response.choices[0].finish_reason, FinishReason::Stop);
}

#[test]
fn missing_prompt_token_count_aggregates_as_zero_does() {
    let tokens = vec![fragment("p"), fragment("q"), Token::CutOff];
    assert_eq!(collect(None, &tokens), collect(Some(0), &tokens));
}

#[test]
fn prompt_token_count_only_moves_the_usage() {
    let tokens = vec![fragment("p"), fragment("q"), Token::EndOfText];
    let one = collect(Some(5), &tokens);
    let other = collect(Some(500), &tokens);
    assert_eq!(one.choices, other.choices);
    assert_eq!(one.object, other.object);
    assert_eq!(one.counter.completion_tokens, other.counter.completion_tokens);
    assert_eq!(one.counter.total_tokens, 7);
    assert_eq!(other.counter.total_tokens, 502);
}

#[test]
fn new_aggregator_is_open_and_empty() {
    let aggregator = Aggregator::new(Some(8));
    assert!(aggregator.is_open());
    assert_eq!(
        aggregator.counter(),
        TokenCounter { prompt_tokens: 8, completion_tokens: 0, total_tokens: 8 }
    );
    let response = aggregator.into_response();
    assert_eq!(response.choices[0].text, "");
    assert_eq!(response.choices[0].finish_reason, FinishReason::Null);
}

#[test]
fn stream_closing_without_terminal_leaves_null() {
    let response = collect(Some(2), &[fragment("par"), fragment("tial")]);
    assert_eq!(response.choices[0].text, "partial");
    assert_eq!(response.choices[0].finish_reason, FinishReason::Null);
    assert_eq!(
        response.counter,
        TokenCounter { prompt_tokens: 2, completion_tokens: 2, total_tokens: 4 }
    );
}

#[test]
fn empty_stream_gives_empty_response() {
    let response = collect(None, &[]);
    assert_eq!(
        response,
        CompletionResponse {
            object: "text_completion".to_string(),
            choices: vec![CompletionChoice {
                text: String::new(),
                index: 0,
                finish_reason: FinishReason::Null,
            }],
            counter: TokenCounter { prompt_tokens: 0, completion_tokens: 0, total_tokens: 0 },
        }
    );
}

#[test]
fn terminal_alone() {
    let response = collect(Some(6), &[Token::EndOfText]);
    assert_eq!(response.choices[0].text, "");
    assert_eq!(response.choices[0].finish_reason, FinishReason::Stop);
    assert_eq!(response.counter.completion_tokens, 0);
    assert_eq!(response.counter.total_tokens, 6);
}

#[test]
fn nothing_is_consumed_after_a_terminal() {
    let response =
        collect(Some(1), &[fragment("a"), Token::EndOfText, fragment("b"), Token::CutOff]);
    assert_eq!(response.choices[0].text, "a");
    assert_eq!(response.choices[0].finish_reason, FinishReason::Stop);
    assert_eq!(response.counter.completion_tokens, 1);
    let response =
        collect(Some(1), &[fragment("a"), Token::CutOff, fragment("b"), Token::EndOfText]);
    assert_eq!(response.choices[0].text, "a");
    assert_eq!(response.choices[0].finish_reason, FinishReason::Length);
    assert_eq!(response.counter.completion_tokens, 1);
}

#[test]
fn step_tells_when_to_stop_reading() {
    let aggregator = Aggregator::new(None);
    let aggregator = aggregator.step(Some(fragment("a")));
    assert!(aggregator.is_open());
    let aggregator = aggregator.step(Some(Token::EndOfText));
    assert!(!aggregator.is_open());

    let aggregator = Aggregator::new(None).step(Some(Token::CutOff));
    assert!(!aggregator.is_open());

    let aggregator = Aggregator::new(None).step(None);
    assert!(!aggregator.is_open());
    assert_eq!(aggregator.into_response().choices[0].finish_reason, FinishReason::Null);
}

#[test]
fn closed_aggregator_ignores_every_event() {
    let closed = feed(Some(2), vec![Some(fragment("a")), Some(Token::CutOff)]);
    let expected = closed.into_response();
    for late in [Some(fragment("zzz")), Some(Token::EndOfText), Some(Token::CutOff), None] {
        let aggregator = feed(Some(2), vec![Some(fragment("a")), Some(Token::CutOff), late]);
        assert!(!aggregator.is_open());
        assert_eq!(aggregator.into_response(), expected);
    }
}

#[test]
fn closing_after_closing_changes_nothing() {
    let aggregator = feed(Some(2), vec![Some(fragment("a")), None, None, Some(Token::EndOfText)]);
    let response = aggregator.into_response();
    assert_eq!(response.choices[0].text, "a");
    assert_eq!(response.choices[0].finish_reason, FinishReason::Null);
    assert_eq!(response.counter.completion_tokens, 1);
}

#[test]
fn stepping_agrees_with_collecting() {
    let streams: Vec<Vec<Token>> = vec![
        vec![],
        vec![Token::EndOfText],
        vec![fragment("a"), fragment("b"), Token::EndOfText],
        vec![fragment("a"), Token::CutOff, fragment("b")],
        vec![fragment("only"), fragment(" fragments")],
    ];
    for tokens in streams {
        let mut events: Vec<Option<Token>> = tokens.iter().cloned().map(Some).collect();
        events.push(None);
        assert_eq!(feed(Some(3), events).into_response(), collect(Some(3), &tokens));
    }
}

#[test]
fn empty_fragments_are_counted() {
    let response = collect(Some(0), &[fragment(""), fragment(""), Token::EndOfText]);
    assert_eq!(response.choices[0].text, "");
    assert_eq!(response.counter.completion_tokens, 2);
    assert_eq!(response.counter.total_tokens, 2);
}

#[test]
fn fragments_are_appended_in_arrival_order() {
    let response = collect(None, &[fragment("c"), fragment("a"), fragment("b"), Token::EndOfText]);
    assert_eq!(response.choices[0].text, "cab");
    let response =
        collect(None, &[fragment("日本"), fragment("語"), fragment(" ✓"), Token::CutOff]);
    assert_eq!(response.choices[0].text, "日本語 ✓");
    assert_eq!(response.counter.completion_tokens, 3);
}

#[test]
fn response_builder_wraps_one_choice() {
    let counter = TokenCounter { prompt_tokens: 1, completion_tokens: 1, total_tokens: 2 };
    let response = CompletionResponse::new(counter, "!".to_string(), FinishReason::Stop);
    assert_eq!(response.object, "text_completion");
    assert_eq!(
        response.choices,
        vec![CompletionChoice {
            text: "!".to_string(),
            index: 0,
            finish_reason: FinishReason::Stop,
        }]
    );
    assert_eq!(response.counter, counter);
}

#[test]
fn response_builder_keeps_what_it_is_given() {
    let counter = TokenCounter { prompt_tokens: 7, completion_tokens: 0, total_tokens: 7 };
    let response = CompletionResponse::new(counter, String::new(), FinishReason::Null);
    assert_eq!(response.choices.len(), 1);
    assert_eq!(response.choices[0].index, 0);
    assert_eq!(response.choices[0].text, "");
    assert_eq!(response.choices[0].finish_reason, FinishReason::Null);
    assert_eq!(response.counter, counter);
    let response = CompletionResponse::new(counter, "text".to_string(), FinishReason::Length);
    assert_eq!(response.choices[0].text, "text");
    assert_eq!(response.choices[0].finish_reason, FinishReason::Length);
}

#[test]
fn finish_reason_wire_names() {
    assert_eq!(FinishReason::Null.wire_name(), "null");
    assert_eq!(FinishReason::Stop.wire_name(), "stop");
    assert_eq!(FinishReason::Length.wire_name(), "length");
}

#[test]
fn finish_reason_default_is_null() {
    assert_eq!(FinishReason::default(), FinishReason::Null);
}

#[test]
fn every_interleaving_gives_each_request_its_own_result() {
    let first = vec![fragment("a"), fragment("b"), Token::EndOfText];
    let second = vec![fragment("x"), Token::CutOff, fragment("y")];
    let first_alone = collect(Some(1), &first);
    let second_alone = collect(Some(2), &second);
    let events = |tokens: &Vec<Token>| -> Vec<Option<Token>> {
        let mut events: Vec<Option<Token>> = tokens.iter().cloned().map(Some).collect();
        events.push(None);
        events
    };
    let mut interleavings = 0;
    for order in 0u32..(1 << 8) {
        if order.count_ones() != 4 {
            continue;
        }
        interleavings += 1;
        let mut first_events = events(&first).into_iter();
        let mut second_events = events(&second).into_iter();
        let mut first_aggregator = Aggregator::new(Some(1));
        let mut second_aggregator = Aggregator::new(Some(2));
        for turn in 0..8 {
            if order & (1 << turn) != 0 {
                first_aggregator = first_aggregator.step(first_events.next().expect("four events"));
            } else {
                second_aggregator =
                    second_aggregator.step(second_events.next().expect("four events"));
            }
        }
        assert_eq!(first_aggregator.into_response(), first_alone);
        assert_eq!(second_aggregator.into_response(), second_alone);
    }
    assert_eq!(interleavings, 70);
    assert_eq!(first_alone.choices[0].text, "ab");
    assert_eq!(second_alone.choices[0].text, "x");
}
