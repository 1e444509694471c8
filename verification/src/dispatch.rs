//! Handing generation tasks to the worker.
//!
//! Callers and worker meet at one channel, the dispatch channel, which carries
//! [`ThreadRequest`]s. Every request brings two reply channels of its own, made for it
//! and used for nothing else: the worker writes to them, the caller reads from them.
//!
//! The channels are those of the `flume` crate. Nothing is known here about what a
//! channel holds or who listens at its other end, so the declarations below promise
//! nothing about the values they return.

use vstd::prelude::*;
use crate::MAX_TOKENS;
use crate::request::{CompletionRequest, GenerateRequest, translation};
use crate::token::Token;

verus! {

/// `flume::Sender`, the sending end of a channel.
#[verifier::external_type_specification]
#[verifier::external_body]
#[verifier::reject_recursive_types(T)]
pub struct ExSender<T>(flume::Sender<T>);

/// `flume::Receiver`, the receiving end of a channel.
#[verifier::external_type_specification]
#[verifier::external_body]
#[verifier::reject_recursive_types(T)]
pub struct ExReceiver<T>(flume::Receiver<T>);

/// `flume::SendError`, which hands back a message that found no receiver.
#[verifier::external_type_specification]
#[verifier::external_body]
#[verifier::reject_recursive_types(T)]
pub struct ExSendError<T>(flume::SendError<T>);

/// `flume::unbounded` makes a channel without a capacity limit and returns its two
/// ends. It takes no input and always returns; nothing is claimed about the ends.
pub assume_specification<T>[ flume::unbounded::<T> ]() -> (ends: (
    flume::Sender<T>,
    flume::Receiver<T>,
));

/// `flume::Sender::send` puts a message into the channel, or returns it in an error
/// when every receiver is gone. On a channel without a capacity limit it does not
/// wait. Which of the two happens depends on the other end, so nothing is claimed
/// about the result.
pub assume_specification<T>[ flume::Sender::<T>::send ](
    sender: &flume::Sender<T>,
    msg: T,
) -> (sent: Result<(), flume::SendError<T>>);

/// `Clone::clone` on a `flume::Sender` returns one more sending end of the same
/// channel. Nothing is claimed about it.
pub assume_specification<T>[ <flume::Sender<T> as Clone>::clone ](
    sender: &flume::Sender<T>,
) -> (other: flume::Sender<T>);

/// What the worker is asked to do.
#[derive(Debug, Clone)]
pub enum RequestKind {
    /// The worker is to complete the prompt that the enclosed request holds.
    Completion(GenerateRequest),
}

/// The unit of work on the dispatch channel: a request and the sending ends of its two
/// reply channels.
pub struct ThreadRequest {
    pub request: RequestKind,
    /// Carries one value, the number of tokens in the prompt.
    pub prompt_tokens_sender: flume::Sender<usize>,
    /// Carries the generated tokens, ended by a terminal value.
    pub token_sender: flume::Sender<Token>,
}

/// The receiving ends of one request's reply channels, kept by the caller.
pub struct ReplyChannels {
    pub prompt_tokens_receiver: flume::Receiver<usize>,
    pub token_receiver: flume::Receiver<Token>,
}

impl ThreadRequest {
    /// Packages `request` with two fresh reply channels, neither with a capacity
    /// limit, and returns the receiving ends beside it.
    pub fn new(request: RequestKind) -> (made: (ThreadRequest, ReplyChannels))
        ensures
            made.0.request == request,
    {
        let (prompt_tokens_sender, prompt_tokens_receiver) = flume::unbounded();
        let (token_sender, token_receiver) = flume::unbounded();
        (
            ThreadRequest { request, prompt_tokens_sender, token_sender },
            ReplyChannels { prompt_tokens_receiver, token_receiver },
        )
    }

    /// Packages the task that `request` translates to under the ceiling
    /// [`MAX_TOKENS`].
    pub fn completion(request: CompletionRequest) -> (made: (ThreadRequest, ReplyChannels))
        ensures
            made.0.request matches RequestKind::Completion(task) && task@ == translation(
                request@,
                MAX_TOKENS as nat,
            ),
    {
        ThreadRequest::new(RequestKind::Completion(GenerateRequest::from(request)))
    }
}

/// The callers' end of the dispatch channel. It can be cloned freely: every clone
/// sends into the same channel.
///
/// A dispatcher is only ever made by [`dispatch_channel`], so its channel has no
/// capacity limit and sending into it never waits for the worker.
#[derive(Clone)]
pub struct Dispatcher {
    sender: flume::Sender<ThreadRequest>,
}

/// Makes the dispatch channel, without a capacity limit, and returns the callers' end
/// and the worker's end.
pub fn dispatch_channel() -> (ends: (Dispatcher, flume::Receiver<ThreadRequest>)) {
    let (sender, receiver) = flume::unbounded();
    (Dispatcher { sender }, receiver)
}

impl Dispatcher {
    /// Translates `request`, sends the task to the worker, and returns the ends at
    /// which the worker's replies arrive.
    ///
    /// The send is not waited for and its outcome is not reported: when no worker
    /// listens, the task is dropped together with the sending ends of its reply
    /// channels, and the caller finds both reply channels closed and empty.
    pub fn dispatch(&self, request: CompletionRequest) -> (replies: ReplyChannels) {
        let (thread_request, replies) = ThreadRequest::completion(request);
        let _ = self.sender.send(thread_request);
        replies
    }
}

} // verus!
