//! What can go wrong with an actor.
use vstd::prelude::*;

verus! {

/// The name under which an actor can be found.
pub type ActorName = String;

/// Why a hook of an actor failed.
///
/// `E` is the error that the actor's own code returns. The runtime hands such an error on as it
/// is; the other failures are texts of the runtime.
pub enum ActorProcessingErr<E> {
    /// A failure that the runtime words itself.
    Text(String),
    /// An error that a hook returned.
    Raised(E),
}

/// An [`ActorProcessingErr`] with its text as a sequence of characters.
#[verifier::ext_equal]
pub enum ActorProcessingErrView<E> {
    Text(Seq<char>),
    Raised(E),
}

impl<E> View for ActorProcessingErr<E> {
    type V = ActorProcessingErrView<E>;

    open spec fn view(&self) -> ActorProcessingErrView<E> {
        match self {
            ActorProcessingErr::Text(text) => ActorProcessingErrView::Text(text@),
            ActorProcessingErr::Raised(error) => ActorProcessingErrView::Raised(*error),
        }
    }
}

/// Why an actor could not be started.
pub enum SpawnErr<E> {
    /// The hook `pre_start` failed or panicked.
    StartupPanic(ActorProcessingErr<E>),
    /// The actor has been started before.
    ActorAlreadyStarted,
    /// Another actor has the name.
    ActorAlreadyRegistered(ActorName),
}

/// A [`SpawnErr`] with its texts as sequences of characters.
#[verifier::ext_equal]
pub enum SpawnErrView<E> {
    StartupPanic(ActorProcessingErrView<E>),
    ActorAlreadyStarted,
    ActorAlreadyRegistered(Seq<char>),
}

impl<E> View for SpawnErr<E> {
    type V = SpawnErrView<E>;

    open spec fn view(&self) -> SpawnErrView<E> {
        match self {
            SpawnErr::StartupPanic(error) => SpawnErrView::StartupPanic(error@),
            SpawnErr::ActorAlreadyStarted => SpawnErrView::ActorAlreadyStarted,
            SpawnErr::ActorAlreadyRegistered(name) => SpawnErrView::ActorAlreadyRegistered(name@),
        }
    }
}

/// Why the processing of an actor's messages ended early.
pub enum ActorErr<E> {
    /// The processing was cancelled.
    Cancelled,
    /// A hook failed or panicked.
    Panic(ActorProcessingErr<E>),
}

/// An [`ActorErr`] with its text as a sequence of characters.
#[verifier::ext_equal]
pub enum ActorErrView<E> {
    Cancelled,
    Panic(ActorProcessingErrView<E>),
}

impl<E> View for ActorErr<E> {
    type V = ActorErrView<E>;

    open spec fn view(&self) -> ActorErrView<E> {
        match self {
            ActorErr::Cancelled => ActorErrView::Cancelled,
            ActorErr::Panic(error) => ActorErrView::Panic(error@),
        }
    }
}

/// Why a message did not get through.
#[derive(Clone, Copy, PartialEq, Eq, Structural, Debug)]
pub enum MessagingErr {
    /// The receiver is gone.
    ChannelClosed,
    /// The receiver takes messages of another type.
    InvalidActorType,
}

/// What a panic carried.
pub enum PanicPayload {
    /// A text made at run time.
    Owned(String),
    /// A text of the program.
    Static(&'static str),
    /// A value that is no text.
    Other,
}

/// The text of a panic whose payload is no text.
pub open spec fn unknown_panic() -> Seq<char> {
    "Unknown panic occurred which couldn't be coerced to a string"@
}

/// The text that stands for a panic.
pub open spec fn panic_text(e: PanicPayload) -> Seq<char> {
    match e {
        PanicPayload::Owned(text) => text@,
        PanicPayload::Static(text) => text@,
        PanicPayload::Other => unknown_panic(),
    }
}

/// Turns what a panic carried into a failure: its text, where it has one.
pub fn get_panic_string<E>(e: PanicPayload) -> (res: ActorProcessingErr<E>)
    ensures
        res@ == ActorProcessingErrView::<E>::Text(panic_text(e)),
        res matches ActorProcessingErr::Text(text) && match e {
            PanicPayload::Owned(t) => text@ == t@,
            PanicPayload::Static(t) => text@ == t@,
            PanicPayload::Other => text@
                == "Unknown panic occurred which couldn't be coerced to a string"@,
        },
{
    match e {
        PanicPayload::Owned(text) => ActorProcessingErr::Text(text),
        PanicPayload::Static(text) => ActorProcessingErr::Text(String::from_str(text)),
        PanicPayload::Other => ActorProcessingErr::Text(
            String::from_str("Unknown panic occurred which couldn't be coerced to a string"),
        ),
    }
}

/// How the run of a hook ended: with what it returned, or with a panic.
pub type HookOutcome<T, E> = Result<Result<T, E>, PanicPayload>;

/// The failure in the outcome of a hook, if there is one.
pub open spec fn hook_failure<T, E>(outcome: HookOutcome<T, E>) -> Option<ActorProcessingErrView<E>> {
    match outcome {
        Ok(Ok(_)) => None,
        Ok(Err(error)) => Some(ActorProcessingErrView::Raised(error)),
        Err(panic) => Some(ActorProcessingErrView::Text(panic_text(panic))),
    }
}

} // verus!
