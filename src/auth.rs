//! The client's sign-in handshake: the single-slot cell that the local
//! callback endpoint fills, what that endpoint does with each request, and
//! the decision taken at each poll of the cell.

use vstd::prelude::*;

verus! {

/// How long the handshake waits for an outcome, from its start.
pub const DEADLINE_MS: u64 = 120_000;

/// The pause between two polls of the cell.
pub const POLL_INTERVAL_MS: u64 = 500;

/// The local port on which the callback endpoint listens.
pub const CALLBACK_PORT: u16 = 8080;

/// A terminal outcome forwarded by the browser.
#[derive(Debug, Clone)]
pub enum CallbackOutcome {
    /// The provider issued this bearer token.
    Token(String),
    /// The provider reported this error.
    Failure(String),
}

impl CallbackOutcome {
    /// A field-by-field copy of this outcome.
    pub fn duplicate(&self) -> (r: CallbackOutcome)
        ensures
            r == *self,
    {
        match self {
            CallbackOutcome::Token(t) => CallbackOutcome::Token(t.clone()),
            CallbackOutcome::Failure(d) => CallbackOutcome::Failure(d.clone()),
        }
    }
}

/// Why the handshake failed.
#[derive(Debug, Clone)]
pub enum AuthError {
    /// No outcome arrived before the deadline.
    Timeout,
    /// The provider reported this error through the callback.
    ProviderError(String),
    /// The browser could not be opened or the listener could not bind.
    TransportError(String),
}

/// Holds at most one outcome; written by the callback endpoint and read,
/// without being consumed, by the polling side.
#[derive(Debug, Clone)]
pub struct TokenCell {
    pub slot: Option<CallbackOutcome>,
}

impl TokenCell {
    /// An empty cell.
    pub fn new() -> (r: TokenCell)
        ensures
            r.slot is None,
    {
        TokenCell { slot: None }
    }

    /// Stores an outcome, replacing any earlier one.
    pub fn set(&mut self, outcome: CallbackOutcome)
        ensures
            final(self).slot == Some(outcome),
    {
        self.slot = Some(outcome);
    }

    /// The stored outcome, if any; the cell keeps it.
    pub fn get(&self) -> (r: Option<CallbackOutcome>)
        ensures
            r == self.slot,
    {
        match &self.slot {
            None => None,
            Some(o) => Some(o.duplicate()),
        }
    }
}

/// The page that the callback endpoint answers with.
#[derive(Debug, Clone, PartialEq, Eq)]
pub enum CallbackPage {
    /// Reports the provider's error to the user.
    Failed(String),
    /// Reads the token from the URL fragment, resubmits it as a query
    /// parameter, then closes the window.
    Relay,
}

/// What the callback endpoint does with a request: an error parameter is
/// stored as a failure and reported; otherwise a token parameter is stored as
/// a success; a request with neither leaves the cell as it was. Every page
/// but the failure page is the relay page.
pub open spec fn callback_effect(
    slot: Option<CallbackOutcome>,
    access_token: Option<String>,
    error: Option<String>,
) -> (Option<CallbackOutcome>, CallbackPage) {
    match error {
        Some(d) => (Some(CallbackOutcome::Failure(d)), CallbackPage::Failed(d)),
        None => match access_token {
            Some(t) => (Some(CallbackOutcome::Token(t)), CallbackPage::Relay),
            None => (slot, CallbackPage::Relay),
        },
    }
}

/// Handles one request of the callback endpoint, given its query parameters.
pub fn handle_callback(
    cell: &mut TokenCell,
    access_token: Option<String>,
    error: Option<String>,
) -> (r: CallbackPage)
    ensures
        (final(cell).slot, r) == callback_effect(old(cell).slot, access_token, error),
{
    match error {
        Some(d) => {
            let page = CallbackPage::Failed(d.clone());
            cell.set(CallbackOutcome::Failure(d));
            page
        },
        None => {
            match access_token {
                Some(t) => cell.set(CallbackOutcome::Token(t)),
                None => {},
            }
            CallbackPage::Relay
        },
    }
}

/// What the handshake does after a poll.
#[derive(Debug)]
pub enum PollAction {
    /// Sleep one interval and poll again.
    Wait,
    /// Stop the listener and return this result.
    Finish(Result<String, AuthError>),
}

/// The decision at a poll made `elapsed` milliseconds after the start, with
/// the cell holding `outcome`: a stored outcome ends the handshake at once;
/// with none, it times out once the deadline is passed.
pub open spec fn decide(elapsed: u64, outcome: Option<CallbackOutcome>) -> PollAction {
    match outcome {
        Some(CallbackOutcome::Token(t)) => PollAction::Finish(Ok(t)),
        Some(CallbackOutcome::Failure(d)) => PollAction::Finish(Err(AuthError::ProviderError(d))),
        None => if elapsed > DEADLINE_MS {
            PollAction::Finish(Err(AuthError::Timeout))
        } else {
            PollAction::Wait
        },
    }
}

/// The decision after a poll; see `decide`.
pub fn poll_step(elapsed_ms: u64, outcome: &Option<CallbackOutcome>) -> (r: PollAction)
    ensures
        r == decide(elapsed_ms, *outcome),
{
    match outcome {
        Some(CallbackOutcome::Token(t)) => PollAction::Finish(Ok(t.clone())),
        Some(CallbackOutcome::Failure(d)) => PollAction::Finish(Err(AuthError::ProviderError(d.clone()))),
        None => if elapsed_ms > DEADLINE_MS {
            PollAction::Finish(Err(AuthError::Timeout))
        } else {
            PollAction::Wait
        },
    }
}

/// With the cell left empty, the handshake never times out at or before the
/// deadline; and a poll that follows a waiting poll by at most one interval
/// either waits again or times out no later than one interval past the
/// deadline.
pub proof fn lemma_timeout_window(prev: u64, now: u64)
    requires
        decide(prev, None) == PollAction::Wait,
        prev < now <= prev + POLL_INTERVAL_MS,
    ensures
        prev <= DEADLINE_MS,
        decide(now, None) == PollAction::Wait || decide(now, None) == PollAction::Finish(
            Err(AuthError::Timeout),
        ),
        decide(now, None) == PollAction::Finish(Err(AuthError::Timeout)) <==> DEADLINE_MS < now,
        decide(now, None) == PollAction::Finish(Err(AuthError::Timeout)) ==> now <= DEADLINE_MS
            + POLL_INTERVAL_MS,
{
}

/// Once the callback endpoint has received an error, the very next poll
/// ends the handshake with that error, whenever it happens.
pub proof fn lemma_provider_error_is_reported(
    cell: TokenCell,
    access_token: Option<String>,
    description: String,
    elapsed: u64,
)
    ensures
        ({
            let (slot, page) = callback_effect(cell.slot, access_token, Some(description));
            &&& page == CallbackPage::Failed(description)
            &&& decide(elapsed, slot) == PollAction::Finish(
                Err(AuthError::ProviderError(description)),
            )
        }),
{
}

/// The address to open in the browser: the provider's authorization endpoint
/// under `provider_url`, with the local callback as the redirect target.
pub open spec fn authorize_url_of(provider_url: Seq<char>) -> Seq<char> {
    provider_url + "/auth/v1/authorize?provider=discord&redirect_to=http://localhost:8080/callback"@
}

/// Builds the address to open in the browser; see `authorize_url_of`.
pub fn authorize_url(provider_url: &str) -> (r: String)
    ensures
        r@ == authorize_url_of(provider_url@),
{
    provider_url.to_owned().concat(
        "/auth/v1/authorize?provider=discord&redirect_to=http://localhost:8080/callback",
    )
}

} // verus!
