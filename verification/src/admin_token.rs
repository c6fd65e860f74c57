//! The refresh protocol of the credential cache.
//!
//! A caller that wants an `Authorization` header first looks at the store
//! under a shared lock. If the kept token is stale it lets the shared lock
//! go, takes the exclusive lock and looks again, since another caller may
//! have refreshed the token in between. Only if the token is still stale
//! does it ask the issuer, while holding the exclusive lock, and keep what
//! comes back. The functions here make each of those decisions; taking the
//! locks, reading the clock and reaching the issuer are the caller's part.

use crate::reconciler::Error;
use crate::time::Timestamp;
use crate::token::{
    bearer_header, cached_header, kept_form, usable_expiry, valid_at, AdminAccessToken,
    TokenStore, TokenView,
};
use vstd::prelude::*;

verus! {

/// What a caller does after looking at the store under the shared lock.
#[derive(Clone, Debug, PartialEq, Eq)]
pub enum SharedStep {
    /// Let the shared lock go and return this header.
    Serve(String),
    /// Let the shared lock go, take the exclusive lock, read the clock and
    /// look again.
    AcquireExclusive,
}

/// What a caller does after looking at the store under the exclusive lock.
#[derive(Clone, Debug, PartialEq, Eq)]
pub enum ExclusiveStep {
    /// Let the exclusive lock go and return this header.
    Serve(String),
    /// Keep the exclusive lock and ask the issuer for a token with these
    /// credentials.
    Issue { username: String, password: String },
}

/// A `SharedStep` as the contracts see it.
pub enum SharedStepView {
    Serve(Seq<char>),
    AcquireExclusive,
}

/// An `ExclusiveStep` as the contracts see it.
pub enum ExclusiveStepView {
    Serve(Seq<char>),
    Issue { username: Seq<char>, password: Seq<char> },
}

impl View for SharedStep {
    type V = SharedStepView;

    open spec fn view(&self) -> SharedStepView {
        match self {
            SharedStep::Serve(header) => SharedStepView::Serve(header@),
            SharedStep::AcquireExclusive => SharedStepView::AcquireExclusive,
        }
    }
}

impl View for ExclusiveStep {
    type V = ExclusiveStepView;

    open spec fn view(&self) -> ExclusiveStepView {
        match self {
            ExclusiveStep::Serve(header) => ExclusiveStepView::Serve(header@),
            ExclusiveStep::Issue { username, password } => ExclusiveStepView::Issue {
                username: username@,
                password: password@,
            },
        }
    }
}

/// The outcome of a request for a header, with the header by its characters.
pub open spec fn outcome_view(outcome: Result<String, Error>) -> Result<Seq<char>, Error> {
    match outcome {
        Ok(header) => Ok(header@),
        Err(error) => Err(error),
    }
}

/// The issuer's reply, with the token by its view.
pub open spec fn reply_view(reply: Result<AdminAccessToken, Error>) -> Result<TokenView, Error> {
    match reply {
        Ok(issued) => Ok(issued@),
        Err(error) => Err(error),
    }
}

/// The decision under the shared lock: serve a valid token, otherwise go for
/// the exclusive lock.
pub open spec fn shared_decision(kept: Option<TokenView>, now: Timestamp) -> SharedStepView {
    match cached_header(kept, now) {
        Some(header) => SharedStepView::Serve(header),
        None => SharedStepView::AcquireExclusive,
    }
}

/// The decision under the exclusive lock: serve a token that has become
/// valid in the meantime, otherwise ask the issuer with the configured
/// credentials.
pub open spec fn exclusive_decision(
    kept: Option<TokenView>,
    now: Timestamp,
    username: Seq<char>,
    password: Seq<char>,
) -> ExclusiveStepView {
    match cached_header(kept, now) {
        Some(header) => ExclusiveStepView::Serve(header),
        None => ExclusiveStepView::Issue { username, password },
    }
}

/// What the store holds after the issuer's reply: an issued token in its
/// kept form, or what was there before if the issuer failed.
pub open spec fn kept_after_reply(
    kept: Option<TokenView>,
    reply: Result<TokenView, Error>,
) -> Option<TokenView> {
    match reply {
        Ok(issued) => Some(kept_form(issued)),
        Err(_) => kept,
    }
}

/// What the caller gets after the issuer's reply: the header for the issued
/// token, or the issuer's error as it came.
pub open spec fn outcome_after_reply(reply: Result<TokenView, Error>) -> Result<Seq<char>, Error> {
    match reply {
        Ok(issued) => Ok(bearer_header(issued.access_token)),
        Err(error) => Err(error),
    }
}

/// A token is never served stale: a look ends in a header exactly when the
/// kept token is valid at that look, and the header is that token's.
pub proof fn lemma_only_valid_tokens_are_served(
    kept: Option<TokenView>,
    now: Timestamp,
    username: Seq<char>,
    password: Seq<char>,
)
    ensures
        shared_decision(kept, now) is Serve <==> valid_at(kept, now),
        exclusive_decision(kept, now, username, password) is Serve <==> valid_at(kept, now),
        valid_at(kept, now) ==> {
            let header = bearer_header(kept.unwrap().access_token);
            &&& shared_decision(kept, now) == SharedStepView::Serve(header)
            &&& exclusive_decision(kept, now, username, password) == ExclusiveStepView::Serve(
                header,
            )
        },
{
}

/// Decides what a caller holding the shared lock does, given the clock
/// reading it took under that lock.
pub fn on_shared(store: &TokenStore, now: &Timestamp) -> (step: SharedStep)
    ensures
        step@ == shared_decision(store@, *now),
{
    match store.valid_header(now) {
        Some(header) => SharedStep::Serve(header),
        None => SharedStep::AcquireExclusive,
    }
}

/// Decides what a caller holding the exclusive lock does, given the clock
/// reading it took under that lock and the credentials it is configured
/// with.
pub fn on_exclusive(store: &TokenStore, now: &Timestamp, username: &str, password: &str) -> (step:
    ExclusiveStep)
    ensures
        step@ == exclusive_decision(store@, *now, username@, password@),
{
    match store.valid_header(now) {
        Some(header) => ExclusiveStep::Serve(header),
        None => ExclusiveStep::Issue {
            username: username.to_owned(),
            password: password.to_owned(),
        },
    }
}

/// Takes the issuer's reply for a caller holding the exclusive lock: keeps an
/// issued token and returns its header, or leaves the store alone and hands
/// the error on.
pub fn on_issued(store: &mut TokenStore, reply: Result<AdminAccessToken, Error>) -> (outcome: Result<
    String,
    Error,
>)
    ensures
        reply matches Ok(issued) ==> usable_expiry(issued@.expires_at) is Some,
        final(store)@ == kept_after_reply(old(store)@, reply_view(reply)),
        outcome_view(outcome) == outcome_after_reply(reply_view(reply)),
{
    match reply {
        Ok(issued) => Ok(store.store(issued)),
        Err(error) => Err(error),
    }
}

/// Something that can exchange long-lived credentials for a short-lived
/// token.
pub trait AdminAccessTokenClient {
    /// Asks for a token with the given credentials.
    fn create_admin_access_token(&self, username: &str, password: &str) -> Result<
        AdminAccessToken,
        Error,
    >;
}

/// A credential cache with a single owner: credentials, an issuer and the
/// token store.
pub struct RefreshableAdminAuthContext<T: AdminAccessTokenClient> {
    username: String,
    password: String,
    client: T,
    token: TokenStore,
}

/// A `RefreshableAdminAuthContext` as the contracts see it.
pub struct AuthContextView {
    pub username: Seq<char>,
    pub password: Seq<char>,
    pub kept: Option<TokenView>,
}

impl<T: AdminAccessTokenClient> View for RefreshableAdminAuthContext<T> {
    type V = AuthContextView;

    closed spec fn view(&self) -> AuthContextView {
        AuthContextView {
            username: self.username@,
            password: self.password@,
            kept: self.token@,
        }
    }
}

impl<T: AdminAccessTokenClient> RefreshableAdminAuthContext<T> {
    /// A cache with no token yet.
    pub fn new(username: String, password: String, client: T) -> (context: Self)
        ensures
            context@ == (AuthContextView {
                username: username@,
                password: password@,
                kept: None,
            }),
    {
        Self { username, password, client, token: TokenStore::new() }
    }

    /// Returns the header for the kept token if it is valid at `now`, and
    /// otherwise asks the issuer once and returns what `on_issued` makes of
    /// the reply. The sole owner needs no lock: having the cache to itself,
    /// it stands where a caller holding the exclusive lock stands. The
    /// credentials never change.
    pub fn get_auth_header_value(&mut self, now: &Timestamp) -> (outcome: Result<String, Error>)
        ensures
            final(self)@.username == old(self)@.username,
            final(self)@.password == old(self)@.password,
            valid_at(old(self)@.kept, *now) ==> final(self)@.kept == old(self)@.kept
                && outcome_view(outcome) == Ok::<Seq<char>, Error>(
                bearer_header(old(self)@.kept.unwrap().access_token),
            ),
            !valid_at(old(self)@.kept, *now) ==> exists|reply: Result<TokenView, Error>|
                {
                    &&& reply matches Ok(issued) ==> usable_expiry(issued.expires_at) is Some
                    &&& final(self)@.kept == kept_after_reply(old(self)@.kept, reply)
                    &&& outcome_view(outcome) == #[trigger] outcome_after_reply(reply)
                },
    {
        match on_exclusive(&self.token, now, self.username.as_str(), self.password.as_str()) {
            ExclusiveStep::Serve(header) => Ok(header),
            ExclusiveStep::Issue { username, password } => {
                let reply = self.client.create_admin_access_token(
                    username.as_str(),
                    password.as_str(),
                );
                let ghost seen = reply_view(reply);
                let outcome = on_issued(&mut self.token, reply);
                assert(outcome_view(outcome) == outcome_after_reply(seen));
                outcome
            },
        }
    }
}

} // verus!
