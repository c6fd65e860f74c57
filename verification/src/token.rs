//! Bearer tokens: what the issuer hands out, what the cache keeps, and the
//! header a kept token turns into.

use crate::time::{Timestamp, NANOS_PER_SECOND};
use vstd::prelude::*;
use vstd::string::*;

verus! {

/// Seconds taken off an issued token's expiry before it is kept, so that a
/// token is given up a little before the issuer gives it up.
pub const EXPIRY_MARGIN_SECONDS: u32 = 30;

/// A token as the contracts see it: the characters of the secret and an
/// expiry instant.
pub struct TokenView {
    pub access_token: Seq<char>,
    pub expires_at: Timestamp,
}

/// The expiry a token is kept with: the issuer's expiry less the margin.
pub open spec fn usable_expiry(expires_at: Timestamp) -> Option<Timestamp> {
    expires_at.minus_seconds(EXPIRY_MARGIN_SECONDS as int)
}

/// The form in which an issued token is kept: same secret, usable expiry.
pub open spec fn kept_form(issued: TokenView) -> TokenView {
    TokenView {
        access_token: issued.access_token,
        expires_at: usable_expiry(issued.expires_at).unwrap(),
    }
}

/// Whether a kept token may still be handed out at `now`: there is one, and
/// its usable expiry is strictly later than `now`.
pub open spec fn valid_at(kept: Option<TokenView>, now: Timestamp) -> bool {
    kept matches Some(token) && token.expires_at.later_than(now)
}

/// The value of the `Authorization` header for a token.
pub open spec fn bearer_header(access_token: Seq<char>) -> Seq<char> {
    "Bearer "@ + access_token
}

/// The header served from the cache at `now`, if the kept token is valid.
pub open spec fn cached_header(kept: Option<TokenView>, now: Timestamp) -> Option<Seq<char>> {
    if valid_at(kept, now) {
        Some(bearer_header(kept.unwrap().access_token))
    } else {
        None
    }
}

/// The margin, in numbers: a kept token expires thirty seconds before the
/// issuer's expiry. An expiry inside a leap second is first taken out of the
/// leap second, so the seconds go back by twenty-nine and the nanoseconds by
/// a full second.
pub proof fn lemma_kept_expiry(issued: TokenView)
    requires
        usable_expiry(issued.expires_at) is Some,
    ensures
        issued.expires_at.nanos < NANOS_PER_SECOND ==> {
            &&& kept_form(issued).expires_at.seconds == issued.expires_at.seconds - 30
            &&& kept_form(issued).expires_at.nanos == issued.expires_at.nanos
        },
        issued.expires_at.nanos >= NANOS_PER_SECOND ==> {
            &&& kept_form(issued).expires_at.seconds == issued.expires_at.seconds - 29
            &&& kept_form(issued).expires_at.nanos == issued.expires_at.nanos - NANOS_PER_SECOND
        },
        kept_form(issued).access_token == issued.access_token,
{
}

/// The window in which a kept token is served, in terms of the expiry the
/// issuer reported: the token is valid at `now` exactly while more than
/// thirty seconds remain until that expiry.
pub proof fn lemma_validity_window(issued: TokenView, now: Timestamp)
    requires
        usable_expiry(issued.expires_at) is Some,
        issued.expires_at.nanos < NANOS_PER_SECOND,
    ensures
        valid_at(Some(kept_form(issued)), now) <==> {
            ||| issued.expires_at.seconds - now.seconds > 30
            ||| (issued.expires_at.seconds - now.seconds == 30 && issued.expires_at.nanos
                > now.nanos)
        },
{
}

/// Builds the `Authorization` header value for a token.
pub fn create_bearer_auth_header(access_token: &str) -> (header: String)
    ensures
        header@ == bearer_header(access_token@),
{
    let mut header = "Bearer ".to_owned();
    header.append(access_token);
    header
}

/// A token as issued: the secret and the instant the issuer will stop
/// honouring it. Every value has an expiry the margin can be taken off, and
/// carries the result of doing so.
#[derive(Debug)]
pub struct AdminAccessToken {
    access_token: String,
    expires_at: Timestamp,
    usable_until: Timestamp,
}

impl View for AdminAccessToken {
    type V = TokenView;

    closed spec fn view(&self) -> TokenView {
        TokenView { access_token: self.access_token@, expires_at: self.expires_at }
    }
}

impl Clone for AdminAccessToken {
    fn clone(&self) -> (copy: AdminAccessToken)
        ensures
            copy@ == self@,
    {
        proof {
            use_type_invariant(self);
        }
        AdminAccessToken {
            access_token: self.access_token.clone(),
            expires_at: self.expires_at,
            usable_until: self.usable_until,
        }
    }
}

impl AdminAccessToken {
    #[verifier::type_invariant]
    spec fn margin_taken(self) -> bool {
        usable_expiry(self.expires_at) == Some(self.usable_until)
    }

    /// Makes an issued token, provided the margin can be taken off its expiry.
    pub fn new(access_token: String, expires_at: Timestamp) -> (token: Option<AdminAccessToken>)
        ensures
            token is Some <==> usable_expiry(expires_at) is Some,
            token matches Some(t) ==> t@ == (TokenView {
                access_token: access_token@,
                expires_at,
            }),
    {
        match expires_at.checked_sub_seconds(EXPIRY_MARGIN_SECONDS) {
            Some(usable_until) => Some(AdminAccessToken { access_token, expires_at, usable_until }),
            None => None,
        }
    }

    /// The secret.
    pub fn access_token(&self) -> (secret: &str)
        ensures
            secret@ == self@.access_token,
    {
        self.access_token.as_str()
    }

    /// The expiry the issuer reported.
    pub fn expires_at(&self) -> (expiry: Timestamp)
        ensures
            expiry == self@.expires_at,
            usable_expiry(expiry) is Some,
    {
        proof {
            use_type_invariant(self);
        }
        self.expires_at
    }
}

/// The kept token: the secret and its usable expiry.
#[derive(Clone, Debug)]
struct StoredAccessToken {
    access_token: String,
    expires_at: Timestamp,
}

/// Holds at most one kept token. A token enters whole and is replaced whole.
#[derive(Clone, Debug)]
pub struct TokenStore {
    token: Option<StoredAccessToken>,
}

impl View for TokenStore {
    type V = Option<TokenView>;

    closed spec fn view(&self) -> Option<TokenView> {
        match self.token {
            Some(kept) => Some(
                TokenView { access_token: kept.access_token@, expires_at: kept.expires_at },
            ),
            None => None,
        }
    }
}

impl TokenStore {
    /// A store with no token.
    pub fn new() -> (store: TokenStore)
        ensures
            store@ is None,
    {
        TokenStore { token: None }
    }

    /// The header for the kept token, if it is valid at `now`.
    pub fn valid_header(&self, now: &Timestamp) -> (header: Option<String>)
        ensures
            match cached_header(self@, *now) {
                Some(expected) => header matches Some(h) && h@ == expected,
                None => header is None,
            },
    {
        match &self.token {
            Some(kept) => {
                if kept.expires_at.is_after(now) {
                    Some(create_bearer_auth_header(kept.access_token.as_str()))
                } else {
                    None
                }
            },
            None => None,
        }
    }

    /// The usable expiry of the kept token, if there is one.
    pub fn expires_at(&self) -> (expiry: Option<Timestamp>)
        ensures
            match self@ {
                Some(kept) => expiry == Some(kept.expires_at),
                None => expiry is None,
            },
    {
        match &self.token {
            Some(kept) => Some(kept.expires_at),
            None => None,
        }
    }

    /// Replaces whatever is kept with `issued`, its expiry reduced by the
    /// margin, and returns the header for it.
    pub fn store(&mut self, issued: AdminAccessToken) -> (header: String)
        ensures
            usable_expiry(issued@.expires_at) is Some,
            final(self)@ == Some(kept_form(issued@)),
            header@ == bearer_header(issued@.access_token),
    {
        proof {
            use_type_invariant(&issued);
        }
        let header = create_bearer_auth_header(issued.access_token.as_str());
        self.token = Some(
            StoredAccessToken {
                access_token: issued.access_token,
                expires_at: issued.usable_until,
            },
        );
        header
    }
}

} // verus!
