use vstd::prelude::*;
use vstd::string::*;
use crate::event::{
    event_valid, get_event_first_tag_with_value, opt_view, tag_value, tags_view, validate_event,
    Event,
};

verus! {

/// Accepted distance, in seconds, between an auth event's timestamp and now.
pub const AUTH_CREATED_AT_DELTA_SEC: u64 = 300;

/// The event kind reserved for authentication.
pub const AUTH_EVENT_KIND: u64 = 22242;

/// Why an auth response was refused.
#[derive(PartialEq, Eq, Structural, Debug, Clone, Copy)]
pub enum AuthError {
    /// The session has already proved an identity.
    AlreadyAuthenticated,
    /// The event fails the integrity and signature check.
    InvalidEvent,
    /// The event is not of the authentication kind.
    InvalidKind,
    /// The event's timestamp is too far from now.
    InvalidCreatedAt,
    /// The `relay` tag does not name this service.
    InvalidRelayTag,
    /// The `challenge` tag does not carry this session's challenge.
    InvalidChallengeTag,
}

impl AuthError {
    pub open spec fn message_spec(self) -> Seq<char> {
        match self {
            AuthError::AlreadyAuthenticated => "Already authenticated"@,
            AuthError::InvalidEvent => "Invalid event"@,
            AuthError::InvalidKind => "Invalid event kind"@,
            AuthError::InvalidCreatedAt => "Invalid event created_at. Must be within 5 minutes now"@,
            AuthError::InvalidRelayTag => "Invalid relay tag"@,
            AuthError::InvalidChallengeTag => "Invalid challenge tag"@,
        }
    }

    /// A human-readable reason.
    pub fn message(&self) -> (r: String)
        ensures
            r@ == self.message_spec(),
    {
        match self {
            AuthError::AlreadyAuthenticated => String::from_str("Already authenticated"),
            AuthError::InvalidEvent => String::from_str("Invalid event"),
            AuthError::InvalidKind => String::from_str("Invalid event kind"),
            AuthError::InvalidCreatedAt => String::from_str(
                "Invalid event created_at. Must be within 5 minutes now",
            ),
            AuthError::InvalidRelayTag => String::from_str("Invalid relay tag"),
            AuthError::InvalidChallengeTag => String::from_str("Invalid challenge tag"),
        }
    }
}

/// What the auth checks decide, in their order, from the values they read.
pub open spec fn auth_verdict_spec(
    confirmed: bool,
    challenge: Seq<char>,
    relay_identifier: Seq<char>,
    kind: u64,
    created_at: u64,
    valid: bool,
    relay_tag: Option<Seq<char>>,
    challenge_tag: Option<Seq<char>>,
    now: u64,
) -> Result<(), AuthError> {
    if confirmed {
        Err(AuthError::AlreadyAuthenticated)
    } else if !valid {
        Err(AuthError::InvalidEvent)
    } else if kind != AUTH_EVENT_KIND {
        Err(AuthError::InvalidKind)
    } else if !crate::within_delta(created_at, now, AUTH_CREATED_AT_DELTA_SEC) {
        Err(AuthError::InvalidCreatedAt)
    } else if relay_tag != Some(relay_identifier) {
        Err(AuthError::InvalidRelayTag)
    } else if challenge_tag != Some(challenge) {
        Err(AuthError::InvalidChallengeTag)
    } else {
        Ok(())
    }
}

pub open spec fn relay_key() -> Seq<char> {
    seq!['r', 'e', 'l', 'a', 'y']
}

pub open spec fn challenge_key() -> Seq<char> {
    seq!['c', 'h', 'a', 'l', 'l', 'e', 'n', 'g', 'e']
}

/// The state a connection keeps about its peer.
#[derive(Clone, Debug)]
pub struct PeerInfo {
    pub id: usize,
    /// The peer's address as text, when known.
    pub real_ip: Option<String>,
    pub auth_challenge: String,
    pub auth_confirmed: bool,
    pub pubkey: Option<String>,
}

/// What checking `event` as an auth response from `peer` at time `now` decides.
pub open spec fn auth_response(
    peer: PeerInfo,
    relay_identifier: Seq<char>,
    event: Event,
    now: u64,
) -> Result<(), AuthError> {
    auth_verdict_spec(
        peer.auth_confirmed,
        peer.auth_challenge@,
        relay_identifier,
        event.kind,
        event.created_at,
        event_valid(event),
        tag_value(tags_view(event.tags@), relay_key()),
        tag_value(tags_view(event.tags@), challenge_key()),
        now,
    )
}

/// Decides an auth response from the values the checks read.
pub fn auth_verdict(
    confirmed: bool,
    challenge: &String,
    relay_identifier: &String,
    kind: u64,
    created_at: u64,
    valid: bool,
    relay_tag: &Option<String>,
    challenge_tag: &Option<String>,
    now: u64,
) -> (r: Result<(), AuthError>)
    ensures
        r == auth_verdict_spec(
            confirmed,
            challenge@,
            relay_identifier@,
            kind,
            created_at,
            valid,
            opt_view(*relay_tag),
            opt_view(*challenge_tag),
            now,
        ),
{
    if confirmed {
        return Err(AuthError::AlreadyAuthenticated);
    }
    if !valid {
        return Err(AuthError::InvalidEvent);
    }
    if kind != AUTH_EVENT_KIND {
        return Err(AuthError::InvalidKind);
    }
    if !crate::is_within_delta(created_at, now, AUTH_CREATED_AT_DELTA_SEC) {
        return Err(AuthError::InvalidCreatedAt);
    }
    let relay_ok = match relay_tag {
        Some(t) => *t == *relay_identifier,
        None => false,
    };
    if !relay_ok {
        return Err(AuthError::InvalidRelayTag);
    }
    let challenge_ok = match challenge_tag {
        Some(t) => *t == *challenge,
        None => false,
    };
    if !challenge_ok {
        return Err(AuthError::InvalidChallengeTag);
    }
    Ok(())
}

pub open spec fn is_lower_hex_digit(c: char) -> bool {
    ('0' <= c && c <= '9') || ('a' <= c && c <= 'f')
}

/// A version 4, RFC 4122 variant UUID in lowercase hyphenated form:
/// `xxxxxxxx-xxxx-4xxx-Yxxx-xxxxxxxxxxxx` with `Y` one of `8`, `9`, `a`, `b`.
pub open spec fn is_uuid_v4_text(s: Seq<char>) -> bool {
    &&& s.len() == 36
    &&& forall|i: int|
        0 <= i < 36 ==> if i == 8 || i == 13 || i == 18 || i == 23 {
            #[trigger] s[i] == '-'
        } else {
            is_lower_hex_digit(s[i])
        }
    &&& s[14] == '4'
    &&& (s[19] == '8' || s[19] == '9' || s[19] == 'a' || s[19] == 'b')
}

/// Relies on uuid's `Uuid::new_v4`, which masks random bits to version 4 and the
/// RFC 4122 variant, and its `to_string`, the lowercase hyphenated form.
#[verifier::external_body]
fn new_challenge() -> (r: String)
    ensures
        is_uuid_v4_text(r@),
{
    uuid::Uuid::new_v4().to_string()
}

impl PeerInfo {
    /// The identity is recorded exactly when authentication is confirmed.
    pub open spec fn wf(&self) -> bool {
        self.pubkey.is_some() == self.auth_confirmed
    }

    /// A new, unauthenticated peer with a fresh random challenge.
    pub fn new(id: usize, real_ip: Option<String>) -> (r: Self)
        ensures
            r.wf(),
            r.id == id,
            r.real_ip == real_ip,
            !r.auth_confirmed,
            r.pubkey is None,
            is_uuid_v4_text(r.auth_challenge@),
    {
        let auth_challenge = new_challenge();
        PeerInfo { id, real_ip, auth_challenge, auth_confirmed: false, pubkey: None }
    }

    /// The frame `["AUTH", "<challenge>"]` that opens a session.
    pub fn generate_auth_request_cmd(&self) -> (r: String)
        ensures
            r@ == auth_request_frame(self.auth_challenge@),
    {
        let mut s = String::from_str("[\"AUTH\", \"");
        s.append(self.auth_challenge.as_str());
        s.append("\"]");
        s
    }

    /// Checks `event` as the answer to this peer's challenge at time `now`, and on
    /// success records the event's pubkey as the peer's identity.
    pub fn check_auth_response_at(&mut self, relay_identifier: String, event: &Event, now: u64) -> (r:
        Result<(), AuthError>)
        requires
            old(self).wf(),
        ensures
            r == auth_response(*old(self), relay_identifier@, *event, now),
            final(self).wf(),
            r is Err ==> *final(self) == *old(self),
            r is Ok ==> {
                &&& final(self).auth_confirmed
                &&& opt_view(final(self).pubkey) == Some(event.pubkey@)
                &&& final(self).id == old(self).id
                &&& final(self).real_ip == old(self).real_ip
                &&& final(self).auth_challenge == old(self).auth_challenge
            },
    {
        let valid = if self.auth_confirmed {
            false
        } else {
            validate_event(event)
        };
        proof {
            reveal_strlit("relay");
            reveal_strlit("challenge");
        }
        let relay_tag = get_event_first_tag_with_value(event, "relay");
        let challenge_tag = get_event_first_tag_with_value(event, "challenge");
        assert("relay"@ =~= relay_key());
        assert("challenge"@ =~= challenge_key());
        let r = auth_verdict(
            self.auth_confirmed,
            &self.auth_challenge,
            &relay_identifier,
            event.kind,
            event.created_at,
            valid,
            &relay_tag,
            &challenge_tag,
            now,
        );
        if r.is_ok() {
            self.auth_confirmed = true;
            self.pubkey = Some(event.pubkey.clone());
        }
        r
    }

    /// Checks `event` as the answer to this peer's challenge against the current
    /// time, as `check_auth_response_at` does.
    pub fn check_auth_response(&mut self, relay_identifier: String, event: &Event) -> (r: Result<
        (),
        AuthError,
    >)
        requires
            old(self).wf(),
        ensures
            exists|now: u64| r == #[trigger] auth_response(*old(self), relay_identifier@, *event, now),
            final(self).wf(),
            r is Err ==> *final(self) == *old(self),
            r is Ok ==> {
                &&& final(self).auth_confirmed
                &&& opt_view(final(self).pubkey) == Some(event.pubkey@)
                &&& final(self).id == old(self).id
                &&& final(self).real_ip == old(self).real_ip
                &&& final(self).auth_challenge == old(self).auth_challenge
            },
    {
        let now = crate::get_timestamp();
        let r = self.check_auth_response_at(relay_identifier, event, now);
        r
    }
}

/// The frame `["AUTH", "<challenge>"]`.
pub open spec fn auth_request_frame(challenge: Seq<char>) -> Seq<char> {
    "[\"AUTH\", \""@ + challenge + "\"]"@
}


/// An auth response whose `challenge` tag is not the session's challenge is refused,
/// whatever its other fields hold.
pub proof fn lemma_wrong_challenge_rejected(
    peer: PeerInfo,
    relay_identifier: Seq<char>,
    event: Event,
    now: u64,
)
    requires
        tag_value(tags_view(event.tags@), challenge_key()) != Some(peer.auth_challenge@),
    ensures
        auth_response(peer, relay_identifier, event, now) is Err,
{
}

/// An auth response stamped more than five minutes before or after `now` is refused.
pub proof fn lemma_stale_auth_rejected(
    peer: PeerInfo,
    relay_identifier: Seq<char>,
    event: Event,
    now: u64,
)
    requires
        !crate::within_delta(event.created_at, now, AUTH_CREATED_AT_DELTA_SEC),
    ensures
        auth_response(peer, relay_identifier, event, now) is Err,
{
}

} // verus!
