use vstd::prelude::*;
use vstd::string::*;
use crate::config::AppConfig;
use crate::event::{opt_view, tag_view, tags_view, Event, EventPrepare};
use crate::payment::{listed, payment_required};
use crate::peer::{auth_response, AuthError, PeerInfo};
use crate::pow::{
    content_id_of, decimal, hex_bytes, is_mining_result, leading_zero_bits, pow_request,
    validate_pow_request_at, PowRequestError,
};

verus! {

/// Capacity of a session's outbound frame queue.
pub const OUTBOUND_QUEUE_CAPACITY: usize = 100;

/// How long, in milliseconds, a producer waits for room in the outbound queue.
pub const SEND_TIMEOUT_MS: u64 = 20;

/// The frame `["NOTICE","<notice>"]`.
pub open spec fn notice_frame_spec(notice: Seq<char>) -> Seq<char> {
    "[\"NOTICE\",\""@ + notice + "\"]"@
}

/// The frame `["POW",<event>]` around a serialised event.
pub open spec fn pow_frame_spec(event_json: Seq<char>) -> Seq<char> {
    "[\"POW\","@ + event_json + "]"@
}

pub fn notice_frame(notice: &str) -> (r: String)
    ensures
        r@ == notice_frame_spec(notice@),
{
    let mut s = String::from_str("[\"NOTICE\",\"");
    s.append(notice);
    s.append("\"]");
    s
}

pub fn pow_result_frame(event_json: &str) -> (r: String)
    ensures
        r@ == pow_frame_spec(event_json@),
{
    let mut s = String::from_str("[\"POW\",");
    s.append(event_json);
    s.append("]");
    s
}

/// The notice that answers an auth response.
pub open spec fn auth_notice(
    challenge: Seq<char>,
    pubkey: Seq<char>,
    outcome: Result<(), AuthError>,
) -> Seq<char> {
    match outcome {
        Ok(_) => "Authorised: "@ + pubkey,
        Err(e) => "Invalid AUTH response for challenge: "@ + challenge + " - "@ + e.message_spec(),
    }
}

/// Handles an auth response at time `now`: updates the peer as `check_auth_response_at`
/// does and returns the outcome with the notice frame for it.
pub fn handle_auth_at(peer: &mut PeerInfo, config: &AppConfig, event: &Event, now: u64) -> (r: (
    Result<(), AuthError>,
    String,
))
    requires
        old(peer).wf(),
    ensures
        r.0 == auth_response(*old(peer), config.relay_identifier@, *event, now),
        r.1@ == notice_frame_spec(auth_notice(old(peer).auth_challenge@, event.pubkey@, r.0)),
        final(peer).wf(),
        r.0 is Err ==> *final(peer) == *old(peer),
        r.0 is Ok ==> {
            &&& final(peer).auth_confirmed
            &&& opt_view(final(peer).pubkey) == Some(event.pubkey@)
            &&& final(peer).id == old(peer).id
            &&& final(peer).auth_challenge == old(peer).auth_challenge
        },
{
    let outcome = peer.check_auth_response_at(config.relay_identifier.clone(), event, now);
    let mut notice: String;
    match outcome {
        Ok(_) => {
            notice = String::from_str("Authorised: ");
            notice.append(event.pubkey.as_str());
        },
        Err(e) => {
            notice = String::from_str("Invalid AUTH response for challenge: ");
            notice.append(peer.auth_challenge.as_str());
            notice.append(" - ");
            let m = e.message();
            notice.append(m.as_str());
        },
    }
    (outcome, notice_frame(notice.as_str()))
}

/// Handles an auth response against the current time, as `handle_auth_at` does.
pub fn handle_auth(peer: &mut PeerInfo, config: &AppConfig, event: &Event) -> (r: (
    Result<(), AuthError>,
    String,
))
    requires
        old(peer).wf(),
    ensures
        exists|now: u64| r.0 == #[trigger] auth_response(*old(peer), config.relay_identifier@, *event, now),
        r.1@ == notice_frame_spec(auth_notice(old(peer).auth_challenge@, event.pubkey@, r.0)),
        final(peer).wf(),
        r.0 is Err ==> *final(peer) == *old(peer),
        r.0 is Ok ==> {
            &&& final(peer).auth_confirmed
            &&& opt_view(final(peer).pubkey) == Some(event.pubkey@)
            &&& final(peer).id == old(peer).id
            &&& final(peer).auth_challenge == old(peer).auth_challenge
        },
{
    let now = crate::get_timestamp();
    handle_auth_at(peer, config, event, now)
}

impl PowRequestError {
    pub open spec fn message_spec(self, min_pow: u16, max_pow: u16) -> Seq<char> {
        match self {
            PowRequestError::DifficultyOutOfRange => "restricted: target difficulty must be between "@
                + decimal(min_pow as nat) + " and "@ + decimal(max_pow as nat),
            PowRequestError::InvalidEvent => "error: invalid input event"@,
            PowRequestError::PubkeyMismatch => "error: event pubkey doesn't match authenticated pubkey"@,
            PowRequestError::InvalidCreatedAt => "Invalid event created_at. Must be within 10 minutes of now"@,
        }
    }

    /// A human-readable reason, naming the accepted bounds where they matter.
    pub fn message(&self, min_pow: u16, max_pow: u16) -> (r: String)
        ensures
            r@ == self.message_spec(min_pow, max_pow),
    {
        match self {
            PowRequestError::DifficultyOutOfRange => {
                let mut s = String::from_str("restricted: target difficulty must be between ");
                let lo = crate::pow::decimal_string(min_pow as u32);
                s.append(lo.as_str());
                s.append(" and ");
                let hi = crate::pow::decimal_string(max_pow as u32);
                s.append(hi.as_str());
                s
            },
            PowRequestError::InvalidEvent => String::from_str("error: invalid input event"),
            PowRequestError::PubkeyMismatch => String::from_str(
                "error: event pubkey doesn't match authenticated pubkey",
            ),
            PowRequestError::InvalidCreatedAt => String::from_str(
                "Invalid event created_at. Must be within 10 minutes of now",
            ),
        }
    }
}

/// What to do with a mining request.
#[derive(Debug)]
pub enum PowDecision {
    /// Refuse it with this notice frame; nothing is reserved or mined.
    Reject(String),
    /// Mine it, reserving payment first when `payment_required`.
    Mine { payment_required: bool },
}

pub open spec fn restricted_notice() -> Seq<char> {
    "restricted: you need to authorise to confirm your pubkey first"@
}

/// The identity a session proved, or the empty string before it proved one.
pub open spec fn session_pubkey(peer: PeerInfo) -> Seq<char> {
    match peer.pubkey {
        Some(p) => p@,
        None => Seq::empty(),
    }
}

/// The decision on a mining request at time `now`: frame of a refused request,
/// or whether payment is required.
pub open spec fn pow_decision_spec(
    peer: PeerInfo,
    config: AppConfig,
    target_difficulty: u16,
    event: Event,
    now: u64,
) -> Result<bool, Seq<char>> {
    if !peer.auth_confirmed {
        Err(notice_frame_spec(restricted_notice()))
    } else {
        match pow_request(
            config.min_pow_difficulty,
            config.max_pow_difficulty,
            target_difficulty,
            event,
            session_pubkey(peer),
            now,
        ) {
            Err(e) => Err(
                notice_frame_spec(
                    "pow: invalid pow request: "@ + e.message_spec(
                        config.min_pow_difficulty,
                        config.max_pow_difficulty,
                    ),
                ),
            ),
            Ok(_) => Ok(!listed(config.pubkey_whitelist@).contains(session_pubkey(peer))),
        }
    }
}

impl PowDecision {
    pub open spec fn view_as(self) -> Result<bool, Seq<char>> {
        match self {
            PowDecision::Reject(f) => Err(f@),
            PowDecision::Mine { payment_required } => Ok(payment_required),
        }
    }
}

/// Decides a mining request from a session at time `now`.
pub fn decide_pow_request_at(
    peer: &PeerInfo,
    config: &AppConfig,
    target_difficulty: u16,
    event: &Event,
    now: u64,
) -> (r: PowDecision)
    ensures
        r.view_as() == pow_decision_spec(*peer, *config, target_difficulty, *event, now),
{
    if !peer.auth_confirmed {
        return PowDecision::Reject(
            notice_frame("restricted: you need to authorise to confirm your pubkey first"),
        );
    }
    let pubkey = match &peer.pubkey {
        Some(p) => p.clone(),
        None => String::new(),
    };
    match validate_pow_request_at(
        config.min_pow_difficulty,
        config.max_pow_difficulty,
        target_difficulty,
        event,
        pubkey.as_str(),
        now,
    ) {
        Err(e) => {
            let mut notice = String::from_str("pow: invalid pow request: ");
            let m = e.message(config.min_pow_difficulty, config.max_pow_difficulty);
            notice.append(m.as_str());
            PowDecision::Reject(notice_frame(notice.as_str()))
        },
        Ok(_) => PowDecision::Mine {
            payment_required: payment_required(&config.pubkey_whitelist, pubkey),
        },
    }
}

/// Decides a mining request from a session against the current time.
pub fn decide_pow_request(
    peer: &PeerInfo,
    config: &AppConfig,
    target_difficulty: u16,
    event: &Event,
) -> (r: PowDecision)
    ensures
        exists|now: u64|
            r.view_as() == #[trigger] pow_decision_spec(
                *peer,
                *config,
                target_difficulty,
                *event,
                now,
            ),
{
    let now = crate::get_timestamp();
    decide_pow_request_at(peer, config, target_difficulty, event, now)
}

/// The frame sent when the ledger refuses to reserve the price.
pub fn out_of_credit_frame() -> (r: String)
    ensures
        r@ == notice_frame_spec("pow: out of credit"@),
{
    notice_frame("pow: out of credit")
}

/// The frame sent when mining did not produce a result.
pub fn mining_failed_frame() -> (r: String)
    ensures
        r@ == notice_frame_spec("pow: request failed"@),
{
    notice_frame("pow: request failed")
}

/// The frame sent for a message that does not parse as a command.
pub fn unparsable_frame() -> (r: String)
    ensures
        r@ == notice_frame_spec("Unable to parse message"@),
{
    notice_frame("Unable to parse message")
}

/// The hashed fields of an event, as the mining search takes them.
pub fn prepare_event(event: Event) -> (r: EventPrepare)
    ensures
        r == prepared(event),
{
    EventPrepare {
        pub_key: event.pubkey,
        created_at: event.created_at,
        kind: event.kind as u16,
        tags: event.tags,
        content: event.content,
    }
}

/// `mined` is `event` with the search's id and timestamp, `nonce_tag` appended and
/// no signature.
pub open spec fn is_applied(
    event: Event,
    id: String,
    nonce_tag: Vec<String>,
    created_at: u64,
    mined: Event,
) -> bool {
    &&& mined.id == id
    &&& mined.created_at == created_at
    &&& mined.tags@ == event.tags@.push(nonce_tag)
    &&& tags_view(mined.tags@) == tags_view(event.tags@).push(tag_view(nonce_tag))
    &&& mined.sig@ == Seq::<char>::empty()
    &&& mined.pubkey == event.pubkey
    &&& mined.kind == event.kind
    &&& mined.content == event.content
    &&& mined.delegated_by == event.delegated_by
}

/// The hashed fields of an event.
pub open spec fn prepared(event: Event) -> EventPrepare {
    EventPrepare {
        pub_key: event.pubkey,
        created_at: event.created_at,
        kind: event.kind as u16,
        tags: event.tags,
        content: event.content,
    }
}

/// A mining result applied to its event gives an event whose id is the content id
/// of its own hashed fields, so hashing it again gives the same id, and whose id has
/// at least `difficulty` leading zero bits. The nonce tag is appended once and the
/// signature is empty.
pub proof fn lemma_mined_event_round_trip(
    event: Event,
    difficulty: u16,
    id: String,
    nonce_tag: Vec<String>,
    zeros: u16,
    stamp: u64,
    mined: Event,
)
    requires
        is_mining_result(prepared(event), difficulty, id@, nonce_tag, zeros, stamp),
        is_applied(event, id, nonce_tag, stamp, mined),
    ensures
        mined.id@ == content_id_of(
            mined.pubkey@,
            mined.created_at,
            mined.kind as u16,
            tags_view(mined.tags@),
            mined.content@,
        ),
        leading_zero_bits(hex_bytes(mined.id@)) >= difficulty,
        mined.tags@.len() == event.tags@.len() + 1,
        mined.tags@.last() == nonce_tag,
        mined.sig@.len() == 0,
{
}

/// A mining request whose event is attributed to another identity than the one the
/// session proved is refused, so nothing is reserved or mined for it.
pub proof fn lemma_foreign_pubkey_rejected(
    peer: PeerInfo,
    config: AppConfig,
    target_difficulty: u16,
    event: Event,
    now: u64,
)
    requires
        peer.auth_confirmed,
        event.pubkey@ != session_pubkey(peer),
    ensures
        pow_decision_spec(peer, config, target_difficulty, event, now) is Err,
{
}

/// The mined event: the search's id and timestamp, the nonce tag appended once,
/// and the signature cleared, since the content it signed has changed.
pub fn apply_mining_result(event: Event, id: String, nonce_tag: Vec<String>, created_at: u64) -> (r:
    Event)
    ensures
        is_applied(event, id, nonce_tag, created_at, r),
{
    let mut e = event;
    e.id = id;
    e.created_at = created_at;
    e.tags.push(nonce_tag);
    e.sig = String::new();
    assert(tags_view(e.tags@) =~= tags_view(event.tags@).push(tag_view(nonce_tag)));
    e
}

} // verus!
