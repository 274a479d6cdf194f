use vstd::prelude::*;
use vstd::string::*;
use crate::event::{event_valid, tag_view, tags_view, is_hex_digit, validate_event, Event, EventPrepare};

verus! {

/// Why a mining search ended without a result.
#[derive(PartialEq, Eq, Structural, Debug, Clone, Copy)]
pub enum PowError {
    /// Every attempt the search allows was made without reaching the target.
    Exhausted,
}

/// The hex crate's decoding error, carried as an opaque value.
#[verifier::external_type_specification]
#[verifier::external_body]
pub struct ExFromHexError(hex::FromHexError);

/// What serde_json makes of the tuple `[0, pubkey, created_at, kind, tags, content]`.
pub uninterp spec fn canonical_form(
    pubkey: Seq<char>,
    created_at: u64,
    kind: u16,
    tags: Seq<Seq<Seq<char>>>,
    content: Seq<char>,
) -> Seq<char>;

/// The lowercase hex SHA-256 digest of a string, as the sha256 crate writes it.
pub uninterp spec fn sha256_hex_of(s: Seq<char>) -> Seq<char>;

/// Leading zero bits of one byte.
pub open spec fn byte_zero_bits(b: u8) -> nat {
    if b >= 128 {
        0
    } else if b >= 64 {
        1
    } else if b >= 32 {
        2
    } else if b >= 16 {
        3
    } else if b >= 8 {
        4
    } else if b >= 4 {
        5
    } else if b >= 2 {
        6
    } else if b >= 1 {
        7
    } else {
        8
    }
}

/// Leading zero bits of a byte string, read from its first byte on.
pub open spec fn leading_zero_bits(s: Seq<u8>) -> nat
    decreases s.len(),
{
    if s.len() == 0 {
        0
    } else if s[0] == 0 {
        8 + leading_zero_bits(s.drop_first())
    } else {
        byte_zero_bits(s[0])
    }
}

pub open spec fn hex_value(c: char) -> int {
    if '0' <= c && c <= '9' {
        c as int - '0' as int
    } else if 'a' <= c && c <= 'f' {
        c as int - 'a' as int + 10
    } else {
        c as int - 'A' as int + 10
    }
}

/// Text that decodes as hex: an even number of hex digits.
pub open spec fn is_hex_text(s: Seq<char>) -> bool {
    s.len() % 2 == 0 && forall|i: int| 0 <= i < s.len() ==> is_hex_digit(#[trigger] s[i])
}

/// The bytes that hex text stands for, two digits each, high digit first.
pub open spec fn hex_bytes(s: Seq<char>) -> Seq<u8> {
    Seq::new(s.len() / 2, |i: int| (16 * hex_value(s[2 * i]) + hex_value(s[2 * i + 1])) as u8)
}

pub open spec fn digit_char(d: nat) -> char {
    seq!['0', '1', '2', '3', '4', '5', '6', '7', '8', '9'][d as int]
}

/// Decimal digits of a number, without leading zeros.
pub open spec fn decimal(n: nat) -> Seq<char>
    decreases n,
{
    if n < 10 {
        seq![digit_char(n)]
    } else {
        decimal(n / 10).push(digit_char(n % 10))
    }
}

/// The tag `["nonce", <nonce>, <difficulty>]` appended while mining.
pub open spec fn nonce_tag_view(nonce: u32, difficulty: u16) -> Seq<Seq<char>> {
    seq![seq!['n', 'o', 'n', 'c', 'e'], decimal(nonce as nat), decimal(difficulty as nat)]
}

/// The content id (hex digest of the canonical form) of an event's hashed fields.
pub open spec fn content_id_of(
    pubkey: Seq<char>,
    created_at: u64,
    kind: u16,
    tags: Seq<Seq<Seq<char>>>,
    content: Seq<char>,
) -> Seq<char> {
    sha256_hex_of(canonical_form(pubkey, created_at, kind, tags, content))
}

/// The content id of `e` with `created_at` set to `now` and the nonce tag appended.
pub open spec fn attempt_id(e: EventPrepare, now: u64, nonce: u32, difficulty: u16) -> Seq<char> {
    content_id_of(
        e.pub_key@,
        now,
        e.kind,
        tags_view(e.tags@).push(nonce_tag_view(nonce, difficulty)),
        e.content@,
    )
}

/// What a successful search for `event` at `difficulty` hands back: an id that is the
/// content id of `event` stamped `stamp` with the nonce tag appended, and that id's
/// leading zero bits, at least `difficulty`.
pub open spec fn is_mining_result(
    event: EventPrepare,
    difficulty: u16,
    id: Seq<char>,
    tag: Vec<String>,
    zeros: u16,
    stamp: u64,
) -> bool {
    &&& id == content_id_of(
        event.pub_key@,
        stamp,
        event.kind,
        tags_view(event.tags@).push(tag_view(tag)),
        event.content@,
    )
    &&& exists|nonce: u32| tag_view(tag) == #[trigger] nonce_tag_view(nonce, difficulty)
    &&& zeros == leading_zero_bits(hex_bytes(id))
    &&& zeros >= difficulty
}

/// Relies on serde_json::to_string of the tuple `(0, pubkey, created_at, kind, tags, content)`:
/// a compact JSON array that depends on those values alone.
#[verifier::external_body]
pub fn get_digest_input(event: &EventPrepare) -> (r: String)
    ensures
        r@ == canonical_form(
            event.pub_key@,
            event.created_at,
            event.kind,
            tags_view(event.tags@),
            event.content@,
        ),
{
    let fields = (0, &event.pub_key, event.created_at, event.kind, &event.tags, &event.content);
    serde_json::to_string(&fields).unwrap_or_default()
}

/// Relies on sha256::digest: the SHA-256 digest of the string's bytes,
/// hex encoded with lowercase digits (32 bytes, 64 digits).
#[verifier::external_body]
fn sha256_hex(s: &str) -> (r: String)
    ensures
        r@ == sha256_hex_of(s@),
        r@.len() == 64,
        forall|i: int| 0 <= i < r@.len() ==> is_hex_digit(#[trigger] r@[i]),
{
    sha256::digest(s)
}

/// Relies on hex::decode: it accepts exactly an even number of hex digits of either case.
#[verifier::external_body]
fn decode_hex(s: &String) -> (r: Result<Vec<u8>, hex::FromHexError>)
    ensures
        r is Ok <==> is_hex_text(s@),
        r matches Ok(v) ==> v@ == hex_bytes(s@),
{
    hex::decode(s)
}

/// Relies on u32's `to_string`: its decimal digits.
#[verifier::external_body]
pub(crate) fn decimal_string(n: u32) -> (r: String)
    ensures
        r@ == decimal(n as nat),
{
    n.to_string()
}

/// Relies on rand's thread_rng and `gen_range(0..u32::MAX)`: a value below `u32::MAX`.
#[verifier::external_body]
fn random_nonce() -> (r: u32)
    ensures
        r < u32::MAX,
{
    rand::Rng::gen_range(&mut rand::thread_rng(), 0..u32::MAX)
}

/// The hex content id of an event's hashed fields.
pub fn get_content_id(event: &EventPrepare) -> (r: String)
    ensures
        r@ == content_id_of(
            event.pub_key@,
            event.created_at,
            event.kind,
            tags_view(event.tags@),
            event.content@,
        ),
        r@.len() == 64,
        forall|i: int| 0 <= i < r@.len() ==> is_hex_digit(#[trigger] r@[i]),
{
    let input = get_digest_input(event);
    sha256_hex(input.as_str())
}

/// Leading zero bits of one byte.
pub fn byte_leading_zeros(b: u8) -> (r: u16)
    ensures
        r == byte_zero_bits(b),
{
    if b >= 128 {
        0
    } else if b >= 64 {
        1
    } else if b >= 32 {
        2
    } else if b >= 16 {
        3
    } else if b >= 8 {
        4
    } else if b >= 4 {
        5
    } else if b >= 2 {
        6
    } else if b >= 1 {
        7
    } else {
        8
    }
}

proof fn lemma_zero_prefix(s: Seq<u8>, i: int)
    requires
        0 <= i <= s.len(),
        forall|j: int| 0 <= j < i ==> s[j] == 0,
    ensures
        leading_zero_bits(s) == 8 * i + leading_zero_bits(s.subrange(i, s.len() as int)),
    decreases i,
{
    if i > 0 {
        lemma_zero_prefix(s.drop_first(), i - 1);
        assert(s.drop_first().subrange(i - 1, s.len() - 1) =~= s.subrange(i, s.len() as int));
    } else {
        assert(s.subrange(0, s.len() as int) =~= s);
    }
}

/// Counts leading zero bits: 8 for each zero byte from the start, then those of
/// the first non-zero byte.
pub fn count_leading_zero_bits(content_id: Vec<u8>) -> (r: u16)
    requires
        content_id@.len() * 8 <= u16::MAX,
    ensures
        r == leading_zero_bits(content_id@),
{
    let mut total: u16 = 0;
    let mut i: usize = 0;
    while i < content_id.len()
        invariant
            0 <= i <= content_id@.len(),
            content_id@.len() * 8 <= u16::MAX,
            total == 8 * i,
            forall|j: int| 0 <= j < i ==> content_id@[j] == 0,
        decreases content_id@.len() - i,
    {
        let c = content_id[i];
        let bits = byte_leading_zeros(c);
        total = total + bits;
        if bits != 8 {
            proof {
                lemma_zero_prefix(content_id@, i as int);
            }
            return total;
        }
        i = i + 1;
    }
    proof {
        lemma_zero_prefix(content_id@, i as int);
    }
    total
}


/// The tag `["nonce", <nonce>, <difficulty>]`.
pub fn nonce_tag(nonce: u32, difficulty: u16) -> (r: Vec<String>)
    ensures
        tag_view(r) == nonce_tag_view(nonce, difficulty),
{
    let mut tag: Vec<String> = Vec::new();
    proof {
        reveal_strlit("nonce");
    }
    tag.push(String::from_str("nonce"));
    tag.push(decimal_string(nonce));
    tag.push(decimal_string(difficulty as u32));
    assert("nonce"@ =~= seq!['n', 'o', 'n', 'c', 'e']);
    assert(tag_view(tag) =~= nonce_tag_view(nonce, difficulty));
    tag
}

proof fn lemma_tags_view_push(tags: Seq<Vec<String>>, t: Vec<String>)
    ensures
        tags_view(tags.push(t)) == tags_view(tags).push(tag_view(t)),
{
    assert(tags_view(tags.push(t)) =~= tags_view(tags).push(tag_view(t)));
}

/// One mining attempt: stamps `event` with `now`, hashes it with the nonce tag for
/// `nonce` appended, and returns the id, the tag and the leading zero bits of the id
/// when they reach `difficulty`. The tag list of `event` is left as it was.
pub fn try_nonce(event: &mut EventPrepare, difficulty: u16, now: u64, nonce: u32) -> (r: Option<
    (String, Vec<String>, u16),
>)
    ensures
        final(event).pub_key == old(event).pub_key,
        final(event).kind == old(event).kind,
        final(event).tags@ == old(event).tags@,
        final(event).content == old(event).content,
        final(event).created_at == now,
        r is None ==> leading_zero_bits(hex_bytes(attempt_id(*old(event), now, nonce, difficulty)))
            < difficulty,
        r matches Some((id, tag, zeros)) ==> {
            &&& id@ == attempt_id(*old(event), now, nonce, difficulty)
            &&& tag_view(tag) == nonce_tag_view(nonce, difficulty)
            &&& zeros == leading_zero_bits(hex_bytes(id@))
            &&& zeros >= difficulty
        },
{
    event.created_at = now;
    let tag = nonce_tag(nonce, difficulty);
    let ghost before = event.tags@;
    event.tags.push(tag);
    proof {
        lemma_tags_view_push(before, tag);
    }
    let content_id = get_content_id(event);
    let popped = event.tags.pop();
    assert(event.tags@ =~= before);
    let tag = popped.unwrap();
    match decode_hex(&content_id) {
        Ok(bytes) => {
            let zeros = count_leading_zero_bits(bytes);
            if zeros >= difficulty {
                Some((content_id, tag, zeros))
            } else {
                None
            }
        },
        Err(_) => {
            assert(is_hex_text(content_id@));
            None
        },
    }
}

/// Searches for a nonce whose content id has at least `difficulty` leading zero bits.
/// Each attempt takes the current time and a fresh random nonce. On success it returns
/// the id, the nonce tag, the leading zero bits reached and the timestamp hashed.
/// The search stops only on success or after `u64::MAX` attempts.
#[verifier::loop_isolation(false)]
pub fn generate_pow_event(event: EventPrepare, difficulty: u16) -> (r: Result<
    (String, Vec<String>, u16, u64),
    PowError,
>)
    ensures
        r matches Ok((id, tag, zeros, stamp)) ==> is_mining_result(event, difficulty, id@, tag, zeros, stamp),
        difficulty == 0 ==> r is Ok,
        r is Err ==> r == Err::<(String, Vec<String>, u16, u64), PowError>(PowError::Exhausted),
{
    let ghost orig = event;
    let mut work = event;
    let mut attempts: u64 = 0;
    while attempts < u64::MAX
        invariant
            work.pub_key == orig.pub_key,
            work.kind == orig.kind,
            work.tags@ == orig.tags@,
            work.content == orig.content,
            difficulty == 0 ==> attempts == 0,
        decreases u64::MAX - attempts,
    {
        let now = crate::get_timestamp();
        let nonce = random_nonce();
        match try_nonce(&mut work, difficulty, now, nonce) {
            Some((id, tag, zeros)) => {
                assert(tag_view(tag) == nonce_tag_view(nonce, difficulty));
                return Ok((id, tag, zeros, now));
            },
            None => {},
        }
        attempts = attempts + 1;
    }
    Err(PowError::Exhausted)
}


/// Why a mining request was refused.
#[derive(PartialEq, Eq, Structural, Debug, Clone, Copy)]
pub enum PowRequestError {
    /// The target difficulty lies outside the accepted bounds.
    DifficultyOutOfRange,
    /// The event fails the integrity and signature check.
    InvalidEvent,
    /// The event is attributed to another identity than the session's.
    PubkeyMismatch,
    /// The event's timestamp is too far from now.
    InvalidCreatedAt,
}

/// What the mining request checks decide, in their order, from the values they read.
pub open spec fn pow_verdict_spec(
    min_pow: u16,
    max_pow: u16,
    target_difficulty: u16,
    valid: bool,
    event_pubkey: Seq<char>,
    request_pubkey: Seq<char>,
    created_at: u64,
    now: u64,
) -> Result<(), PowRequestError> {
    if !(min_pow <= target_difficulty && target_difficulty <= max_pow) {
        Err(PowRequestError::DifficultyOutOfRange)
    } else if !valid {
        Err(PowRequestError::InvalidEvent)
    } else if event_pubkey != request_pubkey {
        Err(PowRequestError::PubkeyMismatch)
    } else if !crate::within_delta(created_at, now, crate::CREATED_AT_DELTA_SEC) {
        Err(PowRequestError::InvalidCreatedAt)
    } else {
        Ok(())
    }
}

/// What checking a mining request for `event` decides at time `now`.
pub open spec fn pow_request(
    min_pow: u16,
    max_pow: u16,
    target_difficulty: u16,
    event: Event,
    request_pubkey: Seq<char>,
    now: u64,
) -> Result<(), PowRequestError> {
    pow_verdict_spec(
        min_pow,
        max_pow,
        target_difficulty,
        event_valid(event),
        event.pubkey@,
        request_pubkey,
        event.created_at,
        now,
    )
}

/// Decides a mining request from the values the checks read.
pub fn pow_verdict(
    min_pow: u16,
    max_pow: u16,
    target_difficulty: u16,
    valid: bool,
    event_pubkey: &str,
    request_pubkey: &str,
    created_at: u64,
    now: u64,
) -> (r: Result<(), PowRequestError>)
    ensures
        r == pow_verdict_spec(
            min_pow,
            max_pow,
            target_difficulty,
            valid,
            event_pubkey@,
            request_pubkey@,
            created_at,
            now,
        ),
{
    if !(min_pow <= target_difficulty && target_difficulty <= max_pow) {
        return Err(PowRequestError::DifficultyOutOfRange);
    }
    if !valid {
        return Err(PowRequestError::InvalidEvent);
    }
    if !str_equal(event_pubkey, request_pubkey) {
        return Err(PowRequestError::PubkeyMismatch);
    }
    if !crate::is_within_delta(created_at, now, crate::CREATED_AT_DELTA_SEC) {
        return Err(PowRequestError::InvalidCreatedAt);
    }
    Ok(())
}

/// Whether two strings hold the same characters.
pub fn str_equal(a: &str, b: &str) -> (r: bool)
    ensures
        r == (a@ == b@),
{
    let n = a.unicode_len();
    if n != b.unicode_len() {
        return false;
    }
    let mut i: usize = 0;
    while i < n
        invariant
            n == a@.len(),
            n == b@.len(),
            0 <= i <= n,
            forall|j: int| 0 <= j < i ==> a@[j] == b@[j],
        decreases n - i,
    {
        if a.get_char(i) != b.get_char(i) {
            return false;
        }
        i = i + 1;
    }
    assert(a@ =~= b@);
    true
}

/// A target one below the minimum or one above the maximum is refused for its
/// difficulty; a target equal to either bound passes when the other checks pass.
pub proof fn lemma_difficulty_bounds(
    min_pow: u16,
    max_pow: u16,
    event: Event,
    request_pubkey: Seq<char>,
    now: u64,
)
    ensures
        min_pow > 0 ==> pow_request(min_pow, max_pow, (min_pow - 1) as u16, event, request_pubkey, now)
            == Err::<(), PowRequestError>(PowRequestError::DifficultyOutOfRange),
        max_pow < u16::MAX ==> pow_request(
            min_pow,
            max_pow,
            (max_pow + 1) as u16,
            event,
            request_pubkey,
            now,
        ) == Err::<(), PowRequestError>(PowRequestError::DifficultyOutOfRange),
        min_pow <= max_pow && event_valid(event) && event.pubkey@ == request_pubkey
            && crate::within_delta(event.created_at, now, crate::CREATED_AT_DELTA_SEC) ==> {
            &&& pow_request(min_pow, max_pow, min_pow, event, request_pubkey, now) is Ok
            &&& pow_request(min_pow, max_pow, max_pow, event, request_pubkey, now) is Ok
        },
{
}

/// Checks a mining request at time `now`: difficulty within `[min_pow, max_pow]`,
/// a valid event, attributed to `request_pubkey`, stamped within ten minutes of now.
pub fn validate_pow_request_at(
    min_pow: u16,
    max_pow: u16,
    target_difficulty: u16,
    event: &Event,
    request_pubkey: &str,
    now: u64,
) -> (r: Result<(), PowRequestError>)
    ensures
        r == pow_request(min_pow, max_pow, target_difficulty, *event, request_pubkey@, now),
{
    let in_range = min_pow <= target_difficulty && target_difficulty <= max_pow;
    let valid = if in_range {
        validate_event(event)
    } else {
        false
    };
    pow_verdict(
        min_pow,
        max_pow,
        target_difficulty,
        valid,
        event.pubkey.as_str(),
        request_pubkey,
        event.created_at,
        now,
    )
}

/// Checks a mining request against the current time, as `validate_pow_request_at` does.
pub fn validate_pow_request(
    min_pow: u16,
    max_pow: u16,
    target_difficulty: u16,
    event: &Event,
    request_pubkey: &str,
) -> (r: Result<(), PowRequestError>)
    ensures
        exists|now: u64|
            r == #[trigger] pow_request(
                min_pow,
                max_pow,
                target_difficulty,
                *event,
                request_pubkey@,
                now,
            ),
{
    let now = crate::get_timestamp();
    validate_pow_request_at(min_pow, max_pow, target_difficulty, event, request_pubkey, now)
}

} // verus!
