use vstd::prelude::*;
use vstd::string::*;

verus! {

/// A protocol event as the session engine reads it.
#[derive(Clone, Debug)]
pub struct Event {
    pub id: String,
    pub pubkey: String,
    pub delegated_by: Option<String>,
    pub created_at: u64,
    pub kind: u64,
    pub tags: Vec<Vec<String>>,
    pub content: String,
    pub sig: String,
}

/// The fields of an event that its content hash covers.
#[derive(Clone, Debug)]
pub struct EventPrepare {
    pub pub_key: String,
    pub created_at: u64,
    pub kind: u16,
    pub tags: Vec<Vec<String>>,
    pub content: String,
}

/// One tag as a sequence of strings.
pub open spec fn tag_view(t: Vec<String>) -> Seq<Seq<char>> {
    t@.map_values(|s: String| s@)
}

/// A tag list as a sequence of sequences of strings.
pub open spec fn tags_view(tags: Seq<Vec<String>>) -> Seq<Seq<Seq<char>>> {
    tags.map_values(|t: Vec<String>| tag_view(t))
}

/// What `str::to_lowercase` makes of a string.
pub uninterp spec fn lower_of(s: Seq<char>) -> Seq<char>;

/// What the event library's validation (id digest and signature) says of an event.
pub uninterp spec fn passes_validation(
    id: Seq<char>,
    pubkey: Seq<char>,
    created_at: u64,
    kind: u64,
    tags: Seq<Seq<Seq<char>>>,
    content: Seq<char>,
    sig: Seq<char>,
) -> bool;

pub open spec fn is_hex_digit(c: char) -> bool {
    ('0' <= c && c <= '9') || ('a' <= c && c <= 'f') || ('A' <= c && c <= 'F')
}

/// A signature written as 64 bytes in hex.
pub open spec fn sig_well_formed(sig: Seq<char>) -> bool {
    sig.len() == 128 && forall|i: int| 0 <= i < sig.len() ==> is_hex_digit(#[trigger] sig[i])
}

pub open spec fn delegation_key() -> Seq<char> {
    seq!['d', 'e', 'l', 'e', 'g', 'a', 't', 'i', 'o', 'n']
}

/// A delegation tag `["delegation", <delegator>, <conditions>, <signature>]`.
pub open spec fn is_delegation_tag(t: Seq<Seq<char>>) -> bool {
    t.len() == 4 && t[0] == delegation_key()
}

/// Every delegation tag carries a signature written as 64 bytes in hex.
pub open spec fn delegations_well_formed(tags: Seq<Seq<Seq<char>>>) -> bool {
    forall|i: int|
        0 <= i < tags.len() && is_delegation_tag(#[trigger] tags[i]) ==> sig_well_formed(tags[i][3])
}

/// An event is valid when its signature and its delegation signatures are well
/// formed and the event library accepts it.
pub open spec fn event_valid(e: Event) -> bool {
    sig_well_formed(e.sig@) && delegations_well_formed(tags_view(e.tags@)) && passes_validation(
        e.id@,
        e.pubkey@,
        e.created_at,
        e.kind,
        tags_view(e.tags@),
        e.content@,
        e.sig@,
    )
}

/// Relies on str::to_lowercase: the result depends on the characters alone.
#[verifier::external_body]
fn lowercase(s: &str) -> (r: String)
    ensures
        r@ == lower_of(s@),
{
    s.to_lowercase()
}

/// Relies on nostr_rs_relay's conversion of an `EventCmd` into a validated event,
/// which checks the id against the content digest and the schnorr signature, then
/// reads the first delegation tag. Both steps unwrap a parsed signature: the event's
/// own and that tag's fourth element, hence the `requires`.
#[verifier::external_body]
fn library_validates(e: &Event) -> (r: bool)
    requires
        sig_well_formed(e.sig@),
        delegations_well_formed(tags_view(e.tags@)),
    ensures
        r == passes_validation(
            e.id@,
            e.pubkey@,
            e.created_at,
            e.kind,
            tags_view(e.tags@),
            e.content@,
            e.sig@,
        ),
{
    let fields = (&e.id, &e.pubkey, e.created_at, e.kind, &e.tags, &e.content, &e.sig);
    serde_json::to_value(("EVENT", fields))
        .and_then(serde_json::from_value::<nostr_rs_relay::event::EventCmd>)
        .map_or(false, |c| nostr_rs_relay::error::Result::<nostr_rs_relay::event::Event>::from(c).is_ok())
}

pub fn is_hex_char(c: char) -> (r: bool)
    ensures
        r == is_hex_digit(c),
{
    ('0' <= c && c <= '9') || ('a' <= c && c <= 'f') || ('A' <= c && c <= 'F')
}

/// Whether `sig` is 128 hex digits.
pub fn signature_well_formed(sig: &String) -> (r: bool)
    ensures
        r == sig_well_formed(sig@),
{
    let s = sig.as_str();
    let n = s.unicode_len();
    if n != 128 {
        return false;
    }
    let mut i: usize = 0;
    while i < n
        invariant
            n == s@.len(),
            s@ == sig@,
            0 <= i <= n,
            forall|j: int| 0 <= j < i ==> is_hex_digit(#[trigger] s@[j]),
        decreases n - i,
    {
        if !is_hex_char(s.get_char(i)) {
            return false;
        }
        i = i + 1;
    }
    true
}

/// Whether every delegation tag carries a well-formed signature.
pub fn delegation_signatures_well_formed(tags: &Vec<Vec<String>>) -> (r: bool)
    ensures
        r == delegations_well_formed(tags_view(tags@)),
{
    proof {
        reveal_strlit("delegation");
    }
    assert("delegation"@ =~= delegation_key());
    let mut i: usize = 0;
    while i < tags.len()
        invariant
            0 <= i <= tags@.len(),
            "delegation"@ == delegation_key(),
            forall|j: int|
                0 <= j < i && is_delegation_tag(#[trigger] tags_view(tags@)[j]) ==> sig_well_formed(
                    tags_view(tags@)[j][3],
                ),
        decreases tags@.len() - i,
    {
        let t = &tags[i];
        assert(tags_view(tags@)[i as int] == tag_view(*t));
        if t.len() == 4 && crate::pow::str_equal(t[0].as_str(), "delegation") {
            if !signature_well_formed(&t[3]) {
                return false;
            }
        }
        i = i + 1;
    }
    true
}

/// Structural and signature integrity check of an event.
pub fn validate_event(e: &Event) -> (r: bool)
    ensures
        r == event_valid(*e),
{
    if signature_well_formed(&e.sig) && delegation_signatures_well_formed(&e.tags) {
        library_validates(e)
    } else {
        false
    }
}


pub open spec fn opt_view(o: Option<String>) -> Option<Seq<char>> {
    match o {
        Some(s) => Some(s@),
        None => None,
    }
}

pub open spec fn keys_view(keys: Seq<Option<String>>) -> Seq<Option<Seq<char>>> {
    keys.map_values(|k: Option<String>| opt_view(k))
}

/// The folded key of a tag: its first element in lowercase, none for an empty tag.
pub open spec fn folded_key(t: Seq<Seq<char>>) -> Option<Seq<char>> {
    if t.len() > 0 {
        Some(lower_of(t[0]))
    } else {
        None
    }
}

pub open spec fn folded_keys(tags: Seq<Seq<Seq<char>>>) -> Seq<Option<Seq<char>>> {
    tags.map_values(|t: Seq<Seq<char>>| folded_key(t))
}

/// The value of the first tag whose key in `keys` is `key`: its second element,
/// none when that tag has no second element or no tag has the key.
pub open spec fn first_value_by_keys(
    tags: Seq<Seq<Seq<char>>>,
    keys: Seq<Option<Seq<char>>>,
    key: Seq<char>,
) -> Option<Seq<char>>
    decreases tags.len(),
{
    if tags.len() == 0 || keys.len() == 0 {
        None
    } else if keys[0] == Some(key) {
        if tags[0].len() >= 2 {
            Some(tags[0][1])
        } else {
            None
        }
    } else {
        first_value_by_keys(tags.drop_first(), keys.drop_first(), key)
    }
}

/// The value of the first tag whose key equals `key`, compared in lowercase.
pub open spec fn tag_value(tags: Seq<Seq<Seq<char>>>, key: Seq<char>) -> Option<Seq<char>> {
    first_value_by_keys(tags, folded_keys(tags), lower_of(key))
}

/// Looks up the value of the first tag whose key in `keys` (one per tag) is `key`.
pub fn first_value_with_folded_key(
    tags: &Vec<Vec<String>>,
    keys: &Vec<Option<String>>,
    key: &String,
) -> (r: Option<String>)
    ensures
        opt_view(r) == first_value_by_keys(tags_view(tags@), keys_view(keys@), key@),
{
    let ghost tv = tags_view(tags@);
    let ghost kv = keys_view(keys@);
    let n = if tags.len() < keys.len() {
        tags.len()
    } else {
        keys.len()
    };
    let mut i: usize = 0;
    assert(tv.subrange(0, tv.len() as int) =~= tv);
    assert(kv.subrange(0, kv.len() as int) =~= kv);
    while i < n
        invariant
            tv == tags_view(tags@),
            kv == keys_view(keys@),
            n <= tags@.len(),
            n <= keys@.len(),
            n == tags@.len() || n == keys@.len(),
            0 <= i <= n,
            first_value_by_keys(tv, kv, key@) == first_value_by_keys(
                tv.subrange(i as int, tv.len() as int),
                kv.subrange(i as int, kv.len() as int),
                key@,
            ),
        decreases n - i,
    {
        let ghost ts = tv.subrange(i as int, tv.len() as int);
        let ghost ks = kv.subrange(i as int, kv.len() as int);
        assert(ts.drop_first() =~= tv.subrange(i + 1, tv.len() as int));
        assert(ks.drop_first() =~= kv.subrange(i + 1, kv.len() as int));
        assert(ts[0] == tag_view(tags@[i as int]));
        assert(ks[0] == opt_view(keys@[i as int]));
        let hit = match &keys[i] {
            Some(k) => *k == *key,
            None => false,
        };
        if hit {
            let t = &tags[i];
            if t.len() >= 2 {
                return Some(t[1].clone());
            } else {
                return None;
            }
        }
        i = i + 1;
    }
    assert(tv.subrange(i as int, tv.len() as int).len() == 0 || kv.subrange(
        i as int,
        kv.len() as int,
    ).len() == 0);
    None
}

/// The value of the first tag of `event` keyed `tag`, keys compared in lowercase.
pub fn get_event_first_tag_with_value(event: &Event, tag: &str) -> (r: Option<String>)
    ensures
        opt_view(r) == tag_value(tags_view(event.tags@), tag@),
{
    let tags = &event.tags;
    let mut keys: Vec<Option<String>> = Vec::new();
    let mut i: usize = 0;
    while i < tags.len()
        invariant
            0 <= i <= tags@.len(),
            keys@.len() == i,
            keys_view(keys@) =~= folded_keys(tags_view(tags@)).take(i as int),
        decreases tags@.len() - i,
    {
        let t = &tags[i];
        let k = if t.len() > 0 {
            Some(lowercase(t[0].as_str()))
        } else {
            None
        };
        assert(opt_view(k) == folded_key(tag_view(tags@[i as int])));
        assert(tags_view(tags@)[i as int] == tag_view(tags@[i as int]));
        assert(folded_keys(tags_view(tags@))[i as int] == opt_view(k));
        let ghost before = keys@;
        keys.push(k);
        assert(keys@ == before.push(k));
        assert(keys_view(keys@)[i as int] == opt_view(k));
        assert(keys_view(keys@) =~= folded_keys(tags_view(tags@)).take(i + 1));
        i = i + 1;
    }
    assert(folded_keys(tags_view(tags@)).take(i as int) =~= folded_keys(tags_view(tags@)));
    let key = lowercase(tag);
    first_value_with_folded_key(tags, &keys, &key)
}

} // verus!
