//! Identifiers of objects that are synced with the server: client-side ids
//! (UUIDs) and server-side ids (22-character strings).
use vstd::prelude::*;

use crate::text::{chars_of, string_of, utf8_size, utf8_width};

verus! {

/// Number of characters in a server id.
pub const SERVER_ID_LEN: usize = 22;

/// The prefix of the text form of a client id.
pub open spec fn client_prefix() -> Seq<char> {
    seq!['C', 'l', 'i', 'e', 'n', 't', '-']
}

/// Lower-case hexadecimal digit for `n < 16`.
pub open spec fn hex_digit(n: u8) -> char {
    if n < 10 {
        (('0' as u32) + n as u32) as char
    } else {
        (('a' as u32) + (n - 10) as u32) as char
    }
}

/// Lower-case hexadecimal text of `bytes`, two digits per byte.
pub open spec fn hex_text(bytes: Seq<u8>) -> Seq<char>
    decreases bytes.len(),
{
    if bytes.len() == 0 {
        Seq::empty()
    } else {
        seq![hex_digit(bytes[0] / 16), hex_digit(bytes[0] % 16)] + hex_text(bytes.drop_first())
    }
}

/// The hyphenated form `xxxxxxxx-xxxx-xxxx-xxxx-xxxxxxxxxxxx` of a UUID's 16 bytes.
pub open spec fn hyphenated_uuid_text(b: Seq<u8>) -> Seq<char> {
    hex_text(b.subrange(0, 4)) + seq!['-'] + hex_text(b.subrange(4, 6)) + seq!['-'] + hex_text(
        b.subrange(6, 8),
    ) + seq!['-'] + hex_text(b.subrange(8, 10)) + seq!['-'] + hex_text(b.subrange(10, 16))
}

/// The bytes of the UUID that `uuid::Uuid::parse_str` reads from `s`, if it accepts `s`.
pub uninterp spec fn uuid_parse(s: Seq<char>) -> Option<Seq<u8>>;

/// Whether `b` are the bytes of a random (version 4, RFC variant) UUID: the high
/// nibble of byte 6 is 4 and the two high bits of byte 8 are `10`.
pub open spec fn is_random_uuid(b: Seq<u8>) -> bool {
    &&& b.len() == 16
    &&& b[6] & 0xf0u8 == 0x40u8
    &&& b[8] & 0xc0u8 == 0x80u8
}

/// Calls `uuid::Uuid::new_v4` and gives the new UUID's bytes. Its source masks random bits
/// into the version and variant fields; the other bits are random, so nothing more is said.
#[verifier::external_body]
fn random_uuid_bytes() -> (b: [u8; 16])
    ensures
        is_random_uuid(b@),
{
    uuid::Uuid::new_v4().into_bytes()
}

/// Calls `Display` of `uuid::Uuid` on the UUID with these bytes. Its documentation and source
/// show the lower-case hyphenated form.
#[verifier::external_body]
fn uuid_text(bytes: [u8; 16]) -> (s: String)
    ensures
        s@ == hyphenated_uuid_text(bytes@),
{
    uuid::Uuid::from_bytes(bytes).to_string()
}

/// Calls `uuid::Uuid::parse_str` and gives the parsed bytes. The result is named by
/// `uuid_parse`. Its source accepts only ASCII inputs of 32, 36, 38 or 45 bytes, so an
/// accepted input has at least 32 characters; and it reads the hyphenated form back to the
/// bytes it was made from.
#[verifier::external_body]
fn parse_uuid(s: &str) -> (r: Option<[u8; 16]>)
    ensures
        match r {
            Some(b) => uuid_parse(s@) == Some(b@),
            None => uuid_parse(s@) is None,
        },
        r is Some ==> s@.len() >= 32,
        forall|b: Seq<u8>|
            b.len() == 16 && #[trigger] hyphenated_uuid_text(b) == s@ ==> r is Some && r->0@
                == b,
{
    uuid::Uuid::parse_str(s).ok().map(|u| u.into_bytes())
}

/// Conversion between an id and the text under which it is stored.
pub trait HashableId: Sized + Send + Sync {
    fn to_hash(&self) -> String;

    fn from_hash(hash: &str) -> Option<Self>;
}

/// An id given to an object created on this client before the server knows it.
#[derive(Clone, Copy, PartialEq, Eq, Hash, Debug)]
pub struct ClientId(pub [u8; 16]);

impl View for ClientId {
    type V = Seq<u8>;

    open spec fn view(&self) -> Seq<u8> {
        self.0@
    }
}

/// The text of a client id: `Client-` then its hyphenated UUID.
pub open spec fn client_id_text(bytes: Seq<u8>) -> Seq<char> {
    client_prefix() + hyphenated_uuid_text(bytes)
}

/// The client id a text names, if any: the text must be `Client-` followed by something
/// that `uuid::Uuid::parse_str` accepts.
pub open spec fn client_id_from_text(s: Seq<char>) -> Option<Seq<u8>> {
    if s.len() >= 7 && s.take(7) == client_prefix() {
        uuid_parse(s.skip(7))
    } else {
        None
    }
}

impl ClientId {
    /// A fresh client id with a random (v4) UUID.
    pub fn new() -> (r: Self)
        ensures
            is_random_uuid(r@),
    {
        ClientId(random_uuid_bytes())
    }

    /// The key under which the id is stored in SQLite: its text form.
    pub fn sqlite_hash(&self) -> (s: String)
        ensures
            s@ == client_id_text(self@),
    {
        self.to_text()
    }

    /// The text form `Client-<uuid>`.
    pub fn to_text(&self) -> (s: String)
        ensures
            s@ == client_id_text(self@),
    {
        let mut s = string_of(&['C', 'l', 'i', 'e', 'n', 't', '-']);
        let u = uuid_text(self.0);
        s.append(u.as_str());
        s
    }

    /// Reads the text form back; `None` when `hash` is not `Client-<uuid>`.
    pub fn parse_hash(hash: &str) -> (r: Option<Self>)
        ensures
            match r {
                Some(id) => client_id_from_text(hash@) == Some(id@),
                None => client_id_from_text(hash@) is None,
            },
            r is Some ==> hash@.len() >= 39,
            forall|b: Seq<u8>|
                b.len() == 16 && #[trigger] client_id_text(b) == hash@ ==> r is Some && r->0@
                    == b,
    {
        let v = chars_of(hash);
        let prefix = ['C', 'l', 'i', 'e', 'n', 't', '-'];
        assert(prefix@ =~= client_prefix());
        if v.len() < 7 {
            assert forall|b: Seq<u8>| b.len() == 16 implies #[trigger] client_id_text(b)
                != hash@ by {
                assert(client_id_text(b).len() >= 7);
            }
            return None;
        }
        let mut i: usize = 0;
        while i < 7
            invariant
                i <= 7 <= v.len(),
                prefix@ == client_prefix(),
                v@ == hash@,
                forall|k: int| 0 <= k < i ==> v@[k] == prefix@[k],
            decreases 7 - i,
        {
            if v[i] != prefix[i] {
                assert(v@.take(7)[i as int] != client_prefix()[i as int]);
                assert forall|b: Seq<u8>| b.len() == 16 implies #[trigger] client_id_text(b)
                    != hash@ by {
                    assert(client_id_text(b)[i as int] == client_prefix()[i as int]);
                }
                return None;
            }
            i += 1;
        }
        assert(v@.take(7) =~= client_prefix());
        let rest = crate::text::slice_chars(&v, 7, v.len());
        let rest_text = string_of(rest.as_slice());
        assert(rest@ =~= hash@.skip(7));
        assert forall|b: Seq<u8>|
            b.len() == 16 && #[trigger] client_id_text(b) == hash@ implies hyphenated_uuid_text(b)
            == rest_text@ by {
            assert(client_id_text(b).skip(7) =~= hyphenated_uuid_text(b));
        }
        match parse_uuid(rest_text.as_str()) {
            Some(b) => Some(ClientId(b)),
            None => None,
        }
    }

    /// Reads an id from text, falling back to a fresh random id when the text is not a client
    /// id.
    pub fn from_text_or_new(value: &str) -> (r: Self)
        ensures
            client_id_from_text(value@) is Some ==> client_id_from_text(value@) == Some(r@),
            client_id_from_text(value@) is None ==> is_random_uuid(r@),
    {
        match Self::parse_hash(value) {
            Some(id) => id,
            None => Self::new(),
        }
    }
}

impl Default for ClientId {
    /// A fresh random id.
    fn default() -> (r: Self)
        ensures
            is_random_uuid(r@),
    {
        ClientId::new()
    }
}

impl HashableId for ClientId {
    fn to_hash(&self) -> (s: String)
        ensures
            s@ == client_id_text(self@),
    {
        self.to_text()
    }

    fn from_hash(hash: &str) -> (r: Option<Self>)
        ensures
            match r {
                Some(id) => client_id_from_text(hash@) == Some(id@),
                None => client_id_from_text(hash@) is None,
            },
    {
        Self::parse_hash(hash)
    }
}

/// An id assigned by the server: exactly 22 characters.
#[derive(Clone, Copy, Default, Hash, PartialEq, Eq, Debug)]
pub struct ServerId(pub [char; 22]);

impl View for ServerId {
    type V = Seq<char>;

    open spec fn view(&self) -> Seq<char> {
        self.0@
    }
}

/// Index where the longest suffix of `s[..i]` that fits in `budget` bytes of UTF-8 starts,
/// taking whole characters from the end.
pub open spec fn fitting_tail_start(s: Seq<char>, i: int, budget: nat) -> int
    decreases i,
{
    if i <= 0 || i > s.len() {
        0
    } else if utf8_width(s[i - 1]) <= budget {
        fitting_tail_start(s, i - 1, (budget - utf8_width(s[i - 1])) as nat)
    } else {
        i
    }
}

/// The characters of the last 22 bytes of `s` (all of `s` when it is shorter).
pub open spec fn lossy_tail(s: Seq<char>) -> Seq<char> {
    s.subrange(fitting_tail_start(s, s.len() as int, 22), s.len() as int)
}

/// Whether normalizing `s` into a server id goes through: either `s` has 22 characters, or it
/// takes at most 22 bytes, or its last 22 bytes start on a character boundary.
pub open spec fn server_id_text_accepted(s: Seq<char>) -> bool {
    ||| s.len() == 22
    ||| utf8_size(s) <= 22
    ||| utf8_size(lossy_tail(s)) == 22
}

/// The server id `from_string_lossy` makes of `s`: `s` itself when it has 22 characters;
/// otherwise its last 22 bytes, left-padded with `0` to 22 characters.
pub open spec fn lossy_server_id(s: Seq<char>) -> Seq<char> {
    if s.len() == 22 {
        s
    } else {
        let t = lossy_tail(s);
        Seq::new((22 - t.len()) as nat, |i: int| '0') + t
    }
}

/// Size of `s` in UTF-8 when taking characters from the front.
pub proof fn lemma_utf8_size_front(s: Seq<char>)
    requires
        s.len() > 0,
    ensures
        utf8_size(s) == utf8_width(s[0]) + utf8_size(s.drop_first()),
    decreases s.len(),
{
    if s.len() > 1 {
        lemma_utf8_size_front(s.drop_last());
        assert(s.drop_last().drop_first() =~= s.drop_first().drop_last());
    } else {
        assert(s.drop_last() =~= Seq::<char>::empty());
        assert(s.drop_first() =~= Seq::<char>::empty());
    }
}

/// Every character takes at least one byte.
pub proof fn lemma_utf8_size_ge_len(s: Seq<char>)
    ensures
        utf8_size(s) >= s.len(),
    decreases s.len(),
{
    if s.len() > 0 {
        lemma_utf8_size_ge_len(s.drop_last());
    }
}

proof fn lemma_fitting_tail(s: Seq<char>, i: int, budget: nat)
    requires
        0 <= i <= s.len(),
        utf8_size(s.subrange(i, s.len() as int)) + budget == 22,
    ensures
        0 <= fitting_tail_start(s, i, budget) <= i,
        utf8_size(s.subrange(fitting_tail_start(s, i, budget), s.len() as int)) <= 22,
    decreases i,
{
    if i > 0 && utf8_width(s[i - 1]) <= budget {
        let t = s.subrange(i - 1, s.len() as int);
        lemma_utf8_size_front(t);
        assert(t.drop_first() =~= s.subrange(i, s.len() as int));
        lemma_fitting_tail(s, i - 1, (budget - utf8_width(s[i - 1])) as nat);
    }
}

/// Exec width of `c` in UTF-8.
fn char_width(c: char) -> (w: usize)
    ensures
        w == utf8_width(c),
{
    let u = c as u32;
    if u < 0x80 {
        1
    } else if u < 0x800 {
        2
    } else if u < 0x10000 {
        3
    } else {
        4
    }
}

/// Copies 22 characters into a server id.
fn server_id_of(v: &Vec<char>) -> (r: ServerId)
    requires
        v.len() == 22,
    ensures
        r@ == v@,
{
    let mut a: [char; 22] = ['0'; 22];
    let mut i: usize = 0;
    while i < 22
        invariant
            i <= 22,
            v.len() == 22,
            a@.len() == 22,
            forall|k: int| 0 <= k < i ==> a@[k] == v@[k],
        decreases 22 - i,
    {
        a[i] = v[i];
        i += 1;
    }
    assert(a@ =~= v@);
    ServerId(a)
}

impl ServerId {
    /// Reads a server id: `Err(())` unless `value` has exactly 22 characters.
    pub fn try_from_str(value: &str) -> (r: Result<Self, ()>)
        ensures
            match r {
                Ok(id) => value@.len() == 22 && id@ == value@,
                Err(()) => value@.len() != 22,
            },
    {
        let v = chars_of(value);
        if v.len() == SERVER_ID_LEN {
            Ok(server_id_of(&v))
        } else {
            Err(())
        }
    }

    /// Turns any text into a server id: text of exactly 22 characters is taken as it is;
    /// other text is cut to its last 22 bytes and left-padded with `0`.
    pub fn from_string_lossy(value: &str) -> (r: Self)
        requires
            server_id_text_accepted(value@),
        ensures
            r@ == lossy_server_id(value@),
    {
        let v = chars_of(value);
        if v.len() == SERVER_ID_LEN {
            return server_id_of(&v);
        }
        let mut start = v.len();
        let mut budget: usize = 22;
        while start > 0 && char_width(v[start - 1]) <= budget
            invariant
                start <= v.len(),
                budget <= 22,
                fitting_tail_start(v@, v@.len() as int, 22) == fitting_tail_start(
                    v@,
                    start as int,
                    budget as nat,
                ),
                utf8_size(v@.subrange(start as int, v@.len() as int)) + budget == 22,
            decreases start,
        {
            let w = char_width(v[start - 1]);
            proof {
                let t = v@.subrange(start - 1, v@.len() as int);
                lemma_utf8_size_front(t);
                assert(t.drop_first() =~= v@.subrange(start as int, v@.len() as int));
            }
            budget = budget - w;
            start = start - 1;
        }
        proof {
            assert(v@.subrange(v@.len() as int, v@.len() as int) =~= Seq::<char>::empty());
            lemma_fitting_tail(v@, v@.len() as int, 22);
            lemma_utf8_size_ge_len(v@.subrange(start as int, v@.len() as int));
        }
        let tail = crate::text::slice_chars(&v, start, v.len());
        let mut padded: Vec<char> = Vec::new();
        let pad = SERVER_ID_LEN - tail.len();
        while padded.len() < pad
            invariant
                padded.len() <= pad,
                forall|k: int| 0 <= k < padded.len() ==> padded@[k] == '0',
            decreases pad - padded.len(),
        {
            padded.push('0');
        }
        let mut j: usize = 0;
        while j < tail.len()
            invariant
                j <= tail.len(),
                pad + tail.len() == 22,
                padded.len() == pad + j,
                forall|k: int| 0 <= k < pad ==> padded@[k] == '0',
                forall|k: int| 0 <= k < j ==> padded@[pad + k] == tail@[k],
            decreases tail.len() - j,
        {
            padded.push(tail[j]);
            j += 1;
        }
        let ghost t = lossy_tail(value@);
        assert(tail@ == t);
        assert(padded@ =~= Seq::new((22 - t.len()) as nat, |i: int| '0') + t);
        server_id_of(&padded)
    }

    /// The object uid of this id: its 22 characters.
    pub fn uid(&self) -> (s: String)
        ensures
            s@ == self@,
    {
        string_of(&self.0)
    }
}

/// Conversion of a typed server-side object id into its server id.
pub trait ToServerId {
    fn to_server_id(&self) -> ServerId;
}

/// Either kind of synced-object id.
#[derive(Clone, Copy, Debug, Hash, PartialEq, Eq)]
pub enum SyncId {
    ClientId(ClientId),
    ServerId(ServerId),
}

/// The text a sync id is displayed, stored and serialized as.
pub open spec fn sync_id_text(id: SyncId) -> Seq<char> {
    match id {
        SyncId::ClientId(c) => client_id_text(c@),
        SyncId::ServerId(s) => s@,
    }
}

/// What a sync id denotes: the UUID bytes of a client id or the characters of a server id.
pub enum SyncIdView {
    Client(Seq<u8>),
    Server(Seq<char>),
}

impl View for SyncId {
    type V = SyncIdView;

    open spec fn view(&self) -> SyncIdView {
        match *self {
            SyncId::ClientId(c) => SyncIdView::Client(c@),
            SyncId::ServerId(s) => SyncIdView::Server(s@),
        }
    }
}

/// The sync id that deserializing `s` gives: a client id when `s` is one, otherwise `s`
/// normalized into a server id.
pub open spec fn sync_id_from_text(s: Seq<char>) -> SyncIdView {
    match client_id_from_text(s) {
        Some(b) => SyncIdView::Client(b),
        None => SyncIdView::Server(lossy_server_id(s)),
    }
}

impl SyncId {
    pub fn from_server_id(value: ServerId) -> (r: Self)
        ensures
            r == SyncId::ServerId(value),
    {
        SyncId::ServerId(value)
    }

    pub fn into_server(self) -> (r: Option<ServerId>)
        ensures
            r == (match self {
                SyncId::ServerId(id) => Some(id),
                SyncId::ClientId(_) => None::<ServerId>,
            }),
    {
        match self {
            SyncId::ServerId(id) => Some(id),
            SyncId::ClientId(_) => None,
        }
    }

    pub fn into_client(self) -> (r: Option<ClientId>)
        ensures
            r == (match self {
                SyncId::ClientId(id) => Some(id),
                SyncId::ServerId(_) => None::<ClientId>,
            }),
    {
        match self {
            SyncId::ClientId(id) => Some(id),
            SyncId::ServerId(_) => None,
        }
    }

    /// The object uid: the id's text.
    pub fn uid(&self) -> (s: String)
        ensures
            s@ == sync_id_text(*self),
    {
        self.to_text()
    }

    /// The id's text: `Client-<uuid>` or the 22 server-id characters.
    pub fn to_text(&self) -> (s: String)
        ensures
            s@ == sync_id_text(*self),
    {
        match self {
            SyncId::ClientId(id) => id.to_text(),
            SyncId::ServerId(id) => id.uid(),
        }
    }

    /// The text a sync id is serialized as (the same as its display text).
    pub fn serialized_text(&self) -> (s: String)
        ensures
            s@ == sync_id_text(*self),
    {
        self.to_text()
    }

    /// Reads a serialized sync id: a client id when the text is one, otherwise the text is
    /// normalized into a server id.
    pub fn from_serialized_text(value: &str) -> (r: Self)
        requires
            server_id_text_accepted(value@),
        ensures
            r@ == sync_id_from_text(value@),
            forall|id: SyncId| #[trigger] sync_id_text(id) == value@ ==> r@ == id@,
    {
        match ClientId::parse_hash(value) {
            Some(id) => {
                let r = SyncId::ClientId(id);
                assert forall|other: SyncId| #[trigger] sync_id_text(other) == value@ implies r@
                    == other@ by {
                    match other {
                        SyncId::ClientId(c) => {
                            lemma_hyphenated_uuid_len(c@);
                        },
                        SyncId::ServerId(_) => {},
                    }
                }
                r
            },
            None => {
                let r = SyncId::ServerId(ServerId::from_string_lossy(value));
                assert forall|other: SyncId| #[trigger] sync_id_text(other) == value@ implies r@
                    == other@ by {
                    match other {
                        SyncId::ClientId(c) => {
                            lemma_hyphenated_uuid_len(c@);
                        },
                        SyncId::ServerId(_) => {},
                    }
                }
                r
            },
        }
    }

    /// The sync id of a server-side object: the server id its `to_server_id` gives.
    pub fn from_object_id<T: ToServerId>(id: T) -> (r: Self)
        ensures
            r matches SyncId::ServerId(s) && call_ensures(T::to_server_id, (&id,), s),
    {
        SyncId::ServerId(id.to_server_id())
    }
}

/// The hyphenated text of a UUID has 36 characters.
pub proof fn lemma_hyphenated_uuid_len(b: Seq<u8>)
    requires
        b.len() == 16,
    ensures
        hyphenated_uuid_text(b).len() == 36,
{
    lemma_hex_text_len(b.subrange(0, 4));
    lemma_hex_text_len(b.subrange(4, 6));
    lemma_hex_text_len(b.subrange(6, 8));
    lemma_hex_text_len(b.subrange(8, 10));
    lemma_hex_text_len(b.subrange(10, 16));
}

pub proof fn lemma_hex_text_len(b: Seq<u8>)
    ensures
        hex_text(b).len() == 2 * b.len(),
    decreases b.len(),
{
    if b.len() > 0 {
        lemma_hex_text_len(b.drop_first());
    }
}

/// A server id of 22 characters always fits in 22 bytes or is exactly 22 characters, so its
/// text is accepted.
pub proof fn law_server_id_text_accepted(id: ServerId)
    ensures
        server_id_text_accepted(id@),
{
}

/// Every character below U+0080 takes one byte.
pub proof fn lemma_ascii_utf8_size(s: Seq<char>)
    requires
        forall|i: int| 0 <= i < s.len() ==> (#[trigger] s[i] as u32) < 0x80,
    ensures
        utf8_size(s) == s.len(),
    decreases s.len(),
{
    if s.len() > 0 {
        lemma_ascii_utf8_size(s.drop_last());
    }
}

proof fn lemma_ascii_fitting_tail(s: Seq<char>, i: int, budget: nat)
    requires
        0 <= i <= s.len(),
        forall|k: int| 0 <= k < s.len() ==> (#[trigger] s[k] as u32) < 0x80,
    ensures
        fitting_tail_start(s, i, budget) == if i >= budget { i - budget } else { 0 },
    decreases i,
{
    if i > 0 && budget > 0 {
        lemma_ascii_fitting_tail(s, i - 1, (budget - 1) as nat);
    }
}

/// Text made only of ASCII characters is always accepted by the server-id normalization.
pub proof fn lemma_ascii_text_accepted(s: Seq<char>)
    requires
        forall|i: int| 0 <= i < s.len() ==> (#[trigger] s[i] as u32) < 0x80,
    ensures
        server_id_text_accepted(s),
{
    lemma_ascii_utf8_size(s);
    if s.len() > 22 {
        lemma_ascii_fitting_tail(s, s.len() as int, 22);
        let t = lossy_tail(s);
        assert forall|i: int| 0 <= i < t.len() implies (#[trigger] t[i] as u32) < 0x80 by {
            assert(t[i] == s[s.len() - 22 + i]);
        }
        lemma_ascii_utf8_size(t);
    }
}

proof fn lemma_hex_text_ascii(b: Seq<u8>)
    ensures
        forall|i: int| 0 <= i < hex_text(b).len() ==> (#[trigger] hex_text(b)[i] as u32) < 0x80,
    decreases b.len(),
{
    lemma_hex_text_len(b);
    if b.len() > 0 {
        lemma_hex_text_ascii(b.drop_first());
        let h = hex_text(b);
        let head = seq![hex_digit(b[0] / 16), hex_digit(b[0] % 16)];
        assert forall|i: int| 0 <= i < h.len() implies (#[trigger] h[i] as u32) < 0x80 by {
            if i >= 2 {
                assert(h[i] == hex_text(b.drop_first())[i - 2]);
            }
        }
    }
}

/// The text of every sync id is accepted for deserialization.
pub proof fn law_sync_id_text_accepted(id: SyncId)
    ensures
        server_id_text_accepted(sync_id_text(id)),
{
    match id {
        SyncId::ServerId(s) => {},
        SyncId::ClientId(c) => {
            let b = c@;
            let t = client_id_text(b);
            lemma_hex_text_ascii(b.subrange(0, 4));
            lemma_hex_text_ascii(b.subrange(4, 6));
            lemma_hex_text_ascii(b.subrange(6, 8));
            lemma_hex_text_ascii(b.subrange(8, 10));
            lemma_hex_text_ascii(b.subrange(10, 16));
            lemma_hyphenated_uuid_len(b);
            lemma_hex_text_len(b.subrange(0, 4));
            lemma_hex_text_len(b.subrange(4, 6));
            lemma_hex_text_len(b.subrange(6, 8));
            lemma_hex_text_len(b.subrange(8, 10));
            lemma_hex_text_len(b.subrange(10, 16));
            assert forall|i: int| 0 <= i < t.len() implies (#[trigger] t[i] as u32) < 0x80 by {
                let h0 = hex_text(b.subrange(0, 4));
                let h1 = hex_text(b.subrange(4, 6));
                let h2 = hex_text(b.subrange(6, 8));
                let h3 = hex_text(b.subrange(8, 10));
                let h4 = hex_text(b.subrange(10, 16));
                if i < 7 {
                } else if i < 15 {
                    assert(t[i] == h0[i - 7]);
                } else if i == 15 || i == 20 || i == 25 || i == 30 {
                } else if i < 20 {
                    assert(t[i] == h1[i - 16]);
                } else if i < 25 {
                    assert(t[i] == h2[i - 21]);
                } else if i < 30 {
                    assert(t[i] == h3[i - 26]);
                } else {
                    assert(t[i] == h4[i - 31]);
                }
            }
            lemma_ascii_text_accepted(t);
        },
    }
}

/// Whether `c` is a lower-case hexadecimal digit.
pub open spec fn is_lower_hex(c: char) -> bool {
    ('0' <= c <= '9') || ('a' <= c <= 'f')
}

/// The value of a lower-case hexadecimal digit.
pub open spec fn hex_value(c: char) -> int {
    if '0' <= c <= '9' {
        c as int - '0' as int
    } else {
        c as int - 'a' as int + 10
    }
}

proof fn lemma_hex_digit(n: u8)
    requires
        n < 16,
    ensures
        is_lower_hex(hex_digit(n)),
        hex_value(hex_digit(n)) == n,
{
    if n < 10 {
        assert((('0' as u32) + n as u32) as char as int == 48 + n);
    } else {
        assert((('a' as u32) + (n - 10) as u32) as char as int == 97 + n - 10);
    }
}

/// Each byte is written as two lower-case hexadecimal digits, the high nibble first, in
/// order: digits `2i` and `2i + 1` give back byte `i`.
pub proof fn law_hex_text_digits(b: Seq<u8>)
    ensures
        hex_text(b).len() == 2 * b.len(),
        forall|k: int| 0 <= k < hex_text(b).len() ==> is_lower_hex(#[trigger] hex_text(b)[k]),
        forall|i: int|
            0 <= i < b.len() ==> hex_value(hex_text(b)[2 * i]) * 16 + hex_value(hex_text(b)[2 * i + 1])
                == #[trigger] b[i],
    decreases b.len(),
{
    lemma_hex_text_len(b);
    if b.len() > 0 {
        law_hex_text_digits(b.drop_first());
        let h = hex_text(b);
        let t = hex_text(b.drop_first());
        let x = b[0];
        assert(x / 16 < 16 && x % 16 < 16) by (bit_vector);
        assert(x == (x / 16) * 16 + x % 16) by (bit_vector);
        lemma_hex_digit(x / 16);
        lemma_hex_digit(x % 16);
        assert(h[0] == hex_digit(x / 16));
        assert(h[1] == hex_digit(x % 16));
        assert forall|k: int| 0 <= k < h.len() implies is_lower_hex(#[trigger] h[k]) by {
            if k >= 2 {
                assert(h[k] == t[k - 2]);
            }
        }
        assert forall|i: int| 0 <= i < b.len() implies hex_value(h[2 * i]) * 16 + hex_value(h[2 * i + 1])
            == #[trigger] b[i] by {
            if i > 0 {
                assert(h[2 * i] == t[2 * (i - 1)]);
                assert(h[2 * i + 1] == t[2 * (i - 1) + 1]);
                assert(b[i] == b.drop_first()[i - 1]);
            }
        }
    }
}

/// A UUID is written in the form `xxxxxxxx-xxxx-xxxx-xxxx-xxxxxxxxxxxx`: 36 characters, with
/// hyphens at positions 8, 13, 18 and 23 and lower-case hexadecimal digits everywhere else;
/// a client id's text is `Client-` followed by that, 43 characters in all.
pub proof fn law_uuid_text_shape(b: Seq<u8>)
    requires
        b.len() == 16,
    ensures
        ({
            let t = hyphenated_uuid_text(b);
            &&& t.len() == 36
            &&& forall|i: int| 0 <= i < 36 ==> if i == 8 || i == 13 || i == 18 || i == 23 {
                #[trigger] t[i] == '-'
            } else {
                is_lower_hex(t[i])
            }
            &&& client_id_text(b).len() == 43
            &&& client_id_text(b).take(7) == "Client-"@
            &&& client_id_text(b).skip(7) == t
        }),
{
    reveal_strlit("Client-");
    lemma_hyphenated_uuid_len(b);
    let h0 = hex_text(b.subrange(0, 4));
    let h1 = hex_text(b.subrange(4, 6));
    let h2 = hex_text(b.subrange(6, 8));
    let h3 = hex_text(b.subrange(8, 10));
    let h4 = hex_text(b.subrange(10, 16));
    law_hex_text_digits(b.subrange(0, 4));
    law_hex_text_digits(b.subrange(4, 6));
    law_hex_text_digits(b.subrange(6, 8));
    law_hex_text_digits(b.subrange(8, 10));
    law_hex_text_digits(b.subrange(10, 16));
    let t = hyphenated_uuid_text(b);
    assert forall|i: int| 0 <= i < 36 implies if i == 8 || i == 13 || i == 18 || i == 23 {
        #[trigger] t[i] == '-'
    } else {
        is_lower_hex(t[i])
    } by {
        if i < 8 {
            assert(t[i] == h0[i]);
        } else if i == 8 {
        } else if i < 13 {
            assert(t[i] == h1[i - 9]);
        } else if i == 13 {
        } else if i < 18 {
            assert(t[i] == h2[i - 14]);
        } else if i == 18 {
        } else if i < 23 {
            assert(t[i] == h3[i - 19]);
        } else if i == 23 {
        } else {
            assert(t[i] == h4[i - 24]);
        }
    }
    assert(client_prefix() =~= "Client-"@);
    assert(client_id_text(b).take(7) =~= client_prefix());
    assert(client_id_text(b).skip(7) =~= t);
}

/// For ASCII text, normalizing into a server id always gives 22 characters: text of 22
/// characters stays as it is, shorter text is left-padded with `0`, and longer text keeps
/// its last 22 characters.
pub proof fn law_ascii_lossy_server_id(s: Seq<char>)
    requires
        forall|i: int| 0 <= i < s.len() ==> (#[trigger] s[i] as u32) < 0x80,
    ensures
        lossy_server_id(s).len() == 22,
        s.len() <= 22 ==> lossy_server_id(s) == Seq::new((22 - s.len()) as nat, |i: int| '0') + s,
        s.len() > 22 ==> lossy_server_id(s) == s.skip(s.len() - 22),
{
    lemma_ascii_fitting_tail(s, s.len() as int, 22);
    let t = lossy_tail(s);
    if s.len() < 22 {
        assert(t =~= s);
    } else if s.len() == 22 {
        assert(Seq::new(0nat, |i: int| '0') + s =~= s);
    } else {
        assert(t =~= s.skip(s.len() - 22));
        assert(Seq::new(0nat, |i: int| '0') + t =~= t);
    }
}

} // verus!
