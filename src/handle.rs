use vstd::prelude::*;
use vstd::string::StringSliceAdditionalSpecFns;
use vstd::utf8::{encode_utf8, encode_utf8_decode_utf8};
use crate::error::KeygenError;
use crate::location::{hex_digit, hex_encode, hex_text};
use crate::symmetric::{hmac_sha256_of, sign, signature_matches};
use crate::text::{chars_of, slice_chars, starts_with_chars, string_of};

verus! {

/// The two families of keys.
#[derive(Clone, Copy, Debug, PartialEq, Eq, Structural)]
pub enum KeyKind {
    /// An asymmetric key pair.
    KeyPair,
    /// A symmetric key.
    Key,
}

/// A capability for a created or loaded key: its family and id, sealed with an
/// HMAC-SHA256 tag under the service's handle-sealing key, so that only the
/// service can make one.
#[derive(Clone, Debug)]
pub struct KeyHandle(pub String);

impl View for KeyHandle {
    type V = Seq<char>;

    open spec fn view(&self) -> Seq<char> {
        self.0@
    }
}

pub open spec fn kind_tag(kind: KeyKind) -> Seq<char> {
    match kind {
        KeyKind::KeyPair => "keypair:"@,
        KeyKind::Key => "key:"@,
    }
}

/// What a handle for key `id` of family `kind` claims.
pub open spec fn handle_body(kind: KeyKind, id: Seq<char>) -> Seq<char> {
    kind_tag(kind) + id
}

/// The seal of a handle body under the sealing key `hk`: its HMAC-SHA256 in hex.
pub open spec fn handle_mac(hk: Seq<u8>, body: Seq<char>) -> Seq<char> {
    hex_text(hmac_sha256_of(hk, encode_utf8(body)))
}

/// The text of the handle for key `id` of family `kind` under sealing key `hk`:
/// the body, a `.`, and the seal.
pub open spec fn handle_text(hk: Seq<u8>, kind: KeyKind, id: Seq<char>) -> Seq<char> {
    handle_body(kind, id) + seq!['.'] + handle_mac(hk, handle_body(kind, id))
}

/// The family and id that a handle body names, if it is well formed.
pub open spec fn body_of(b: Seq<char>) -> Option<(KeyKind, Seq<char>)> {
    if b.len() >= kind_tag(KeyKind::KeyPair).len() && b.subrange(0, kind_tag(KeyKind::KeyPair).len() as int) == kind_tag(KeyKind::KeyPair) {
        Some((KeyKind::KeyPair, b.subrange(kind_tag(KeyKind::KeyPair).len() as int, b.len() as int)))
    } else if b.len() >= kind_tag(KeyKind::Key).len() && b.subrange(0, kind_tag(KeyKind::Key).len() as int) == kind_tag(KeyKind::Key) {
        Some((KeyKind::Key, b.subrange(kind_tag(KeyKind::Key).len() as int, b.len() as int)))
    } else {
        None
    }
}

/// The index of the last occurrence of `c` in `s`, if any.
pub open spec fn last_index_of(s: Seq<char>, c: char) -> Option<int>
    decreases s.len(),
{
    if s.len() == 0 {
        None
    } else if s.last() == c {
        Some(s.len() - 1)
    } else {
        last_index_of(s.drop_last(), c)
    }
}

/// What handle text `h` claims, before its seal is checked: the family, the id,
/// and the seal, split at the last `.`.
pub open spec fn claimed(h: Seq<char>) -> Option<(KeyKind, Seq<char>, Seq<char>)> {
    match last_index_of(h, '.') {
        None => None,
        Some(i) => match body_of(h.subrange(0, i)) {
            None => None,
            Some(d) => Some((d.0, d.1, h.subrange(i + 1, h.len() as int))),
        },
    }
}

/// Whether `mac` is the seal of the body naming key `id` of family `kind`.
pub open spec fn authentic(hk: Seq<u8>, kind: KeyKind, id: Seq<char>, mac: Seq<char>) -> bool {
    mac == handle_mac(hk, handle_body(kind, id))
}

/// The family and id of handle text `h` under sealing key `hk`, if it is well
/// formed and its seal is authentic.
pub open spec fn decode_handle(hk: Seq<u8>, h: Seq<char>) -> Option<(KeyKind, Seq<char>)> {
    match claimed(h) {
        Some(t) => if authentic(hk, t.0, t.1, t.2) {
            Some((t.0, t.1))
        } else {
            None
        },
        None => None,
    }
}

proof fn lemma_last_index_of(s: Seq<char>, c: char)
    ensures
        match last_index_of(s, c) {
            Some(i) => 0 <= i < s.len() && s[i] == c,
            None => true,
        },
    decreases s.len(),
{
    if s.len() > 0 && s.last() != c {
        lemma_last_index_of(s.drop_last(), c);
    }
}

fn rfind_char(s: &Vec<char>, c: char) -> (r: Option<usize>)
    ensures
        match last_index_of(s@, c) {
            Some(i) => r is Some && r->Some_0 as int == i && i < s@.len(),
            None => r is None,
        },
{
    proof { lemma_last_index_of(s@, c); }
    let mut i: usize = s.len();
    assert(s@.subrange(0, i as int) =~= s@);
    while i > 0
        invariant
            0 <= i <= s@.len(),
            last_index_of(s@.subrange(0, i as int), c) == last_index_of(s@, c),
        decreases i,
    {
        proof {
            assert(s@.subrange(0, i as int).drop_last() =~= s@.subrange(0, i - 1));
        }
        if s[i - 1] == c {
            return Some(i - 1);
        }
        i = i - 1;
    }
    None
}

fn body_string(kind: KeyKind, id: &str) -> (r: String)
    ensures
        r@ == handle_body(kind, id@),
{
    let tag = match kind {
        KeyKind::KeyPair => "keypair:".to_owned(),
        KeyKind::Key => "key:".to_owned(),
    };
    tag.concat(id)
}

fn seal(hk: &[u8], body: &String) -> (r: Result<String, KeygenError>)
    requires
        hk@.len() <= i32::MAX,
    ensures
        match r {
            Ok(m) => m@ == handle_mac(hk@, body@),
            Err(e) => e == KeygenError::External,
        },
{
    let mac = sign(hk, body.as_str().as_bytes())?;
    Ok(hex_encode(mac.as_slice()))
}

impl KeyHandle {
    /// The handle for key `id` of family `kind`, sealed under `hk`.
    pub fn new(kind: KeyKind, id: &str, hk: &[u8]) -> (r: Result<KeyHandle, KeygenError>)
        requires
            hk@.len() <= i32::MAX,
        ensures
            match r {
                Ok(h) => h@ == handle_text(hk@, kind, id@),
                Err(e) => e == KeygenError::External,
            },
    {
        proof { reveal_strlit("."); }
        let body = body_string(kind, id);
        let mac = seal(hk, &body)?;
        Ok(KeyHandle(body.concat(".").concat(mac.as_str())))
    }

    /// What this handle claims, its seal not yet checked; a malformed handle is an
    /// invalid parameter.
    pub fn claim(&self) -> (r: Result<(KeyKind, String, String), KeygenError>)
        ensures
            match claimed(self@) {
                Some(t) => r is Ok && r->Ok_0.0 == t.0 && r->Ok_0.1@ == t.1 && r->Ok_0.2@ == t.2,
                None => r == Err::<(KeyKind, String, String), KeygenError>(KeygenError::InvalidParameter),
            },
    {
        let cs = chars_of(self.0.as_str());
        let i = match rfind_char(&cs, '.') {
            Some(i) => i,
            None => return Err(KeygenError::InvalidParameter),
        };
        let n = cs.len();
        let body = slice_chars(&cs, 0, i);
        let mac = slice_chars(&cs, i + 1, n);
        let pair_tag = chars_of("keypair:");
        let key_tag = chars_of("key:");
        if starts_with_chars(&body, &pair_tag) {
            let id = slice_chars(&body, pair_tag.len(), body.len());
            Ok((KeyKind::KeyPair, string_of(id.as_slice()), string_of(mac.as_slice())))
        } else if starts_with_chars(&body, &key_tag) {
            let id = slice_chars(&body, key_tag.len(), body.len());
            Ok((KeyKind::Key, string_of(id.as_slice()), string_of(mac.as_slice())))
        } else {
            Err(KeygenError::InvalidParameter)
        }
    }
}

/// Whether `mac` is the seal, under `hk`, of the body naming key `id` of family
/// `kind`; the comparison takes constant time.
pub fn authenticate(hk: &[u8], kind: KeyKind, id: &str, mac: &str) -> (r: Result<bool, KeygenError>)
    requires
        hk@.len() <= i32::MAX,
    ensures
        match r {
            Ok(b) => b == authentic(hk@, kind, id@, mac@),
            Err(e) => e == KeygenError::External,
        },
{
    let body = body_string(kind, id);
    let expected = seal(hk, &body)?;
    let same = signature_matches(expected.as_str().as_bytes(), mac.as_bytes());
    proof {
        encode_utf8_decode_utf8(expected@);
        encode_utf8_decode_utf8(mac@);
    }
    Ok(same)
}

proof fn lemma_hex_digit_not_dot(n: int)
    requires
        0 <= n < 16,
    ensures
        hex_digit(n) != '.',
{
    let t = seq!['0', '1', '2', '3', '4', '5', '6', '7', '8', '9', 'a', 'b', 'c', 'd', 'e', 'f'];
    assert(t[n] != '.') by {
        if n == 0 {} else if n == 1 {} else if n == 2 {} else if n == 3 {} else if n == 4 {}
        else if n == 5 {} else if n == 6 {} else if n == 7 {} else if n == 8 {} else if n == 9 {}
        else if n == 10 {} else if n == 11 {} else if n == 12 {} else if n == 13 {} else if n == 14 {}
        else {}
    }
}

proof fn lemma_hex_no_dot(b: Seq<u8>)
    ensures
        forall|i: int| 0 <= i < hex_text(b).len() ==> hex_text(b)[i] != '.',
    decreases b.len(),
{
    if b.len() > 0 {
        lemma_hex_no_dot(b.drop_last());
        lemma_hex_digit_not_dot(b.last() as int / 16);
        lemma_hex_digit_not_dot(b.last() as int % 16);
        let prev = hex_text(b.drop_last());
        let tail = seq![hex_digit(b.last() as int / 16), hex_digit(b.last() as int % 16)];
        assert(hex_text(b) == prev + tail);
        assert forall|i: int| 0 <= i < hex_text(b).len() implies hex_text(b)[i] != '.' by {
            if i < prev.len() {
                assert(hex_text(b)[i] == prev[i]);
            } else {
                assert(hex_text(b)[i] == tail[i - prev.len()]);
            }
        }
    }
}

proof fn lemma_last_dot(x: Seq<char>, m: Seq<char>)
    requires
        forall|i: int| 0 <= i < m.len() ==> m[i] != '.',
    ensures
        last_index_of(x + seq!['.'] + m, '.') == Some(x.len() as int),
    decreases m.len(),
{
    let s = x + seq!['.'] + m;
    if m.len() == 0 {
        assert(s.last() == '.');
    } else {
        assert(s.last() == m.last());
        assert(s.drop_last() =~= x + seq!['.'] + m.drop_last());
        lemma_last_dot(x, m.drop_last());
    }
}

/// A handle the service made is accepted under its sealing key, and names the
/// family and id it was made for.
pub proof fn handle_round_trip(hk: Seq<u8>, kind: KeyKind, id: Seq<char>)
    ensures
        claimed(handle_text(hk, kind, id)) == Some((kind, id, handle_mac(hk, handle_body(kind, id)))),
        decode_handle(hk, handle_text(hk, kind, id)) == Some((kind, id)),
{
    reveal_strlit("keypair:");
    reveal_strlit("key:");
    let body = handle_body(kind, id);
    let mac = handle_mac(hk, body);
    let h = handle_text(hk, kind, id);
    lemma_hex_no_dot(hmac_sha256_of(hk, encode_utf8(body)));
    lemma_last_dot(body, mac);
    assert(h.subrange(0, body.len() as int) =~= body);
    assert(h.subrange(body.len() as int + 1, h.len() as int) =~= mac);
    assert(body.subrange(0, kind_tag(kind).len() as int) =~= kind_tag(kind));
    assert(body.subrange(kind_tag(kind).len() as int, body.len() as int) =~= id);
    if kind == KeyKind::Key {
        if body.len() >= 8 {
            assert(body.subrange(0, 8)[3] == ':');
            assert(kind_tag(KeyKind::KeyPair)[3] == 'p');
        }
    }
}

/// Whatever a handle claims, one whose seal is not the sealing key's is refused.
pub proof fn unsealed_handle_is_refused(hk: Seq<u8>, h: Seq<char>)
    requires
        claimed(h) is Some,
        !authentic(hk, claimed(h)->Some_0.0, claimed(h)->Some_0.1, claimed(h)->Some_0.2),
    ensures
        decode_handle(hk, h) is None,
{
}

} // verus!
