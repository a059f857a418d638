use vstd::prelude::*;
use crate::error::KeygenError;
use crate::text::{
    chars_eq, chars_of, decode_segment, find_char, first_index_of, lemma_first_index_of, segment_text,
    slice_chars, split_chars, split_on, starts_with_chars, string_of,
};

verus! {

/// One `name=value` attribute of a PKCS#11 URI, its value percent-decoded.
#[derive(Clone, Debug)]
pub struct Pkcs11Attribute {
    pub name: String,
    pub value: String,
}

impl View for Pkcs11Attribute {
    type V = (Seq<char>, Seq<char>);

    open spec fn view(&self) -> (Seq<char>, Seq<char>) {
        (self.name@, self.value@)
    }
}

/// A PKCS#11 URI: the path attributes that select a slot or token, the label of
/// the object within it, and the query attributes (a PIN source, a module).
#[derive(Clone, Debug)]
pub struct Pkcs11Uri {
    pub slot_attributes: Vec<Pkcs11Attribute>,
    pub object_label: Option<String>,
    pub query_attributes: Vec<Pkcs11Attribute>,
}

pub struct Pkcs11UriView {
    pub slot: Seq<(Seq<char>, Seq<char>)>,
    pub object_label: Option<Seq<char>>,
    pub query: Seq<(Seq<char>, Seq<char>)>,
}

pub open spec fn opt_view(o: Option<String>) -> Option<Seq<char>> {
    match o {
        Some(s) => Some(s@),
        None => None,
    }
}

pub open spec fn attrs_view(v: Seq<Pkcs11Attribute>) -> Seq<(Seq<char>, Seq<char>)> {
    v.map_values(|a: Pkcs11Attribute| a@)
}

impl View for Pkcs11Uri {
    type V = Pkcs11UriView;

    open spec fn view(&self) -> Pkcs11UriView {
        Pkcs11UriView {
            slot: attrs_view(self.slot_attributes@),
            object_label: opt_view(self.object_label),
            query: attrs_view(self.query_attributes@),
        }
    }
}

pub open spec fn scheme_prefix() -> Seq<char> {
    seq!['p', 'k', 'c', 's', '1', '1', ':']
}

pub open spec fn object_attribute_name() -> Seq<char> {
    seq!['o', 'b', 'j', 'e', 'c', 't']
}

/// An attribute `name=value`: split at the first `=`, with a nonempty name and a
/// value that percent-decodes to UTF-8.
pub open spec fn attribute_of(piece: Seq<char>) -> Option<(Seq<char>, Seq<char>)> {
    match first_index_of(piece, '=') {
        Some(i) => if i > 0 {
            match segment_text(piece.subrange(i + 1, piece.len() as int)) {
                Some(v) => Some((piece.subrange(0, i), v)),
                None => None,
            }
        } else {
            None
        },
        None => None,
    }
}

pub open spec fn empty_uri() -> Pkcs11UriView {
    Pkcs11UriView { slot: Seq::empty(), object_label: None, query: Seq::empty() }
}

/// The URI made of the given path attribute texts; the last `object` attribute
/// gives the label.
pub open spec fn attributes_of(pieces: Seq<Seq<char>>) -> Option<Pkcs11UriView>
    decreases pieces.len(),
{
    if pieces.len() == 0 {
        Some(empty_uri())
    } else {
        match attributes_of(pieces.drop_last()) {
            None => None,
            Some(u) => match attribute_of(pieces.last()) {
                None => None,
                Some(a) => if a.0 == object_attribute_name() {
                    Some(Pkcs11UriView { slot: u.slot, object_label: Some(a.1), query: u.query })
                } else {
                    Some(Pkcs11UriView { slot: u.slot.push(a), object_label: u.object_label, query: u.query })
                },
            },
        }
    }
}

/// The attributes the given texts denote, in order.
pub open spec fn attribute_list_of(pieces: Seq<Seq<char>>) -> Option<Seq<(Seq<char>, Seq<char>)>>
    decreases pieces.len(),
{
    if pieces.len() == 0 {
        Some(Seq::empty())
    } else {
        match attribute_list_of(pieces.drop_last()) {
            None => None,
            Some(l) => match attribute_of(pieces.last()) {
                None => None,
                Some(a) => Some(l.push(a)),
            },
        }
    }
}

/// The URI a path denotes: empty, or `;`-separated attributes.
pub open spec fn path_of(path: Seq<char>) -> Option<Pkcs11UriView> {
    if path.len() == 0 {
        Some(empty_uri())
    } else {
        attributes_of(split_on(path, ';'))
    }
}

/// The attributes a query denotes: none, or `&`-separated attributes.
pub open spec fn query_of(query: Seq<char>) -> Option<Seq<(Seq<char>, Seq<char>)>> {
    if query.len() == 0 {
        Some(Seq::empty())
    } else {
        attribute_list_of(split_on(query, '&'))
    }
}

/// A `pkcs11:` URI: a path, then optionally `?` and a query.
pub open spec fn parse_pkcs11_uri(s: Seq<char>) -> Option<Pkcs11UriView> {
    if s.len() >= 7 && s.subrange(0, 7) == scheme_prefix() {
        let rest = s.subrange(7, s.len() as int);
        let (path, query) = match first_index_of(rest, '?') {
            Some(i) => (rest.subrange(0, i), rest.subrange(i + 1, rest.len() as int)),
            None => (rest, Seq::empty()),
        };
        match (path_of(path), query_of(query)) {
            (Some(u), Some(q)) => Some(Pkcs11UriView { slot: u.slot, object_label: u.object_label, query: q }),
            _ => None,
        }
    } else {
        None
    }
}

proof fn lemma_attributes_none_extends(gp: Seq<Seq<char>>, k: int, m: int)
    requires
        0 <= k <= m <= gp.len(),
        attributes_of(gp.subrange(0, k)) is None,
    ensures
        attributes_of(gp.subrange(0, m)) is None,
    decreases m - k,
{
    if m > k {
        lemma_attributes_none_extends(gp, k, m - 1);
        assert(gp.subrange(0, m).drop_last() =~= gp.subrange(0, m - 1));
    }
}

proof fn lemma_list_none_extends(gp: Seq<Seq<char>>, k: int, m: int)
    requires
        0 <= k <= m <= gp.len(),
        attribute_list_of(gp.subrange(0, k)) is None,
    ensures
        attribute_list_of(gp.subrange(0, m)) is None,
    decreases m - k,
{
    if m > k {
        lemma_list_none_extends(gp, k, m - 1);
        assert(gp.subrange(0, m).drop_last() =~= gp.subrange(0, m - 1));
    }
}

/// Reads one attribute text.
fn parse_attribute(piece: &Vec<char>) -> (r: Option<(Vec<char>, String)>)
    ensures
        match attribute_of(piece@) {
            Some(a) => r is Some && r->Some_0.0@ == a.0 && r->Some_0.1@ == a.1,
            None => r is None,
        },
{
    proof { lemma_first_index_of(piece@, '='); }
    match find_char(piece, '=') {
        None => None,
        Some(i) => {
            if i == 0 {
                return None;
            }
            let n = piece.len();
            assert(i < n);
            let name = slice_chars(piece, 0, i);
            let raw = slice_chars(piece, i + 1, n);
            match decode_segment(&raw) {
                Some(v) => Some((name, v)),
                None => None,
            }
        },
    }
}

/// Reads a URI path.
fn parse_path(path: &Vec<char>) -> (r: Option<Pkcs11Uri>)
    ensures
        match path_of(path@) {
            Some(v) => r is Some && r->Some_0@ == v,
            None => r is None,
        },
{
    let mut uri = Pkcs11Uri { slot_attributes: Vec::new(), object_label: None, query_attributes: Vec::new() };
    assert(uri@.slot =~= Seq::<(Seq<char>, Seq<char>)>::empty());
    assert(uri@.query =~= Seq::<(Seq<char>, Seq<char>)>::empty());
    if path.len() == 0 {
        return Some(uri);
    }
    let pieces = split_chars(path, ';');
    let ghost gp = split_on(path@, ';');
    let object = vec!['o', 'b', 'j', 'e', 'c', 't'];
    assert(object@ == object_attribute_name());
    assert(gp.subrange(0, 0) =~= Seq::<Seq<char>>::empty());
    let mut k: usize = 0;
    while k < pieces.len()
        invariant
            pieces@.len() == gp.len(),
            gp == split_on(path@, ';'),
            path@.len() > 0,
            forall|j: int| 0 <= j < pieces@.len() ==> #[trigger] pieces@[j]@ == gp[j],
            object@ == object_attribute_name(),
            0 <= k <= pieces@.len(),
            attributes_of(gp.subrange(0, k as int)) == Some(uri@),
        decreases pieces.len() - k,
    {
        let piece = &pieces[k];
        proof {
            assert(gp.subrange(0, k as int + 1).drop_last() =~= gp.subrange(0, k as int));
            assert(gp.subrange(0, k as int + 1).last() == piece@);
        }
        match parse_attribute(piece) {
            None => {
                proof {
                    assert(attributes_of(gp.subrange(0, k as int + 1)) is None);
                    lemma_attributes_none_extends(gp, k as int + 1, gp.len() as int);
                    assert(gp.subrange(0, gp.len() as int) =~= gp);
                }
                return None;
            },
            Some((name, value)) => {
                if chars_eq(&name, &object) {
                    uri.object_label = Some(value);
                } else {
                    let attr = Pkcs11Attribute { name: string_of(name.as_slice()), value };
                    let ghost old_slot = uri@.slot;
                    let ghost av = attr@;
                    uri.slot_attributes.push(attr);
                    assert(uri@.slot =~= old_slot.push(av));
                }
            },
        }
        k = k + 1;
    }
    assert(gp.subrange(0, pieces@.len() as int) =~= gp);
    Some(uri)
}

/// Reads a URI query.
fn parse_query(query: &Vec<char>) -> (r: Option<Vec<Pkcs11Attribute>>)
    ensures
        match query_of(query@) {
            Some(v) => r is Some && attrs_view(r->Some_0@) == v,
            None => r is None,
        },
{
    let mut list: Vec<Pkcs11Attribute> = Vec::new();
    assert(attrs_view(list@) =~= Seq::<(Seq<char>, Seq<char>)>::empty());
    if query.len() == 0 {
        return Some(list);
    }
    let pieces = split_chars(query, '&');
    let ghost gp = split_on(query@, '&');
    assert(gp.subrange(0, 0) =~= Seq::<Seq<char>>::empty());
    let mut k: usize = 0;
    while k < pieces.len()
        invariant
            pieces@.len() == gp.len(),
            gp == split_on(query@, '&'),
            query@.len() > 0,
            forall|j: int| 0 <= j < pieces@.len() ==> #[trigger] pieces@[j]@ == gp[j],
            0 <= k <= pieces@.len(),
            attribute_list_of(gp.subrange(0, k as int)) == Some(attrs_view(list@)),
        decreases pieces.len() - k,
    {
        let piece = &pieces[k];
        proof {
            assert(gp.subrange(0, k as int + 1).drop_last() =~= gp.subrange(0, k as int));
            assert(gp.subrange(0, k as int + 1).last() == piece@);
        }
        match parse_attribute(piece) {
            None => {
                proof {
                    assert(attribute_list_of(gp.subrange(0, k as int + 1)) is None);
                    lemma_list_none_extends(gp, k as int + 1, gp.len() as int);
                    assert(gp.subrange(0, gp.len() as int) =~= gp);
                }
                return None;
            },
            Some((name, value)) => {
                let attr = Pkcs11Attribute { name: string_of(name.as_slice()), value };
                let ghost before = list@;
                let ghost av = attr@;
                list.push(attr);
                assert(list@ =~= before.push(attr));
                assert(attrs_view(list@) =~= attrs_view(before).push(av));
            },
        }
        k = k + 1;
    }
    assert(gp.subrange(0, pieces@.len() as int) =~= gp);
    Some(list)
}

impl Pkcs11Uri {
    /// Parses a `pkcs11:` URI; anything else is an invalid parameter.
    pub fn parse(s: &str) -> (r: Result<Pkcs11Uri, KeygenError>)
        ensures
            match parse_pkcs11_uri(s@) {
                Some(v) => r is Ok && r->Ok_0@ == v,
                None => r == Err::<Pkcs11Uri, KeygenError>(KeygenError::InvalidParameter),
            },
    {
        let cs = chars_of(s);
        let prefix = vec!['p', 'k', 'c', 's', '1', '1', ':'];
        assert(prefix@ == scheme_prefix());
        if !starts_with_chars(&cs, &prefix) {
            return Err(KeygenError::InvalidParameter);
        }
        let rest = slice_chars(&cs, 7, cs.len());
        assert(rest@ == s@.subrange(7, s@.len() as int));
        assert(s@.subrange(0, 7) == scheme_prefix());
        let (path, query) = match find_char(&rest, '?') {
            Some(i) => (slice_chars(&rest, 0, i), slice_chars(&rest, i + 1, rest.len())),
            None => (slice_chars(&rest, 0, rest.len()), Vec::new()),
        };
        assert(rest@.subrange(0, rest@.len() as int) =~= rest@);
        assert(query@.len() == 0 ==> query@ =~= Seq::<char>::empty());
        match (parse_path(&path), parse_query(&query)) {
            (Some(u), Some(q)) => Ok(
                Pkcs11Uri { slot_attributes: u.slot_attributes, object_label: u.object_label, query_attributes: q },
            ),
            _ => Err(KeygenError::InvalidParameter),
        }
    }

    /// This URI with its object label replaced.
    pub fn with_object_label(&self, label: String) -> (r: Pkcs11Uri)
        ensures
            r@ == (Pkcs11UriView { slot: self@.slot, object_label: Some(label@), query: self@.query }),
    {
        Pkcs11Uri {
            slot_attributes: clone_attributes(&self.slot_attributes),
            object_label: Some(label),
            query_attributes: clone_attributes(&self.query_attributes),
        }
    }

    /// A copy of this URI.
    pub fn copy(&self) -> (r: Pkcs11Uri)
        ensures
            r@ == self@,
    {
        let label = match &self.object_label {
            Some(l) => Some(l.clone()),
            None => None,
        };
        Pkcs11Uri {
            slot_attributes: clone_attributes(&self.slot_attributes),
            object_label: label,
            query_attributes: clone_attributes(&self.query_attributes),
        }
    }
}

fn clone_attributes(v: &Vec<Pkcs11Attribute>) -> (r: Vec<Pkcs11Attribute>)
    ensures
        r@.map_values(|a: Pkcs11Attribute| a@) == v@.map_values(|a: Pkcs11Attribute| a@),
{
    let mut r: Vec<Pkcs11Attribute> = Vec::new();
    let mut i: usize = 0;
    while i < v.len()
        invariant
            0 <= i <= v@.len(),
            r@.map_values(|a: Pkcs11Attribute| a@) =~= v@.subrange(0, i as int).map_values(|a: Pkcs11Attribute| a@),
        decreases v.len() - i,
    {
        let a = Pkcs11Attribute { name: v[i].name.clone(), value: v[i].value.clone() };
        let ghost before = r@;
        r.push(a);
        assert(r@ =~= before.push(a));
        assert(v@.subrange(0, i as int + 1) =~= v@.subrange(0, i as int).push(v@[i as int]));
        assert(r@.map_values(|a: Pkcs11Attribute| a@) =~= before.map_values(|a: Pkcs11Attribute| a@).push(a@));
        assert(v@.subrange(0, i as int + 1).map_values(|a: Pkcs11Attribute| a@) =~= v@.subrange(0, i as int).map_values(|a: Pkcs11Attribute| a@).push(v@[i as int]@));
        i = i + 1;
    }
    assert(v@.subrange(0, v@.len() as int) =~= v@);
    r
}

} // verus!
