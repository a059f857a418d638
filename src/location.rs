use vstd::prelude::*;
use vstd::utf8::encode_utf8;
use crate::error::{KeygenError, PolicyError};
use crate::pkcs11_uri::{parse_pkcs11_uri, Pkcs11Uri, Pkcs11UriView};
use crate::text::{
    append_chars, chars_are, chars_of, find_char, first_index_of, slice_chars, starts_with_chars,
    string_of,
};

verus! {

/// Where an administrator placed a key ahead of time.
#[derive(Clone, Debug)]
pub enum PreloadedKeyLocation {
    Filesystem { path: String },
    Pkcs11 { uri: Pkcs11Uri },
}

pub enum PreloadedView {
    Filesystem(Seq<char>),
    Pkcs11(Pkcs11UriView),
}

impl View for PreloadedKeyLocation {
    type V = PreloadedView;

    open spec fn view(&self) -> PreloadedView {
        match self {
            PreloadedKeyLocation::Filesystem { path } => PreloadedView::Filesystem(path@),
            PreloadedKeyLocation::Pkcs11 { uri } => PreloadedView::Pkcs11(uri@),
        }
    }
}

/// The local path that a `file:` URL names, if it parses and names one.
pub uninterp spec fn file_path_of(url: Seq<char>) -> Option<Seq<char>>;

/// Relies on `url::Url::parse` and `url::Url::to_file_path`: the local path that
/// a `file:` URL names, when the text parses as a URL and the path is valid UTF-8.
#[verifier::external_body]
fn file_url_to_path(s: &str) -> (r: Option<String>)
    ensures
        match r {
            Some(p) => file_path_of(s@) == Some(p@),
            None => file_path_of(s@) is None,
        },
{
    let url = url::Url::parse(s).ok()?;
    let path = url.to_file_path().ok()?;
    path.into_os_string().into_string().ok()
}

/// A preloaded location written as a `file:` or `pkcs11:` URI.
pub open spec fn parse_preloaded(s: Seq<char>) -> Option<PreloadedView> {
    match first_index_of(s, ':') {
        None => None,
        Some(i) => if s.subrange(0, i) == "file"@ {
            match file_path_of(s) {
                Some(p) => Some(PreloadedView::Filesystem(p)),
                None => None,
            }
        } else if s.subrange(0, i) == "pkcs11"@ {
            match parse_pkcs11_uri(s) {
                Some(u) => Some(PreloadedView::Pkcs11(u)),
                None => None,
            }
        } else {
            None
        },
    }
}

impl PreloadedKeyLocation {
    /// Parses a scheme-prefixed location; a missing or unknown scheme, or a
    /// malformed URI, is an invalid parameter.
    pub fn parse(s: &str) -> (r: Result<PreloadedKeyLocation, KeygenError>)
        ensures
            match parse_preloaded(s@) {
                Some(v) => r is Ok && r->Ok_0@ == v,
                None => r == Err::<PreloadedKeyLocation, KeygenError>(KeygenError::InvalidParameter),
            },
    {
        let cs = chars_of(s);
        match find_char(&cs, ':') {
            None => Err(KeygenError::InvalidParameter),
            Some(i) => {
                let scheme = slice_chars(&cs, 0, i);
                if chars_are(&scheme, "file") {
                    match file_url_to_path(s) {
                        Some(path) => Ok(PreloadedKeyLocation::Filesystem { path }),
                        None => Err(KeygenError::InvalidParameter),
                    }
                } else if chars_are(&scheme, "pkcs11") {
                    match Pkcs11Uri::parse(s) {
                        Ok(uri) => Ok(PreloadedKeyLocation::Pkcs11 { uri }),
                        Err(e) => Err(e),
                    }
                } else {
                    Err(KeygenError::InvalidParameter)
                }
            },
        }
    }

    /// A copy of this location.
    pub fn copy(&self) -> (r: PreloadedKeyLocation)
        ensures
            r@ == self@,
    {
        match self {
            PreloadedKeyLocation::Filesystem { path } => PreloadedKeyLocation::Filesystem { path: path.clone() },
            PreloadedKeyLocation::Pkcs11 { uri } => PreloadedKeyLocation::Pkcs11 { uri: uri.copy() },
        }
    }
}

/// The physical backend that serves one key.
#[derive(Clone, Debug)]
pub enum Location {
    Filesystem(String),
    Pkcs11 { lib_path: String, uri: Pkcs11Uri },
}

pub enum LocationView {
    Filesystem(Seq<char>),
    Pkcs11 { lib_path: Seq<char>, uri: Pkcs11UriView },
}

impl View for Location {
    type V = LocationView;

    open spec fn view(&self) -> LocationView {
        match self {
            Location::Filesystem(p) => LocationView::Filesystem(p@),
            Location::Pkcs11 { lib_path, uri } => LocationView::Pkcs11 { lib_path: lib_path@, uri: uri@ },
        }
    }
}

/// The SHA-256 digest of the given bytes.
pub uninterp spec fn sha256_of(data: Seq<u8>) -> Seq<u8>;

/// Relies on `openssl::sha::sha256`: the 32-byte SHA-256 digest of its input.
#[verifier::external_body]
fn sha256(data: &[u8]) -> (r: Vec<u8>)
    ensures
        r@ == sha256_of(data@),
        r@.len() == 32,
{
    openssl::sha::sha256(data).to_vec()
}

pub open spec fn hex_digit(n: int) -> char {
    seq!['0', '1', '2', '3', '4', '5', '6', '7', '8', '9', 'a', 'b', 'c', 'd', 'e', 'f'][n]
}

/// Lower-case hexadecimal text, two digits per byte, high nibble first.
pub open spec fn hex_text(b: Seq<u8>) -> Seq<char>
    decreases b.len(),
{
    if b.len() == 0 {
        Seq::empty()
    } else {
        hex_text(b.drop_last()) + seq![hex_digit(b.last() as int / 16), hex_digit(b.last() as int % 16)]
    }
}

/// Relies on `hex::encode`: two lower-case hexadecimal digits per byte, in order.
#[verifier::external_body]
pub(crate) fn hex_encode(b: &[u8]) -> (r: String)
    ensures
        r@ == hex_text(b@),
{
    hex::encode(b)
}

/// `name` under the directory `dir`, joined with one `/` as a path push does.
pub open spec fn join_path(dir: Seq<char>, name: Seq<char>) -> Seq<char> {
    if dir.len() == 0 || dir.last() == '/' {
        dir + name
    } else {
        dir + seq!['/'] + name
    }
}

/// The file that holds key `id` under a home directory: the hex SHA-256 of the id
/// with a `.key` suffix, so that no caller-chosen text becomes a file name.
pub open spec fn key_file_path(home: Seq<char>, id: Seq<char>) -> Seq<char> {
    join_path(home, hex_text(sha256_of(encode_utf8(id))) + ".key"@)
}

/// The configuration that location resolution reads.
pub struct KeyStoreConfig {
    pub homedir_path: Option<String>,
    pub pkcs11_lib_path: Option<String>,
    pub pkcs11_base_slot: Option<Pkcs11Uri>,
    /// Preloaded entries in the order they were set; a later entry for an id
    /// overrides an earlier one.
    pub preloaded_keys: Vec<(String, PreloadedKeyLocation)>,
}

pub struct KeyStoreConfigView {
    pub homedir_path: Option<Seq<char>>,
    pub pkcs11_lib_path: Option<Seq<char>>,
    pub pkcs11_base_slot: Option<Pkcs11UriView>,
    pub preloaded_keys: Seq<(Seq<char>, PreloadedView)>,
}

pub open spec fn opt_text(o: Option<String>) -> Option<Seq<char>> {
    match o {
        Some(s) => Some(s@),
        None => None,
    }
}

impl View for KeyStoreConfig {
    type V = KeyStoreConfigView;

    open spec fn view(&self) -> KeyStoreConfigView {
        KeyStoreConfigView {
            homedir_path: opt_text(self.homedir_path),
            pkcs11_lib_path: opt_text(self.pkcs11_lib_path),
            pkcs11_base_slot: match self.pkcs11_base_slot {
                Some(u) => Some(u@),
                None => None,
            },
            preloaded_keys: self.preloaded_keys@.map_values(
                |e: (String, PreloadedKeyLocation)| (e.0@, e.1@),
            ),
        }
    }
}

/// The location most recently preloaded for `id`.
pub open spec fn lookup_preloaded(entries: Seq<(Seq<char>, PreloadedView)>, id: Seq<char>) -> Option<
    PreloadedView,
>
    decreases entries.len(),
{
    if entries.len() == 0 {
        None
    } else if entries.last().0 == id {
        Some(entries.last().1)
    } else {
        lookup_preloaded(entries.drop_last(), id)
    }
}

/// Where key `id` lives under configuration `c`, first match winning: a preloaded
/// file; a preloaded PKCS#11 object, given a PKCS#11 library; a per-id object in
/// the base slot, given a PKCS#11 library and base slot; a per-id file under the
/// home directory.
pub open spec fn resolve(c: KeyStoreConfigView, id: Seq<char>) -> Result<LocationView, KeygenError> {
    match lookup_preloaded(c.preloaded_keys, id) {
        Some(PreloadedView::Filesystem(path)) => Ok(LocationView::Filesystem(path)),
        Some(PreloadedView::Pkcs11(uri)) => match c.pkcs11_lib_path {
            Some(lib_path) => Ok(LocationView::Pkcs11 { lib_path, uri }),
            None => Err(KeygenError::Policy(PolicyError::Pkcs11ParametersRequired)),
        },
        None => if c.pkcs11_lib_path is Some && c.pkcs11_base_slot is Some {
            Ok(
                LocationView::Pkcs11 {
                    lib_path: c.pkcs11_lib_path->Some_0,
                    uri: Pkcs11UriView {
                        slot: c.pkcs11_base_slot->Some_0.slot,
                        object_label: Some(id),
                        query: c.pkcs11_base_slot->Some_0.query,
                    },
                },
            )
        } else {
            match c.homedir_path {
                Some(home) => Ok(LocationView::Filesystem(key_file_path(home, id))),
                None => Err(KeygenError::Policy(PolicyError::NoWayToCreateKeys)),
            }
        },
    }
}

pub open spec fn resolved(r: Result<Location, KeygenError>) -> Result<LocationView, KeygenError> {
    match r {
        Ok(l) => Ok(l@),
        Err(e) => Err(e),
    }
}

impl KeyStoreConfig {
    /// A configuration with nothing set.
    pub fn new() -> (r: KeyStoreConfig)
        ensures
            r@.homedir_path is None,
            r@.pkcs11_lib_path is None,
            r@.pkcs11_base_slot is None,
            r@.preloaded_keys.len() == 0,
    {
        KeyStoreConfig {
            homedir_path: None,
            pkcs11_lib_path: None,
            pkcs11_base_slot: None,
            preloaded_keys: Vec::new(),
        }
    }

    /// The location most recently preloaded for `id`.
    pub fn preloaded(&self, id: &str) -> (r: Option<&PreloadedKeyLocation>)
        ensures
            match r {
                Some(l) => lookup_preloaded(self@.preloaded_keys, id@) == Some(l@),
                None => lookup_preloaded(self@.preloaded_keys, id@) is None,
            },
    {
        let ghost entries = self@.preloaded_keys;
        let mut i: usize = self.preloaded_keys.len();
        assert(entries.subrange(0, i as int) =~= entries);
        while i > 0
            invariant
                0 <= i <= self.preloaded_keys@.len(),
                entries == self@.preloaded_keys,
                lookup_preloaded(entries.subrange(0, i as int), id@) == lookup_preloaded(entries, id@),
            decreases i,
        {
            let entry = &self.preloaded_keys[i - 1];
            proof {
                assert(entries.subrange(0, i as int).drop_last() =~= entries.subrange(0, i - 1));
                assert(entries.subrange(0, i as int).last() == (entry.0@, entry.1@));
            }
            if entry.0 == id.to_owned() {
                return Some(&entry.1);
            }
            i = i - 1;
        }
        None
    }
}

impl Location {
    /// Resolves key `id` to its backend location under configuration `config`.
    /// The result is computed afresh on every call.
    pub fn of(config: &KeyStoreConfig, id: &str) -> (r: Result<Location, KeygenError>)
        ensures
            resolved(r) == resolve(config@, id@),
    {
        match config.preloaded(id) {
            Some(PreloadedKeyLocation::Filesystem { path }) => Ok(Location::Filesystem(path.clone())),
            Some(PreloadedKeyLocation::Pkcs11 { uri }) => match &config.pkcs11_lib_path {
                Some(lib_path) => Ok(Location::Pkcs11 { lib_path: lib_path.clone(), uri: uri.copy() }),
                None => Err(KeygenError::Policy(PolicyError::Pkcs11ParametersRequired)),
            },
            None => match (&config.pkcs11_lib_path, &config.pkcs11_base_slot, &config.homedir_path) {
                (Some(lib_path), Some(base_slot), _) => {
                    let uri = base_slot.with_object_label(id.to_owned());
                    Ok(Location::Pkcs11 { lib_path: lib_path.clone(), uri })
                },
                (_, _, Some(home)) => Ok(Location::Filesystem(key_file_path_of(home, id))),
                (_, _, None) => Err(KeygenError::Policy(PolicyError::NoWayToCreateKeys)),
            },
        }
    }
}

fn key_file_path_of(home: &String, id: &str) -> (r: String)
    ensures
        r@ == key_file_path(home@, id@),
{
    let digest = sha256(id.as_bytes());
    key_file_for_digest(home.as_str(), digest.as_slice())
}

/// The file under `home` named by the hex text of `digest` with a `.key` suffix.
pub fn key_file_for_digest(home: &str, digest: &[u8]) -> (r: String)
    ensures
        r@ == join_path(home@, hex_text(digest@) + ".key"@),
{
    let name = hex_encode(digest);
    let mut path = chars_of(home);
    if path.len() > 0 && path[path.len() - 1] != '/' {
        path.push('/');
    }
    append_chars(&mut path, &chars_of(name.as_str()));
    append_chars(&mut path, &chars_of(".key"));
    string_of(path.as_slice())
}

} // verus!

verus! {

/// The prefix of the setter's parameter names that preload a key, followed by the key's id.
pub open spec fn preloaded_key_prefix() -> Seq<char> {
    "PRELOADED_KEY:"@
}

pub open spec fn has_prefix(s: Seq<char>, p: Seq<char>) -> bool {
    p.len() <= s.len() && s.subrange(0, p.len() as int) == p
}

/// The configuration after setting parameter `name` to `value` (`None` standing
/// for an absent value), or why the call is refused.
pub open spec fn set_parameter_spec(
    c: KeyStoreConfigView,
    name: Seq<char>,
    value: Option<Seq<char>>,
) -> Result<KeyStoreConfigView, KeygenError> {
    if name == "HOMEDIR_PATH"@ {
        match value {
            None => Err(KeygenError::InvalidParameter),
            Some(v) => Ok(
                KeyStoreConfigView {
                    homedir_path: Some(v),
                    pkcs11_lib_path: c.pkcs11_lib_path,
                    pkcs11_base_slot: c.pkcs11_base_slot,
                    preloaded_keys: c.preloaded_keys,
                },
            ),
        }
    } else if name == "PKCS11_LIB_PATH"@ {
        match value {
            None => Err(KeygenError::InvalidParameter),
            Some(v) => Ok(
                KeyStoreConfigView {
                    homedir_path: c.homedir_path,
                    pkcs11_lib_path: Some(v),
                    pkcs11_base_slot: c.pkcs11_base_slot,
                    preloaded_keys: c.preloaded_keys,
                },
            ),
        }
    } else if name == "PKCS11_BASE_SLOT"@ {
        match value {
            None => Err(KeygenError::InvalidParameter),
            Some(v) => match parse_pkcs11_uri(v) {
                None => Err(KeygenError::InvalidParameter),
                Some(u) => Ok(
                    KeyStoreConfigView {
                        homedir_path: c.homedir_path,
                        pkcs11_lib_path: c.pkcs11_lib_path,
                        pkcs11_base_slot: Some(u),
                        preloaded_keys: c.preloaded_keys,
                    },
                ),
            },
        }
    } else if has_prefix(name, preloaded_key_prefix()) {
        let id = name.subrange(preloaded_key_prefix().len() as int, name.len() as int);
        if id.len() == 0 {
            Err(KeygenError::InvalidParameter)
        } else {
            match value {
                None => Err(KeygenError::InvalidParameter),
                Some(v) => match parse_preloaded(v) {
                    None => Err(KeygenError::InvalidParameter),
                    Some(l) => Ok(
                        KeyStoreConfigView {
                            homedir_path: c.homedir_path,
                            pkcs11_lib_path: c.pkcs11_lib_path,
                            pkcs11_base_slot: c.pkcs11_base_slot,
                            preloaded_keys: c.preloaded_keys.push((id, l)),
                        },
                    ),
                },
            }
        }
    } else {
        Err(KeygenError::InvalidParameter)
    }
}

pub open spec fn opt_str(v: Option<&str>) -> Option<Seq<char>> {
    match v {
        Some(s) => Some(s@),
        None => None,
    }
}

impl KeyStoreConfig {
    /// Sets one named parameter: the home directory, the PKCS#11 library path,
    /// the PKCS#11 base slot, or `PRELOADED_KEY:<id>`. On failure the
    /// configuration is left as it was.
    pub fn set_parameter(&mut self, name: &str, value: Option<&str>) -> (r: Result<(), KeygenError>)
        ensures
            match set_parameter_spec(old(self)@, name@, opt_str(value)) {
                Ok(c) => r is Ok && final(self)@ == c,
                Err(e) => r == Err::<(), KeygenError>(e) && final(self)@ == old(self)@,
            },
    {
        let n = chars_of(name);
        if chars_are(&n, "HOMEDIR_PATH") {
            match value {
                None => Err(KeygenError::InvalidParameter),
                Some(v) => {
                    self.homedir_path = Some(v.to_owned());
                    Ok(())
                },
            }
        } else if chars_are(&n, "PKCS11_LIB_PATH") {
            match value {
                None => Err(KeygenError::InvalidParameter),
                Some(v) => {
                    self.pkcs11_lib_path = Some(v.to_owned());
                    Ok(())
                },
            }
        } else if chars_are(&n, "PKCS11_BASE_SLOT") {
            match value {
                None => Err(KeygenError::InvalidParameter),
                Some(v) => match Pkcs11Uri::parse(v) {
                    Err(e) => Err(e),
                    Ok(u) => {
                        self.pkcs11_base_slot = Some(u);
                        Ok(())
                    },
                },
            }
        } else {
            let prefix = chars_of("PRELOADED_KEY:");
            if !starts_with_chars(&n, &prefix) {
                return Err(KeygenError::InvalidParameter);
            }
            let id = slice_chars(&n, prefix.len(), n.len());
            if id.len() == 0 {
                return Err(KeygenError::InvalidParameter);
            }
            match value {
                None => Err(KeygenError::InvalidParameter),
                Some(v) => match PreloadedKeyLocation::parse(v) {
                    Err(e) => Err(e),
                    Ok(l) => {
                        let entry = (string_of(id.as_slice()), l);
                        let ghost before = self.preloaded_keys@;
                        self.preloaded_keys.push(entry);
                        proof {
                            assert(self.preloaded_keys@ =~= before.push(entry));
                            assert(self@.preloaded_keys =~= old(self)@.preloaded_keys.push((id@, l@)));
                        }
                        Ok(())
                    },
                },
            }
        }
    }
}

/// A key preloaded as a file resolves to that file, whatever PKCS#11 or home
/// directory is configured.
pub proof fn preloaded_file_takes_precedence(c: KeyStoreConfigView, id: Seq<char>, path: Seq<char>)
    requires
        lookup_preloaded(c.preloaded_keys, id) == Some(PreloadedView::Filesystem(path)),
    ensures
        resolve(c, id) == Ok::<LocationView, KeygenError>(LocationView::Filesystem(path)),
{
}

/// With no preloaded entry, a PKCS#11 library and base slot, and no home
/// directory, a key resolves to the base slot with the key id as object label.
pub proof fn pkcs11_slot_serves_unlisted_keys(c: KeyStoreConfigView, id: Seq<char>)
    requires
        lookup_preloaded(c.preloaded_keys, id) is None,
        c.pkcs11_lib_path is Some,
        c.pkcs11_base_slot is Some,
        c.homedir_path is None,
    ensures
        resolve(c, id) == Ok::<LocationView, KeygenError>(
            LocationView::Pkcs11 {
                lib_path: c.pkcs11_lib_path->Some_0,
                uri: Pkcs11UriView {
                    slot: c.pkcs11_base_slot->Some_0.slot,
                    object_label: Some(id),
                    query: c.pkcs11_base_slot->Some_0.query,
                },
            },
        ),
{
}

/// With no preloaded entry, no PKCS#11 configuration and no home directory,
/// resolution fails: there is no way to create keys.
pub proof fn unconfigured_store_refuses(c: KeyStoreConfigView, id: Seq<char>)
    requires
        lookup_preloaded(c.preloaded_keys, id) is None,
        c.pkcs11_lib_path is None,
        c.pkcs11_base_slot is None,
        c.homedir_path is None,
    ensures
        resolve(c, id) == Err::<LocationView, KeygenError>(KeygenError::Policy(PolicyError::NoWayToCreateKeys)),
{
}

} // verus!
