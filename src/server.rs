use vstd::prelude::*;
use crate::client::Method;
use crate::error::KeygenError;
use crate::location::has_prefix;
use crate::text::{chars_are, chars_of, decode_segment, find_char, first_index_of, segment_text, slice_chars, starts_with_chars};

verus! {

/// The operations the key service answers.
#[derive(Clone, Copy, Debug, PartialEq, Eq, Structural)]
pub enum Endpoint {
    CreateKeyPair,
    LoadKeyPair,
    GetKeyPairPublicParameter,
    CreateKey,
    Sign,
    Encrypt,
    Decrypt,
}

/// The handlers in the order they are tried.
pub open spec fn route_order() -> Seq<Endpoint> {
    seq![
        Endpoint::CreateKeyPair,
        Endpoint::LoadKeyPair,
        Endpoint::GetKeyPairPublicParameter,
        Endpoint::CreateKey,
        Endpoint::Sign,
        Endpoint::Encrypt,
        Endpoint::Decrypt,
    ]
}

/// The one path segment after `prefix`: nonempty and without `/`.
pub open spec fn segment_after(path: Seq<char>, prefix: Seq<char>) -> Option<Seq<char>> {
    if has_prefix(path, prefix) {
        let seg = path.subrange(prefix.len() as int, path.len() as int);
        if seg.len() > 0 && first_index_of(seg, '/') is None {
            Some(seg)
        } else {
            None
        }
    } else {
        None
    }
}

/// Whether the handler of `e` claims `path`, and the path segment it captures.
pub open spec fn claim(e: Endpoint, path: Seq<char>) -> Option<Option<Seq<char>>> {
    let exact = |p: Seq<char>| if path == p { Some(None::<Seq<char>>) } else { None };
    match e {
        Endpoint::CreateKeyPair => exact("/keypair"@),
        Endpoint::LoadKeyPair => match segment_after(path, "/keypair/"@) {
            Some(s) => Some(Some(s)),
            None => None,
        },
        Endpoint::GetKeyPairPublicParameter => match segment_after(path, "/parameters/"@) {
            Some(s) => Some(Some(s)),
            None => None,
        },
        Endpoint::CreateKey => exact("/key"@),
        Endpoint::Sign => exact("/sign"@),
        Endpoint::Encrypt => exact("/encrypt"@),
        Endpoint::Decrypt => exact("/decrypt"@),
    }
}

/// The first handler in `rs` that claims `path`, with its capture.
pub open spec fn first_claim(rs: Seq<Endpoint>, path: Seq<char>) -> Option<(Endpoint, Option<Seq<char>>)>
    decreases rs.len(),
{
    if rs.len() == 0 {
        None
    } else {
        match claim(rs[0], path) {
            Some(c) => Some((rs[0], c)),
            None => first_claim(rs.drop_first(), path),
        }
    }
}

/// The method each endpoint accepts.
pub open spec fn endpoint_method(e: Endpoint) -> Method {
    match e {
        Endpoint::LoadKeyPair => Method::Get,
        _ => Method::Post,
    }
}

/// Whether requests to the endpoint carry a JSON body.
pub open spec fn takes_body(e: Endpoint) -> bool {
    !(e is LoadKeyPair)
}

/// Why a request is answered without reaching the engine.
#[derive(Clone, Copy, Debug, PartialEq, Eq, Structural)]
pub enum Rejection {
    /// No handler claims the path.
    NotFound,
    /// The captured path segment does not decode.
    BadPath,
    /// The endpoint accepts only the given method.
    MethodNotAllowed(Method),
    /// The body is not declared as JSON.
    UnsupportedMediaType,
}

impl Rejection {
    /// The HTTP status of this rejection.
    pub fn status(&self) -> (r: u16)
        ensures
            r == match *self {
                Rejection::NotFound => 404u16,
                Rejection::BadPath => 400u16,
                Rejection::MethodNotAllowed(_) => 405u16,
                Rejection::UnsupportedMediaType => 415u16,
            },
    {
        match self {
            Rejection::NotFound => 404,
            Rejection::BadPath => 400,
            Rejection::MethodNotAllowed(_) => 405,
            Rejection::UnsupportedMediaType => 415,
        }
    }
}

/// Where a request goes: to an endpoint, with its decoded path segment, or
/// straight back with a rejection.
pub enum Routing {
    Dispatch { endpoint: Endpoint, segment: Option<String> },
    Reject(Rejection),
}

pub enum RoutingView {
    Dispatch { endpoint: Endpoint, segment: Option<Seq<char>> },
    Reject(Rejection),
}

impl View for Routing {
    type V = RoutingView;

    open spec fn view(&self) -> RoutingView {
        match self {
            Routing::Dispatch { endpoint, segment } => RoutingView::Dispatch {
                endpoint: *endpoint,
                segment: match segment {
                    Some(s) => Some(s@),
                    None => None,
                },
            },
            Routing::Reject(r) => RoutingView::Reject(*r),
        }
    }
}

/// The routing of a request: the first handler that claims the path decodes its
/// segment, then checks the method, then, for a request with a body, that the
/// body is JSON; a path that no handler claims is not found.
pub open spec fn routing_of(method: Method, path: Seq<char>, content_type: Option<Seq<char>>) -> RoutingView {
    match first_claim(route_order(), path) {
        None => RoutingView::Reject(Rejection::NotFound),
        Some(c) => {
            let e = c.0;
            let seg = match c.1 {
                Some(s) => match segment_text(s) {
                    Some(t) => Some(Some(t)),
                    None => None,
                },
                None => Some(None),
            };
            if seg is None {
                RoutingView::Reject(Rejection::BadPath)
            } else if method != endpoint_method(e) {
                RoutingView::Reject(Rejection::MethodNotAllowed(endpoint_method(e)))
            } else if takes_body(e) && content_type != Some("application/json"@) {
                RoutingView::Reject(Rejection::UnsupportedMediaType)
            } else {
                RoutingView::Dispatch { endpoint: e, segment: seg->Some_0 }
            }
        },
    }
}

fn exact_claim(path: &Vec<char>, p: &str) -> (r: Option<Option<Vec<char>>>)
    ensures
        match r {
            Some(c) => path@ == p@ && c is None,
            None => path@ != p@,
        },
{
    if chars_are(path, p) {
        Some(None)
    } else {
        None
    }
}

fn segment_claim(path: &Vec<char>, prefix: &str) -> (r: Option<Option<Vec<char>>>)
    ensures
        match segment_after(path@, prefix@) {
            Some(s) => r is Some && r->Some_0 is Some && r->Some_0->Some_0@ == s,
            None => r is None,
        },
{
    let p = chars_of(prefix);
    if !starts_with_chars(path, &p) {
        return None;
    }
    let seg = slice_chars(path, p.len(), path.len());
    if seg.len() == 0 {
        return None;
    }
    match find_char(&seg, '/') {
        Some(_) => None,
        None => Some(Some(seg)),
    }
}

fn claim_of(e: Endpoint, path: &Vec<char>) -> (r: Option<Option<Vec<char>>>)
    ensures
        match claim(e, path@) {
            Some(c) => r is Some && match c {
                Some(s) => r->Some_0 is Some && r->Some_0->Some_0@ == s,
                None => r->Some_0 is None,
            },
            None => r is None,
        },
{
    match e {
        Endpoint::CreateKeyPair => exact_claim(path, "/keypair"),
        Endpoint::LoadKeyPair => segment_claim(path, "/keypair/"),
        Endpoint::GetKeyPairPublicParameter => segment_claim(path, "/parameters/"),
        Endpoint::CreateKey => exact_claim(path, "/key"),
        Endpoint::Sign => exact_claim(path, "/sign"),
        Endpoint::Encrypt => exact_claim(path, "/encrypt"),
        Endpoint::Decrypt => exact_claim(path, "/decrypt"),
    }
}

/// Routes a request by its method, path and declared content type.
pub fn route(method: Method, path: &str, content_type: Option<&str>) -> (r: Routing)
    ensures
        r@ == routing_of(method, path@, match content_type {
            Some(c) => Some(c@),
            None => None,
        }),
{
    let p = chars_of(path);
    let order = vec![
        Endpoint::CreateKeyPair,
        Endpoint::LoadKeyPair,
        Endpoint::GetKeyPairPublicParameter,
        Endpoint::CreateKey,
        Endpoint::Sign,
        Endpoint::Encrypt,
        Endpoint::Decrypt,
    ];
    assert(order@ == route_order());
    let mut i: usize = 0;
    assert(order@.subrange(0, 7) =~= order@);
    while i < order.len()
        invariant
            order@ == route_order(),
            p@ == path@,
            0 <= i <= order@.len(),
            first_claim(order@.subrange(i as int, order@.len() as int), p@) == first_claim(route_order(), p@),
        decreases order.len() - i,
    {
        let e = order[i];
        proof {
            let rest = order@.subrange(i as int, order@.len() as int);
            assert(rest[0] == e);
            assert(rest.drop_first() =~= order@.subrange(i as int + 1, order@.len() as int));
        }
        match claim_of(e, &p) {
            None => {},
            Some(capture) => {
                proof {
                    let rest = order@.subrange(i as int, order@.len() as int);
                    assert(first_claim(rest, p@) == Some((e, claim(e, p@)->Some_0)));
                }
                let segment = match capture {
                    Some(seg) => match decode_segment(&seg) {
                        Some(t) => Some(t),
                        None => {
                            return Routing::Reject(Rejection::BadPath);
                        },
                    },
                    None => None,
                };
                let wanted = match e {
                    Endpoint::LoadKeyPair => Method::Get,
                    _ => Method::Post,
                };
                if method != wanted {
                    return Routing::Reject(Rejection::MethodNotAllowed(wanted));
                }
                if e != Endpoint::LoadKeyPair {
                    let json = match content_type {
                        Some(c) => chars_are(&chars_of(c), "application/json"),
                        None => false,
                    };
                    if !json {
                        return Routing::Reject(Rejection::UnsupportedMediaType);
                    }
                }
                return Routing::Dispatch { endpoint: e, segment };
            },
        }
        i = i + 1;
    }
    Routing::Reject(Rejection::NotFound)
}

proof fn lemma_unclaimed(rs: Seq<Endpoint>, path: Seq<char>)
    requires
        forall|i: int| 0 <= i < rs.len() ==> claim(#[trigger] rs[i], path) is None,
    ensures
        first_claim(rs, path) is None,
    decreases rs.len(),
{
    if rs.len() > 0 {
        assert(claim(rs[0], path) is None);
        assert forall|i: int| 0 <= i < rs.drop_first().len() implies claim(#[trigger] rs.drop_first()[i], path) is None by {
            assert(rs.drop_first()[i] == rs[i + 1]);
        }
        lemma_unclaimed(rs.drop_first(), path);
    }
}

/// A request that no handler claims passes every handler and is answered
/// "not found", whatever its method and content type.
pub proof fn unclaimed_path_is_not_found(method: Method, path: Seq<char>, content_type: Option<Seq<char>>)
    requires
        forall|e: Endpoint| claim(e, path) is None,
    ensures
        routing_of(method, path, content_type) == RoutingView::Reject(Rejection::NotFound),
{
    lemma_unclaimed(route_order(), path);
}

/// The HTTP status that reports an engine failure: a missing key is not found,
/// the caller's other faults are bad requests, backend faults are internal errors.
pub open spec fn error_status(e: KeygenError) -> u16 {
    match e {
        KeygenError::External => 500,
        KeygenError::NotFound => 404,
        _ => 400,
    }
}

/// Maps an engine failure to the status of its error response.
pub fn status_of(e: KeygenError) -> (r: u16)
    ensures
        r == error_status(e),
{
    match e {
        KeygenError::External => 500,
        KeygenError::NotFound => 404,
        _ => 400,
    }
}

} // verus!
