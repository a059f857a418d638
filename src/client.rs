use vstd::prelude::*;
use vstd::string::StringSliceAdditionalSpecFns;
use vstd::utf8::valid_utf8;

verus! {

/// The request methods the protocol uses.
#[derive(Clone, Copy, Debug, PartialEq, Eq, Structural)]
pub enum Method {
    Get,
    Post,
    Delete,
}

pub open spec fn method_text(m: Method) -> Seq<u8> {
    match m {
        Method::Get => "GET".spec_bytes(),
        Method::Post => "POST".spec_bytes(),
        Method::Delete => "DELETE".spec_bytes(),
    }
}

pub open spec fn digit_byte(d: nat) -> u8 {
    (48 + d) as u8
}

/// The decimal digits of `n`, most significant first, without leading zeros.
pub open spec fn decimal(n: nat) -> Seq<u8>
    decreases n,
{
    if n < 10 {
        seq![digit_byte(n)]
    } else {
        decimal(n / 10).push(digit_byte(n % 10))
    }
}

/// The decimal text of `n`.
pub fn decimal_of(n: usize) -> (r: Vec<u8>)
    ensures
        r@ == decimal(n as nat),
    decreases n,
{
    if n < 10 {
        vec![(48 + n) as u8]
    } else {
        let mut r = decimal_of(n / 10);
        r.push((48 + n % 10) as u8);
        r
    }
}

fn append_bytes(a: &mut Vec<u8>, b: &[u8])
    ensures
        final(a)@ == old(a)@ + b@,
{
    let mut i: usize = 0;
    while i < b.len()
        invariant
            0 <= i <= b@.len(),
            a@ == old(a)@ + b@.subrange(0, i as int),
        decreases b.len() - i,
    {
        a.push(b[i]);
        assert(b@.subrange(0, i as int + 1) =~= b@.subrange(0, i as int).push(b@[i as int]));
        i = i + 1;
    }
    assert(b@.subrange(0, b@.len() as int) =~= b@);
}

/// The bytes of a request: the request line, then, with a JSON body, its length,
/// its type and `connection: close`, then the body; without one, only
/// `connection: close`.
pub open spec fn request_bytes(m: Method, uri: Seq<u8>, body: Option<Seq<u8>>) -> Seq<u8> {
    let line = method_text(m) + " ".spec_bytes() + uri + " HTTP/1.1\r\n".spec_bytes();
    match body {
        Some(b) => line + "content-length: ".spec_bytes() + decimal(b.len()) + "\r\ncontent-type: application/json\r\nconnection: close\r\n\r\n".spec_bytes() + b,
        None => line + "connection: close\r\n\r\n".spec_bytes(),
    }
}

pub open spec fn opt_bytes(body: Option<&str>) -> Option<Seq<u8>> {
    match body {
        Some(b) => Some(b.spec_bytes()),
        None => None,
    }
}

/// Frames a single, non-persistent request for `uri` with an optional JSON body.
pub fn encode_request(method: Method, uri: &str, body: Option<&str>) -> (r: Vec<u8>)
    ensures
        r@ == request_bytes(method, uri.spec_bytes(), opt_bytes(body)),
{
    let mut out: Vec<u8> = Vec::new();
    let m = match method {
        Method::Get => "GET",
        Method::Post => "POST",
        Method::Delete => "DELETE",
    };
    append_bytes(&mut out, m.as_bytes());
    append_bytes(&mut out, " ".as_bytes());
    append_bytes(&mut out, uri.as_bytes());
    append_bytes(&mut out, " HTTP/1.1\r\n".as_bytes());
    match body {
        Some(b) => {
            let bytes = b.as_bytes();
            append_bytes(&mut out, "content-length: ".as_bytes());
            let n = decimal_of(bytes.len());
            append_bytes(&mut out, n.as_slice());
            append_bytes(&mut out, "\r\ncontent-type: application/json\r\nconnection: close\r\n\r\n".as_bytes());
            append_bytes(&mut out, bytes);
        },
        None => {
            append_bytes(&mut out, "connection: close\r\n\r\n".as_bytes());
        },
    }
    out
}

/// Why a response could not be used.
#[derive(Clone, Copy, Debug, PartialEq, Eq, Structural)]
pub enum ResponseError {
    /// The stream ended before the response did.
    UnexpectedEof,
    /// The response is not a well-formed JSON response of this protocol.
    Malformed,
}

/// The head of a response: where its body starts, its status code, and its
/// headers as name and value bytes.
pub struct ResponseHead {
    pub body_start: usize,
    pub code: Option<u16>,
    pub headers: Vec<(Vec<u8>, Vec<u8>)>,
}

pub struct ResponseHeadView {
    pub body_start: nat,
    pub code: Option<u16>,
    pub headers: Seq<(Seq<u8>, Seq<u8>)>,
}

impl View for ResponseHead {
    type V = ResponseHeadView;

    open spec fn view(&self) -> ResponseHeadView {
        ResponseHeadView {
            body_start: self.body_start as nat,
            code: self.code,
            headers: self.headers@.map_values(|h: (Vec<u8>, Vec<u8>)| (h.0@, h.1@)),
        }
    }
}

/// How far a response parses.
pub enum HeadParse {
    Complete(ResponseHead),
    Partial,
    Invalid,
}

pub enum HeadParseView {
    Complete(ResponseHeadView),
    Partial,
    Invalid,
}

/// What `httparse` makes of `buf` with room for `max_headers` headers.
pub uninterp spec fn response_head_of(buf: Seq<u8>, max_headers: nat) -> HeadParseView;

/// Relies on `httparse::Response::parse`: a complete head ends within the buffer
/// and has at most as many headers as there was room for.
#[verifier::external_body]
fn parse_head(buf: &[u8], max_headers: usize) -> (r: HeadParse)
    ensures
        match r {
            HeadParse::Complete(h) => response_head_of(buf@, max_headers as nat) == HeadParseView::Complete(h@)
                && h.body_start <= buf@.len() && h.headers@.len() <= max_headers,
            HeadParse::Partial => response_head_of(buf@, max_headers as nat) == HeadParseView::Partial,
            HeadParse::Invalid => response_head_of(buf@, max_headers as nat) == HeadParseView::Invalid,
        },
{
    let mut headers = vec![httparse::EMPTY_HEADER; max_headers];
    let mut res = httparse::Response::new(&mut headers);
    match res.parse(buf) {
        Ok(httparse::Status::Complete(body_start)) => HeadParse::Complete(ResponseHead {
            body_start,
            code: res.code,
            headers: res.headers.iter().map(|h| (h.name.as_bytes().to_vec(), h.value.to_vec())).collect(),
        }),
        Ok(httparse::Status::Partial) => HeadParse::Partial,
        Err(_) => HeadParse::Invalid,
    }
}

/// Relies on `std::str::from_utf8`: whether the bytes are valid UTF-8.
#[verifier::external_body]
fn is_utf8(b: &[u8]) -> (r: bool)
    ensures
        r == valid_utf8(b@),
{
    std::str::from_utf8(b).is_ok()
}

pub open spec fn lower_byte(b: u8) -> u8 {
    if 65 <= b <= 90 {
        (b + 32) as u8
    } else {
        b
    }
}

/// Equality of two byte strings, ignoring ASCII case.
pub open spec fn eq_ignore_ascii_case(a: Seq<u8>, b: Seq<u8>) -> bool {
    a.len() == b.len() && forall|i: int| 0 <= i < a.len() ==> lower_byte(#[trigger] a[i]) == lower_byte(b[i])
}

fn bytes_eq_ignore_ascii_case(a: &[u8], b: &[u8]) -> (r: bool)
    ensures
        r == eq_ignore_ascii_case(a@, b@),
{
    if a.len() != b.len() {
        return false;
    }
    let mut i: usize = 0;
    while i < a.len()
        invariant
            a@.len() == b@.len(),
            0 <= i <= a@.len(),
            forall|j: int| 0 <= j < i ==> lower_byte(#[trigger] a@[j]) == lower_byte(b@[j]),
        decreases a.len() - i,
    {
        let x = if 65 <= a[i] && a[i] <= 90 { a[i] + 32 } else { a[i] };
        let y = if 65 <= b[i] && b[i] <= 90 { b[i] + 32 } else { b[i] };
        if x != y {
            return false;
        }
        i = i + 1;
    }
    true
}

pub open spec fn is_digit(b: u8) -> bool {
    48 <= b <= 57
}

/// The value of decimal digits.
pub open spec fn digits_value(s: Seq<u8>) -> nat
    decreases s.len(),
{
    if s.len() == 0 {
        0
    } else {
        digits_value(s.drop_last()) * 10 + (s.last() - 48) as nat
    }
}

/// A content length as `usize::from_str` reads it: an optional `+`, then one or
/// more decimal digits, with a value that fits.
pub open spec fn length_digits(s: Seq<u8>) -> Seq<u8> {
    if s.len() > 0 && s[0] == 43 {
        s.drop_first()
    } else {
        s
    }
}

pub open spec fn parse_length(s: Seq<u8>) -> Option<nat> {
    let digits = length_digits(s);
    if digits.len() > 0 && (forall|i: int| 0 <= i < digits.len() ==> is_digit(#[trigger] digits[i]))
        && digits_value(digits) <= usize::MAX {
        Some(digits_value(digits))
    } else {
        None
    }
}

fn parse_length_of(s: &[u8]) -> (r: Option<usize>)
    ensures
        match parse_length(s@) {
            Some(n) => r == Some(n as usize),
            None => r is None,
        },
{
    let start: usize = if s.len() > 0 && s[0] == 43 { 1 } else { 0 };
    let ghost digits = length_digits(s@);
    assert(digits =~= s@.subrange(start as int, s@.len() as int));
    if start >= s.len() {
        return None;
    }
    let mut value: usize = 0;
    let mut i: usize = start;
    while i < s.len()
        invariant
            start <= i <= s@.len(),
            digits == s@.subrange(start as int, s@.len() as int),
            digits == length_digits(s@),
            forall|j: int| start <= j < i ==> is_digit(#[trigger] s@[j]),
            value as nat == digits_value(s@.subrange(start as int, i as int)),
        decreases s.len() - i,
    {
        let b = s[i];
        proof {
            assert(s@.subrange(start as int, i as int + 1).drop_last() =~= s@.subrange(start as int, i as int));
        }
        if b < 48 || b > 57 {
            assert(digits[(i - start) as int] == b);
            assert(!is_digit(digits[(i - start) as int]));
            return None;
        }
        let d = (b - 48) as usize;
        if value > (usize::MAX - d) / 10 {
            proof {
                assert(value * 10 + d > usize::MAX) by (nonlinear_arith)
                    requires
                        value > (usize::MAX - d) / 10,
                        d <= 9,
                ;
                if forall|j: int| 0 <= j < digits.len() ==> is_digit(#[trigger] digits[j]) {
                    lemma_digits_value_grows(digits, (i - start) as int + 1);
                    assert(digits.subrange(0, (i - start) as int + 1) =~= s@.subrange(start as int, i as int + 1));
                    assert(digits_value(s@.subrange(start as int, i as int + 1)) == value * 10 + d);
                }
            }
            return None;
        }
        assert(value * 10 + d <= usize::MAX) by (nonlinear_arith)
            requires
                value <= (usize::MAX - d) / 10,
                d <= 9,
        ;
        value = value * 10 + d;
        i = i + 1;
    }
    assert(s@.subrange(start as int, s@.len() as int) =~= digits);
    Some(value)
}

proof fn lemma_digits_value_grows(s: Seq<u8>, k: int)
    requires
        0 <= k <= s.len(),
        forall|i: int| 0 <= i < s.len() ==> is_digit(#[trigger] s[i]),
    ensures
        digits_value(s.subrange(0, k)) <= digits_value(s),
    decreases s.len() - k,
{
    if k < s.len() {
        lemma_digits_value_grows(s, k + 1);
        assert(s.subrange(0, k + 1).drop_last() =~= s.subrange(0, k));
    } else {
        assert(s.subrange(0, k) =~= s);
    }
}

} // verus!

verus! {

/// The body of a usable response: a success body to read as the expected
/// result, or an error body carrying `{message}`.
pub enum ResponseBody {
    Success(Vec<u8>),
    Failure(Vec<u8>),
}

pub enum ResponseBodyView {
    Success(Seq<u8>),
    Failure(Seq<u8>),
}

impl View for ResponseBody {
    type V = ResponseBodyView;

    open spec fn view(&self) -> ResponseBodyView {
        match self {
            ResponseBody::Success(b) => ResponseBodyView::Success(b@),
            ResponseBody::Failure(b) => ResponseBodyView::Failure(b@),
        }
    }
}

/// The content length and whether the content type is JSON, read from the
/// headers in order: a later content length overrides an earlier one, and an
/// unreadable content length or content type makes the response malformed.
pub open spec fn scan_headers(hs: Seq<(Seq<u8>, Seq<u8>)>) -> Result<(Option<nat>, bool), ResponseError>
    decreases hs.len(),
{
    if hs.len() == 0 {
        Ok((None, false))
    } else {
        match scan_headers(hs.drop_last()) {
            Err(e) => Err(e),
            Ok(st) => {
                let h = hs.last();
                if eq_ignore_ascii_case(h.0, "content-length".spec_bytes()) {
                    match parse_length(h.1) {
                        Some(n) => Ok((Some(n), st.1)),
                        None => Err(ResponseError::Malformed),
                    }
                } else if eq_ignore_ascii_case(h.0, "content-type".spec_bytes()) {
                    if !valid_utf8(h.1) {
                        Err(ResponseError::Malformed)
                    } else {
                        Ok((st.0, st.1 || h.1 == "application/json".spec_bytes()))
                    }
                } else {
                    Ok(st)
                }
            },
        }
    }
}

/// What a response with head `h` in `buf` means: it must be JSON; its body is
/// bounded by the content length when one is given and must be that long; status
/// 200 is success, 4xx and 5xx carry an error, anything else is malformed.
pub open spec fn interpret(buf: Seq<u8>, h: ResponseHeadView) -> Result<ResponseBodyView, ResponseError> {
    match scan_headers(h.headers) {
        Err(e) => Err(e),
        Ok(st) => if !st.1 {
            Err(ResponseError::Malformed)
        } else {
            let rest = buf.subrange(h.body_start as int, buf.len() as int);
            if st.0 is Some && rest.len() < st.0->Some_0 {
                Err(ResponseError::UnexpectedEof)
            } else {
                let body = if st.0 is Some { rest.subrange(0, st.0->Some_0 as int) } else { rest };
                match h.code {
                    Some(c) => if c == 200 {
                        Ok(ResponseBodyView::Success(body))
                    } else if 400 <= c <= 599 {
                        Ok(ResponseBodyView::Failure(body))
                    } else {
                        Err(ResponseError::Malformed)
                    },
                    None => Err(ResponseError::Malformed),
                }
            }
        },
    }
}

/// How many headers a response may have.
pub const MAX_RESPONSE_HEADERS: usize = 16;

/// What the bytes read from a connection mean as a response.
pub open spec fn decode(buf: Seq<u8>) -> Result<ResponseBodyView, ResponseError> {
    match response_head_of(buf, MAX_RESPONSE_HEADERS as nat) {
        HeadParseView::Complete(h) => interpret(buf, h),
        HeadParseView::Partial => Err(ResponseError::UnexpectedEof),
        HeadParseView::Invalid => Err(ResponseError::Malformed),
    }
}

pub open spec fn decoded(r: Result<ResponseBody, ResponseError>) -> Result<ResponseBodyView, ResponseError> {
    match r {
        Ok(b) => Ok(b@),
        Err(e) => Err(e),
    }
}

pub open spec fn length_view(o: Option<usize>) -> Option<nat> {
    match o {
        Some(n) => Some(n as nat),
        None => None,
    }
}

fn copy_range(buf: &[u8], start: usize, end: usize) -> (r: Vec<u8>)
    requires
        start <= end <= buf@.len(),
    ensures
        r@ == buf@.subrange(start as int, end as int),
{
    let mut r: Vec<u8> = Vec::new();
    let mut i: usize = start;
    while i < end
        invariant
            start <= i <= end <= buf@.len(),
            r@ == buf@.subrange(start as int, i as int),
        decreases end - i,
    {
        r.push(buf[i]);
        i = i + 1;
    }
    r
}

/// Interprets a response whose head has been parsed.
pub fn interpret_response(buf: &[u8], head: &ResponseHead) -> (r: Result<ResponseBody, ResponseError>)
    requires
        head.body_start <= buf@.len(),
    ensures
        decoded(r) == interpret(buf@, head@),
{
    let ghost hs = head@.headers;
    let mut content_length: Option<usize> = None;
    let mut is_json = false;
    let mut i: usize = 0;
    assert(hs.subrange(0, 0) =~= Seq::<(Seq<u8>, Seq<u8>)>::empty());
    while i < head.headers.len()
        invariant
            hs == head@.headers,
            0 <= i <= hs.len(),
            scan_headers(hs.subrange(0, i as int)) == Ok::<(Option<nat>, bool), ResponseError>((length_view(content_length), is_json)),
        decreases head.headers.len() - i,
    {
        let name = &head.headers[i].0;
        let value = &head.headers[i].1;
        proof {
            assert(hs.subrange(0, i as int + 1).drop_last() =~= hs.subrange(0, i as int));
            assert(hs.subrange(0, i as int + 1).last() == (name@, value@));
        }
        if bytes_eq_ignore_ascii_case(name.as_slice(), "content-length".as_bytes()) {
            match parse_length_of(value.as_slice()) {
                Some(n) => {
                    content_length = Some(n);
                },
                None => {
                    proof { lemma_scan_err_extends(hs, i as int + 1, hs.len() as int); }
                    assert(hs.subrange(0, hs.len() as int) =~= hs);
                    return Err(ResponseError::Malformed);
                },
            }
        } else if bytes_eq_ignore_ascii_case(name.as_slice(), "content-type".as_bytes()) {
            if !is_utf8(value.as_slice()) {
                proof { lemma_scan_err_extends(hs, i as int + 1, hs.len() as int); }
                assert(hs.subrange(0, hs.len() as int) =~= hs);
                return Err(ResponseError::Malformed);
            }
            let j = bytes_eq(value.as_slice(), "application/json".as_bytes());
            is_json = is_json || j;
        }
        i = i + 1;
    }
    assert(hs.subrange(0, hs.len() as int) =~= hs);
    if !is_json {
        return Err(ResponseError::Malformed);
    }
    let end = match content_length {
        Some(n) => {
            if buf.len() - head.body_start < n {
                return Err(ResponseError::UnexpectedEof);
            }
            head.body_start + n
        },
        None => buf.len(),
    };
    let body = copy_range(buf, head.body_start, end);
    assert(body@ =~= (if content_length is Some {
        buf@.subrange(head.body_start as int, buf@.len() as int).subrange(0, content_length->Some_0 as int)
    } else {
        buf@.subrange(head.body_start as int, buf@.len() as int)
    }));
    match head.code {
        Some(c) => if c == 200 {
            Ok(ResponseBody::Success(body))
        } else if 400 <= c && c <= 599 {
            Ok(ResponseBody::Failure(body))
        } else {
            Err(ResponseError::Malformed)
        },
        None => Err(ResponseError::Malformed),
    }
}

proof fn lemma_scan_err_extends(hs: Seq<(Seq<u8>, Seq<u8>)>, k: int, m: int)
    requires
        0 <= k <= m <= hs.len(),
        scan_headers(hs.subrange(0, k)) is Err,
    ensures
        scan_headers(hs.subrange(0, m)) == scan_headers(hs.subrange(0, k)),
    decreases m - k,
{
    if m > k {
        lemma_scan_err_extends(hs, k, m - 1);
        assert(hs.subrange(0, m).drop_last() =~= hs.subrange(0, m - 1));
    }
}

fn bytes_eq(a: &[u8], b: &[u8]) -> (r: bool)
    ensures
        r == (a@ == b@),
{
    if a.len() != b.len() {
        return false;
    }
    let mut i: usize = 0;
    while i < a.len()
        invariant
            a@.len() == b@.len(),
            0 <= i <= a@.len(),
            forall|j: int| 0 <= j < i ==> a@[j] == b@[j],
        decreases a.len() - i,
    {
        if a[i] != b[i] {
            return false;
        }
        i = i + 1;
    }
    assert(a@ =~= b@);
    true
}

/// Reads the bytes received on a connection as a response of this protocol.
pub fn decode_response(buf: &[u8]) -> (r: Result<ResponseBody, ResponseError>)
    ensures
        decoded(r) == decode(buf@),
{
    match parse_head(buf, MAX_RESPONSE_HEADERS) {
        HeadParse::Complete(head) => interpret_response(buf, &head),
        HeadParse::Partial => Err(ResponseError::UnexpectedEof),
        HeadParse::Invalid => Err(ResponseError::Malformed),
    }
}

} // verus!

verus! {

/// A client of the key service that opens one connection per request through
/// its connector.
pub struct Client<C> {
    connector: C,
}

impl<C> Client<C> {
    /// The connector this client opens its connections with.
    pub closed spec fn connector_spec(&self) -> C {
        self.connector
    }

    /// A client that connects through `connector`.
    pub fn new(connector: C) -> (r: Client<C>)
        ensures
            r.connector_spec() == connector,
    {
        Client { connector }
    }

    /// The connector this client opens its connections with.
    pub fn connector(&self) -> (r: &C)
        ensures
            *r == self.connector_spec(),
    {
        &self.connector
    }
}

} // verus!
