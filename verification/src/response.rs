//! The outbound response envelope: the nested output structure a handler
//! fills in, and its encoding into the JSON document the host reads.
//!
//! The embedded status code is the *logical* outcome the host acts on; the
//! transport-level status of the HTTP call that carries the envelope is fixed
//! elsewhere and never changes with the logical outcome.

use vstd::prelude::*;
use vstd::string::StringExecFns;
use vstd::string::StrSliceExecFns;
use crate::strbuild::push_char;

verus! {

/// Logical status embedded in the envelope, serialized as its numeric
/// string form.
#[derive(Clone, Copy, PartialEq, Eq, Structural, Debug)]
pub enum HttpStatusCode {
    Okay,
    Found,
    BadRequest,
    Unauthorized,
    NotFound,
}

impl HttpStatusCode {
    /// The numeric string under which this status is serialized.
    pub open spec fn spec_digits(self) -> Seq<char> {
        match self {
            HttpStatusCode::Okay => "200"@,
            HttpStatusCode::Found => "302"@,
            HttpStatusCode::BadRequest => "400"@,
            HttpStatusCode::Unauthorized => "401"@,
            HttpStatusCode::NotFound => "404"@,
        }
    }

    pub fn digits(&self) -> (r: &'static str)
        ensures
            r@ == self.spec_digits(),
    {
        match self {
            HttpStatusCode::Okay => "200",
            HttpStatusCode::Found => "302",
            HttpStatusCode::BadRequest => "400",
            HttpStatusCode::Unauthorized => "401",
            HttpStatusCode::NotFound => "404",
        }
    }
}

impl Default for HttpStatusCode {
    fn default() -> (r: Self)
        ensures
            r == HttpStatusCode::BadRequest,
    {
        HttpStatusCode::BadRequest
    }
}

#[verifier::ext_equal]
pub struct FunctionsResponseDataView {
    pub body: Seq<char>,
    pub status_code: HttpStatusCode,
    pub headers: Seq<(Seq<char>, Seq<char>)>,
}

/// The HTTP-style output of one invocation: body, logical status code and
/// a header map, serialized in that order.
pub struct FunctionsResponseData {
    pub body: String,
    pub status_code: HttpStatusCode,
    pub headers: Vec<(String, String)>,
}

impl View for FunctionsResponseData {
    type V = FunctionsResponseDataView;

    open spec fn view(&self) -> FunctionsResponseDataView {
        FunctionsResponseDataView {
            body: self.body@,
            status_code: self.status_code,
            headers: Seq::new(self.headers@.len(), |i: int| (self.headers@[i].0@, self.headers@[i].1@)),
        }
    }
}

/// Replace the value under `k` if some pair carries that exact key, else
/// append the pair; mirrors insertion into a string-keyed map that keeps
/// its insertion order.
pub open spec fn spec_header_insert(
    h: Seq<(Seq<char>, Seq<char>)>,
    k: Seq<char>,
    v: Seq<char>,
) -> Seq<(Seq<char>, Seq<char>)>
    decreases h.len(),
{
    if h.len() == 0 {
        seq![(k, v)]
    } else if h[0].0 == k {
        seq![(k, v)] + h.drop_first()
    } else {
        seq![h[0]] + spec_header_insert(h.drop_first(), k, v)
    }
}

impl Default for FunctionsResponseData {
    fn default() -> (r: Self)
        ensures
            r@.body == Seq::<char>::empty(),
            r@.status_code == HttpStatusCode::BadRequest,
            r@.headers == Seq::<(Seq<char>, Seq<char>)>::empty(),
    {
        let r = FunctionsResponseData {
            body: String::new(),
            status_code: HttpStatusCode::BadRequest,
            headers: Vec::new(),
        };
        proof {
            assert(r@.headers =~= Seq::<(Seq<char>, Seq<char>)>::empty());
        }
        r
    }
}

impl FunctionsResponseData {
    /// Insert a header, replacing the value of an existing header with the
    /// same (case-sensitive) name.
    pub fn insert_header(&mut self, k: String, v: String)
        ensures
            final(self)@.body == old(self)@.body,
            final(self)@.status_code == old(self)@.status_code,
            final(self)@.headers == spec_header_insert(old(self)@.headers, k@, v@),
    {
        let ghost orig = old(self)@.headers;
        let mut i: usize = 0;
        while i < self.headers.len()
            invariant
                i <= self.headers@.len(),
                orig == old(self)@.headers,
                self@.body == old(self)@.body,
                self@.status_code == old(self)@.status_code,
                self@.headers == orig,
                forall|j: int| 0 <= j < i ==> orig[j].0 != k@,
            decreases self.headers@.len() - i,
        {
            if self.headers[i].0 == k {
                let ghost origv = self.headers@;
                self.headers.remove(i);
                self.headers.insert(i, (k, v));
                proof {
                    assert(self.headers@ =~= origv.update(i as int, (k, v)));
                    lemma_header_insert_found(orig, k@, v@, i as int);
                    assert(self@.headers =~= spec_header_insert(orig, k@, v@));
                }
                return;
            }
            i += 1;
        }
        self.headers.push((k, v));
        proof {
            lemma_header_insert_missing(orig, k@, v@);
            assert(self@.headers =~= spec_header_insert(orig, k@, v@));
        }
    }
}

proof fn lemma_header_insert_found(
    h: Seq<(Seq<char>, Seq<char>)>,
    k: Seq<char>,
    v: Seq<char>,
    i: int,
)
    requires
        0 <= i < h.len(),
        h[i].0 == k,
        forall|j: int| 0 <= j < i ==> h[j].0 != k,
    ensures
        spec_header_insert(h, k, v) =~= h.update(i, (k, v)),
    decreases h.len(),
{
    if i == 0 {
        assert(spec_header_insert(h, k, v) == seq![(k, v)] + h.drop_first());
        assert(seq![(k, v)] + h.drop_first() =~= h.update(0, (k, v)));
    } else {
        assert(h[0].0 != k);
        lemma_header_insert_found(h.drop_first(), k, v, i - 1);
        assert(spec_header_insert(h, k, v) == seq![h[0]] + spec_header_insert(h.drop_first(), k, v));
        assert(h.drop_first().update(i - 1, (k, v)) =~= h.update(i, (k, v)).drop_first());
        assert(seq![h[0]] + h.update(i, (k, v)).drop_first() =~= h.update(i, (k, v)));
    }
}

proof fn lemma_header_insert_missing(h: Seq<(Seq<char>, Seq<char>)>, k: Seq<char>, v: Seq<char>)
    requires
        forall|j: int| 0 <= j < h.len() ==> h[j].0 != k,
    ensures
        spec_header_insert(h, k, v) =~= h.push((k, v)),
    decreases h.len(),
{
    if h.len() == 0 {
        assert(spec_header_insert(h, k, v) =~= h.push((k, v)));
    } else {
        assert(h[0].0 != k);
        lemma_header_insert_missing(h.drop_first(), k, v);
        assert(seq![h[0]] + h.drop_first().push((k, v)) =~= h.push((k, v)));
    }
}

/// The lowercase hexadecimal digit for a value below sixteen.
pub open spec fn spec_hex_digit(d: int) -> char {
    if d == 0 { '0' } else if d == 1 { '1' } else if d == 2 { '2' } else if d == 3 { '3' }
    else if d == 4 { '4' } else if d == 5 { '5' } else if d == 6 { '6' } else if d == 7 { '7' }
    else if d == 8 { '8' } else if d == 9 { '9' } else if d == 10 { 'a' } else if d == 11 { 'b' }
    else if d == 12 { 'c' } else if d == 13 { 'd' } else if d == 14 { 'e' } else { 'f' }
}

/// How one character appears inside a JSON string literal: quote and
/// backslash escaped, the named control escapes, a four-digit escape for
/// the remaining control characters, and every other character as itself.
pub open spec fn spec_escape_char(c: char) -> Seq<char> {
    if c == '"' { "\\\""@ }
    else if c == '\\' { "\\\\"@ }
    else if c == '\u{08}' { "\\b"@ }
    else if c == '\u{09}' { "\\t"@ }
    else if c == '\u{0a}' { "\\n"@ }
    else if c == '\u{0c}' { "\\f"@ }
    else if c == '\u{0d}' { "\\r"@ }
    else if (c as u32) < 0x20 {
        "\\u00"@ + seq![
            spec_hex_digit(c as u32 as int / 16),
            spec_hex_digit(c as u32 as int % 16),
        ]
    } else {
        seq![c]
    }
}

/// The JSON escaping of the first `n` characters of `s`.
pub open spec fn spec_escape_prefix(s: Seq<char>, n: int) -> Seq<char>
    decreases n,
{
    if n <= 0 {
        Seq::empty()
    } else {
        spec_escape_prefix(s, n - 1) + spec_escape_char(s[n - 1])
    }
}

/// The JSON escaping of a whole string.
pub open spec fn spec_escape(s: Seq<char>) -> Seq<char> {
    spec_escape_prefix(s, s.len() as int)
}

/// One header pair as it appears inside the serialized header object.
pub open spec fn spec_header_item(p: (Seq<char>, Seq<char>)) -> Seq<char> {
    "\""@ + spec_escape(p.0) + "\":\""@ + spec_escape(p.1) + "\""@
}

/// The first `n` header pairs, comma-separated.
pub open spec fn spec_headers_items(h: Seq<(Seq<char>, Seq<char>)>, n: int) -> Seq<char>
    decreases n,
{
    if n <= 0 {
        Seq::empty()
    } else {
        spec_headers_items(h, n - 1) + (if n == 1 { Seq::<char>::empty() } else { ","@ })
            + spec_header_item(h[n - 1])
    }
}

/// One log line as it appears inside the serialized log array.
pub open spec fn spec_log_item(l: Seq<char>) -> Seq<char> {
    "\""@ + spec_escape(l) + "\""@
}

/// The first `n` log lines, comma-separated.
pub open spec fn spec_logs_items(l: Seq<Seq<char>>, n: int) -> Seq<char>
    decreases n,
{
    if n <= 0 {
        Seq::empty()
    } else {
        spec_logs_items(l, n - 1) + (if n == 1 { Seq::<char>::empty() } else { ","@ })
            + spec_log_item(l[n - 1])
    }
}

/// The hexadecimal digit character for a value below sixteen.
fn hex_digit(d: u8) -> (r: char)
    requires
        d < 16,
    ensures
        r == spec_hex_digit(d as int),
{
    match d {
        0 => '0',
        1 => '1',
        2 => '2',
        3 => '3',
        4 => '4',
        5 => '5',
        6 => '6',
        7 => '7',
        8 => '8',
        9 => '9',
        10 => 'a',
        11 => 'b',
        12 => 'c',
        13 => 'd',
        14 => 'e',
        _ => 'f',
    }
}

fn append_escaped_char(out: &mut String, c: char)
    ensures
        final(out)@ == old(out)@ + spec_escape_char(c),
{
    if c == '"' {
        out.append("\\\"");
    } else if c == '\\' {
        out.append("\\\\");
    } else if c == '\u{08}' {
        out.append("\\b");
    } else if c == '\u{09}' {
        out.append("\\t");
    } else if c == '\u{0a}' {
        out.append("\\n");
    } else if c == '\u{0c}' {
        out.append("\\f");
    } else if c == '\u{0d}' {
        out.append("\\r");
    } else if (c as u32) < 0x20 {
        let code: u32 = c as u32;
        out.append("\\u00");
        push_char(out, hex_digit((code / 16) as u8));
        push_char(out, hex_digit((code % 16) as u8));
        proof {
            assert(out@ =~= old(out)@ + spec_escape_char(c));
        }
    } else {
        push_char(out, c);
        proof {
            assert(out@ =~= old(out)@ + spec_escape_char(c));
        }
    }
}

pub(crate) fn append_escaped(out: &mut String, s: &str)
    ensures
        final(out)@ == old(out)@ + spec_escape(s@),
{
    let ghost base = out@;
    let n = s.unicode_len();
    let mut i: usize = 0;
    proof {
        assert(base + spec_escape_prefix(s@, 0) =~= base);
    }
    while i < n
        invariant
            i <= n,
            n == s@.len(),
            out@ == base + spec_escape_prefix(s@, i as int),
        decreases n - i,
    {
        let c = s.get_char(i);
        append_escaped_char(out, c);
        proof {
            assert(out@ =~= base + spec_escape_prefix(s@, i as int + 1));
        }
        i += 1;
    }
}

/// The full serialized envelope, a function of the envelope value alone.
pub open spec fn spec_encode_response(r: FunctionsResponseView) -> Seq<char> {
    "{\"Outputs\":{\"res\":{\"body\":\""@ + spec_escape(r.outputs.res.body)
        + "\",\"statusCode\":\""@ + r.outputs.res.status_code.spec_digits()
        + "\",\"headers\":{"@ + spec_headers_items(
        r.outputs.res.headers,
        r.outputs.res.headers.len() as int,
    ) + "}}},\"Logs\":["@ + spec_logs_items(r.logs, r.logs.len() as int) + "]}"@
}

/// Encoding is deterministic: envelopes with equal views serialize to the
/// same character sequence, so encoding one value twice yields
/// byte-identical output.
pub proof fn lemma_encode_deterministic(r1: FunctionsResponseView, r2: FunctionsResponseView)
    requires
        r1 == r2,
    ensures
        spec_encode_response(r1) == spec_encode_response(r2),
{
}

#[verifier::ext_equal]
pub struct FunctionsOutputView {
    pub res: FunctionsResponseDataView,
}

/// The `Outputs` object of the envelope; HTTP-style triggers carry one
/// entry, `res`.
pub struct FunctionsOutput {
    pub res: FunctionsResponseData,
}

impl View for FunctionsOutput {
    type V = FunctionsOutputView;

    open spec fn view(&self) -> FunctionsOutputView {
        FunctionsOutputView { res: self.res@ }
    }
}

impl Default for FunctionsOutput {
    fn default() -> (r: Self)
        ensures
            r@.res.body == Seq::<char>::empty(),
            r@.res.status_code == HttpStatusCode::BadRequest,
            r@.res.headers == Seq::<(Seq<char>, Seq<char>)>::empty(),
    {
        FunctionsOutput { res: FunctionsResponseData::default() }
    }
}

#[verifier::ext_equal]
pub struct FunctionsResponseView {
    pub outputs: FunctionsOutputView,
    pub logs: Seq<Seq<char>>,
}

/// The whole response envelope: the output structure plus the ordered
/// diagnostic log lines captured during the invocation.
pub struct FunctionsResponse {
    pub outputs: FunctionsOutput,
    pub logs: Vec<String>,
}

impl View for FunctionsResponse {
    type V = FunctionsResponseView;

    open spec fn view(&self) -> FunctionsResponseView {
        FunctionsResponseView {
            outputs: self.outputs@,
            logs: Seq::new(self.logs@.len(), |i: int| self.logs@[i]@),
        }
    }
}

/// The view of an envelope with empty body, the default (bad request)
/// status, no headers and no logs.
pub open spec fn spec_default_response() -> FunctionsResponseView {
    FunctionsResponseView {
        outputs: FunctionsOutputView {
            res: FunctionsResponseDataView {
                body: Seq::<char>::empty(),
                status_code: HttpStatusCode::BadRequest,
                headers: Seq::<(Seq<char>, Seq<char>)>::empty(),
            },
        },
        logs: Seq::<Seq<char>>::empty(),
    }
}

impl Default for FunctionsResponse {
    fn default() -> (r: Self)
        ensures
            r@ == spec_default_response(),
    {
        let r = FunctionsResponse { outputs: FunctionsOutput::default(), logs: Vec::new() };
        proof {
            assert(r@.logs =~= Seq::<Seq<char>>::empty());
            assert(r@ =~= spec_default_response());
        }
        r
    }
}

impl FunctionsResponse {
    /// An empty-bodied envelope carrying the given logical status.
    pub fn http(status_code: HttpStatusCode) -> (r: Self)
        ensures
            r@ == (FunctionsResponseView {
                outputs: FunctionsOutputView {
                    res: FunctionsResponseDataView {
                        status_code,
                        ..spec_default_response().outputs.res
                    },
                },
                ..spec_default_response()
            }),
    {
        let mut response = FunctionsResponse::default();
        response.outputs.res.status_code = status_code;
        response
    }

    /// A redirect envelope: status `Found` and a `Location` header naming
    /// the redirect target.
    pub fn redirect(redirect_url: String) -> (r: Self)
        ensures
            r@ == (FunctionsResponseView {
                outputs: FunctionsOutputView {
                    res: FunctionsResponseDataView {
                        body: Seq::<char>::empty(),
                        status_code: HttpStatusCode::Found,
                        headers: seq![("Location"@, redirect_url@)],
                    },
                },
                logs: Seq::<Seq<char>>::empty(),
            }),
    {
        let mut response = FunctionsResponse::default();
        response.outputs.res.status_code = HttpStatusCode::Found;
        response.outputs.res.insert_header(String::from_str("Location"), redirect_url);
        proof {
            assert(response@.outputs.res.headers =~= seq![("Location"@, redirect_url@)]);
        }
        response
    }

    /// Replace the body, leaving everything else unchanged.
    pub fn body(self, body: String) -> (r: Self)
        ensures
            r@ == (FunctionsResponseView {
                outputs: FunctionsOutputView {
                    res: FunctionsResponseDataView { body: body@, ..self@.outputs.res },
                },
                ..self@
            }),
    {
        let mut this = self;
        this.outputs.res.body = body;
        this
    }

    /// Serialize the envelope into the JSON document the host reads.
    ///
    /// The output is a function of the envelope value alone, so encoding
    /// the same envelope twice yields byte-identical documents.
    pub fn encode(&self) -> (r: String)
        ensures
            r@ == spec_encode_response(self@),
    {
        let mut out = String::new();
        out.append("{\"Outputs\":{\"res\":{\"body\":\"");
        append_escaped(&mut out, self.outputs.res.body.as_str());
        out.append("\",\"statusCode\":\"");
        out.append(self.outputs.res.status_code.digits());
        out.append("\",\"headers\":{");
        let ghost hview = self@.outputs.res.headers;
        let ghost hbase = out@;
        let mut i: usize = 0;
        proof {
            assert(hbase + spec_headers_items(hview, 0) =~= hbase);
        }
        while i < self.outputs.res.headers.len()
            invariant
                i <= self.outputs.res.headers@.len(),
                hview == self@.outputs.res.headers,
                out@ == hbase + spec_headers_items(hview, i as int),
            decreases self.outputs.res.headers@.len() - i,
        {
            if i > 0 {
                out.append(",");
            }
            out.append("\"");
            append_escaped(&mut out, self.outputs.res.headers[i].0.as_str());
            out.append("\":\"");
            append_escaped(&mut out, self.outputs.res.headers[i].1.as_str());
            out.append("\"");
            proof {
                assert(out@ =~= hbase + spec_headers_items(hview, i as int + 1));
            }
            i += 1;
        }
        out.append("}}},\"Logs\":[");
        let ghost lview = self@.logs;
        let ghost lbase = out@;
        let mut j: usize = 0;
        proof {
            assert(lbase + spec_logs_items(lview, 0) =~= lbase);
        }
        while j < self.logs.len()
            invariant
                j <= self.logs@.len(),
                lview == self@.logs,
                out@ == lbase + spec_logs_items(lview, j as int),
            decreases self.logs@.len() - j,
        {
            if j > 0 {
                out.append(",");
            }
            out.append("\"");
            append_escaped(&mut out, self.logs[j].as_str());
            out.append("\"");
            proof {
                assert(out@ =~= lbase + spec_logs_items(lview, j as int + 1));
            }
            j += 1;
        }
        out.append("]}");
        proof {
            assert(out@ =~= spec_encode_response(self@));
        }
        out
    }

    /// Install an already-serialized JSON document as the body and mark
    /// it as JSON through the `Content-Type` header.
    pub fn body_json(self, json_text: String) -> (r: Self)
        ensures
            r@ == (FunctionsResponseView {
                outputs: FunctionsOutputView {
                    res: FunctionsResponseDataView {
                        body: json_text@,
                        status_code: self@.outputs.res.status_code,
                        headers: spec_header_insert(
                            self@.outputs.res.headers,
                            "Content-Type"@,
                            "application/json"@,
                        ),
                    },
                },
                ..self@
            }),
    {
        let mut this = self;
        this.outputs.res.body = json_text;
        this.outputs.res.insert_header(
            String::from_str("Content-Type"),
            String::from_str("application/json"),
        );
        this
    }

    /// Replace the body and mark it as HTML through the `Content-Type`
    /// header.
    pub fn body_html(self, value: String) -> (r: Self)
        ensures
            r@ == (FunctionsResponseView {
                outputs: FunctionsOutputView {
                    res: FunctionsResponseDataView {
                        body: value@,
                        status_code: self@.outputs.res.status_code,
                        headers: spec_header_insert(
                            self@.outputs.res.headers,
                            "Content-Type"@,
                            "text/html"@,
                        ),
                    },
                },
                ..self@
            }),
    {
        let mut this = self;
        this.outputs.res.body = value;
        this.outputs.res.insert_header(
            String::from_str("Content-Type"),
            String::from_str("text/html"),
        );
        this
    }
}

} // verus!
