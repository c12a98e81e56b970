//! The HTTP trigger payload: the request data the host forwards, the
//! common invocation metadata, and the structural decoding of both.

use vstd::prelude::*;
use vstd::string::StringExecFns;
use crate::json::{Json, JsonView, spec_obj_get, obj_view, arr_view, obj_get, lemma_obj_view,
    lemma_arr_view};
use crate::formats::{is_url, is_header_name, url_valid, header_name_valid};
use crate::payload::{InputBinding, InputBindingView, spec_sys_fields, sys_from_obj};

verus! {

/// The request method, as the host spells it.
#[derive(Clone, Copy, PartialEq, Eq, Structural, Debug)]
pub enum HttpMethod {
    Get,
    Post,
    Delete,
    Head,
    Patch,
    Put,
    Options,
    Trace,
}

/// The method named by the given text, if it is one of the eight the
/// host sends.
pub open spec fn spec_method_of(s: Seq<char>) -> Option<HttpMethod> {
    if s == "GET"@ {
        Some(HttpMethod::Get)
    } else if s == "POST"@ {
        Some(HttpMethod::Post)
    } else if s == "DELETE"@ {
        Some(HttpMethod::Delete)
    } else if s == "HEAD"@ {
        Some(HttpMethod::Head)
    } else if s == "PATCH"@ {
        Some(HttpMethod::Patch)
    } else if s == "PUT"@ {
        Some(HttpMethod::Put)
    } else if s == "OPTIONS"@ {
        Some(HttpMethod::Options)
    } else if s == "TRACE"@ {
        Some(HttpMethod::Trace)
    } else {
        None
    }
}

fn method_of(s: &String) -> (r: Option<HttpMethod>)
    ensures
        r == spec_method_of(s@),
{
    if *s == String::from_str("GET") {
        Some(HttpMethod::Get)
    } else if *s == String::from_str("POST") {
        Some(HttpMethod::Post)
    } else if *s == String::from_str("DELETE") {
        Some(HttpMethod::Delete)
    } else if *s == String::from_str("HEAD") {
        Some(HttpMethod::Head)
    } else if *s == String::from_str("PATCH") {
        Some(HttpMethod::Patch)
    } else if *s == String::from_str("PUT") {
        Some(HttpMethod::Put)
    } else if *s == String::from_str("OPTIONS") {
        Some(HttpMethod::Options)
    } else if *s == String::from_str("TRACE") {
        Some(HttpMethod::Trace)
    } else {
        None
    }
}

pub struct HttpPayloadMetadataSysView {
    pub method_name: Seq<char>,
    pub utc_now: Seq<char>,
    pub rand_guid: Seq<char>,
}

/// The common invocation metadata: logical function name, invocation
/// timestamp (RFC 3339 text) and per-invocation random identifier
/// (UUID text).
pub struct HttpPayloadMetadataSys {
    pub method_name: String,
    pub utc_now: String,
    pub rand_guid: String,
}

impl View for HttpPayloadMetadataSys {
    type V = HttpPayloadMetadataSysView;

    open spec fn view(&self) -> HttpPayloadMetadataSysView {
        HttpPayloadMetadataSysView {
            method_name: self.method_name@,
            utc_now: self.utc_now@,
            rand_guid: self.rand_guid@,
        }
    }
}

pub struct HttpPayloadMetadataView {
    pub sys: HttpPayloadMetadataSysView,
}

pub struct HttpPayloadMetadata {
    pub sys: HttpPayloadMetadataSys,
}

impl View for HttpPayloadMetadata {
    type V = HttpPayloadMetadataView;

    open spec fn view(&self) -> HttpPayloadMetadataView {
        HttpPayloadMetadataView { sys: self.sys@ }
    }
}

pub struct DataRequestView {
    pub url: Seq<char>,
    pub method: HttpMethod,
    pub query: Seq<(Seq<char>, Seq<char>)>,
    pub headers: Seq<(Seq<char>, Seq<Seq<char>>)>,
    pub body: Option<Seq<char>>,
}

/// The forwarded request: URL text, method, query map, header map
/// (multi-valued, case-insensitive names) and optional body.
pub struct DataRequest {
    pub url: String,
    pub method: HttpMethod,
    pub query: Vec<(String, String)>,
    pub headers: Vec<(String, Vec<String>)>,
    pub body: Option<String>,
}

impl View for DataRequest {
    type V = DataRequestView;

    open spec fn view(&self) -> DataRequestView {
        DataRequestView {
            url: self.url@,
            method: self.method,
            query: Seq::new(self.query@.len(), |i: int| (self.query@[i].0@, self.query@[i].1@)),
            headers: Seq::new(
                self.headers@.len(),
                |i: int|
                    (
                        self.headers@[i].0@,
                        Seq::new(self.headers@[i].1@.len(), |j: int| self.headers@[i].1@[j]@),
                    ),
            ),
            body: match &self.body {
                Some(s) => Some(s@),
                None => None,
            },
        }
    }
}

/// Whether two characters are equal up to ASCII case.
pub open spec fn spec_char_eq_ci(a: char, b: char) -> bool {
    a == b || (65 <= a as int <= 90 && a as int + 32 == b as int) || (65 <= b as int <= 90 && b
        as int + 32 == a as int)
}

/// Whether two texts are equal up to ASCII case.
pub open spec fn spec_str_eq_ci(x: Seq<char>, y: Seq<char>) -> bool {
    x.len() == y.len() && forall|i: int| 0 <= i < x.len() ==> spec_char_eq_ci(x[i], y[i])
}

fn str_eq_ci(a: &str, b: &str) -> (r: bool)
    ensures
        r == spec_str_eq_ci(a@, b@),
{
    let na = a.unicode_len();
    let nb = b.unicode_len();
    if na != nb {
        return false;
    }
    let mut i: usize = 0;
    while i < na
        invariant
            i <= na,
            na == a@.len(),
            na == b@.len(),
            forall|j: int| 0 <= j < i ==> spec_char_eq_ci(a@[j], b@[j]),
        decreases na - i,
    {
        let ca = a.get_char(i) as u32;
        let cb = b.get_char(i) as u32;
        let same = ca == cb || (65 <= ca && ca <= 90 && ca + 32 == cb) || (65 <= cb && cb <= 90
            && cb + 32 == ca);
        if !same {
            return false;
        }
        i += 1;
    }
    true
}

/// The value list of the first header whose name matches up to ASCII
/// case, if any.
pub open spec fn spec_header_lookup(
    h: Seq<(Seq<char>, Seq<Seq<char>>)>,
    name: Seq<char>,
) -> Option<Seq<Seq<char>>>
    decreases h.len(),
{
    if h.len() == 0 {
        None
    } else if spec_str_eq_ci(h[0].0, name) {
        Some(h[0].1)
    } else {
        spec_header_lookup(h.drop_first(), name)
    }
}

/// The first value of the named header, if the header is present and
/// carries at least one value.
pub open spec fn spec_header_first(
    h: Seq<(Seq<char>, Seq<Seq<char>>)>,
    name: Seq<char>,
) -> Option<Seq<char>> {
    match spec_header_lookup(h, name) {
        Some(vs) => if vs.len() > 0 {
            Some(vs[0])
        } else {
            None
        },
        None => None,
    }
}

proof fn lemma_header_lookup_at(h: Seq<(Seq<char>, Seq<Seq<char>>)>, name: Seq<char>, i: int)
    requires
        0 <= i < h.len(),
        spec_str_eq_ci(h[i].0, name),
        forall|j: int| 0 <= j < i ==> !spec_str_eq_ci(h[j].0, name),
    ensures
        spec_header_lookup(h, name) == Some(h[i].1),
    decreases i,
{
    if i > 0 {
        lemma_header_lookup_at(h.drop_first(), name, i - 1);
    }
}

proof fn lemma_header_lookup_none(h: Seq<(Seq<char>, Seq<Seq<char>>)>, name: Seq<char>)
    requires
        forall|j: int| 0 <= j < h.len() ==> !spec_str_eq_ci(h[j].0, name),
    ensures
        spec_header_lookup(h, name) is None,
    decreases h.len(),
{
    if h.len() > 0 {
        lemma_header_lookup_none(h.drop_first(), name);
    }
}

impl DataRequest {
    /// The first value of the named header, up to ASCII case of the
    /// name; `None` when the header is absent or carries no value.
    pub fn header_first(&self, name: &str) -> (r: Option<String>)
        ensures
            match r {
                Some(s) => spec_header_first(self@.headers, name@) == Some(s@),
                None => spec_header_first(self@.headers, name@) is None,
            },
    {
        let ghost h = self@.headers;
        let mut i: usize = 0;
        while i < self.headers.len()
            invariant
                i <= self.headers@.len(),
                h == self@.headers,
                forall|j: int| 0 <= j < i ==> !spec_str_eq_ci(h[j].0, name@),
            decreases self.headers@.len() - i,
        {
            if str_eq_ci(self.headers[i].0.as_str(), name) {
                proof {
                    lemma_header_lookup_at(h, name@, i as int);
                }
                let values = &self.headers[i].1;
                if values.len() > 0 {
                    return Some(values[0].clone());
                } else {
                    return None;
                }
            }
            i += 1;
        }
        proof {
            lemma_header_lookup_none(h, name@);
        }
        None
    }

    /// The caller's principal identifier, from the header under which
    /// the host forwards it.
    pub fn user_id(&self) -> (r: Option<String>)
        ensures
            match r {
                Some(s) => spec_header_first(self@.headers, "x-ms-client-principal-id"@) == Some(
                    s@,
                ),
                None => spec_header_first(self@.headers, "x-ms-client-principal-id"@) is None,
            },
    {
        self.header_first("x-ms-client-principal-id")
    }

    /// The caller's principal name, from the header under which the
    /// host forwards it.
    pub fn user_name(&self) -> (r: Option<String>)
        ensures
            match r {
                Some(s) => spec_header_first(self@.headers, "x-ms-client-principal-name"@)
                    == Some(s@),
                None => spec_header_first(self@.headers, "x-ms-client-principal-name"@) is None,
            },
    {
        self.header_first("x-ms-client-principal-name")
    }
}

pub struct HttpPayloadDataView {
    pub req: DataRequestView,
    pub inputs: Seq<(Seq<char>, InputBindingView)>,
}

/// The `Data` object of an HTTP invocation: the forwarded request plus
/// every remaining field as an extra input.
pub struct HttpPayloadData {
    pub req: DataRequest,
    pub inputs: Vec<(String, InputBinding)>,
}

impl View for HttpPayloadData {
    type V = HttpPayloadDataView;

    open spec fn view(&self) -> HttpPayloadDataView {
        HttpPayloadDataView {
            req: self.req@,
            inputs: Seq::new(self.inputs@.len(), |i: int| (self.inputs@[i].0@, self.inputs@[i].1@)),
        }
    }
}

pub struct HttpPayloadView {
    pub data: HttpPayloadDataView,
    pub metadata: HttpPayloadMetadataView,
}

/// One HTTP trigger invocation as decoded from the wire.
pub struct HttpPayload {
    pub data: HttpPayloadData,
    pub metadata: HttpPayloadMetadata,
}

impl View for HttpPayload {
    type V = HttpPayloadView;

    open spec fn view(&self) -> HttpPayloadView {
        HttpPayloadView { data: self.data@, metadata: self.metadata@ }
    }
}

impl HttpPayload {
    /// The logical function name the host assigned to this invocation.
    pub fn method_name(&self) -> (r: &str)
        ensures
            r@ == self@.metadata.sys.method_name,
    {
        self.metadata.sys.method_name.as_str()
    }
}

/// The query fields as a string-to-string map: `None` when some value
/// is not a string.
pub open spec fn spec_str_map(o: Seq<(Seq<char>, JsonView)>, n: int) -> Option<
    Seq<(Seq<char>, Seq<char>)>,
>
    decreases n,
{
    if n <= 0 {
        Some(Seq::empty())
    } else {
        match spec_str_map(o, n - 1) {
            Some(acc) => match o[n - 1].1 {
                JsonView::Str(s) => Some(acc.push((o[n - 1].0, s))),
                _ => None,
            },
            None => None,
        }
    }
}

proof fn lemma_str_map_none(o: Seq<(Seq<char>, JsonView)>, k: int, n: int)
    requires
        spec_str_map(o, k) is None,
        k <= n,
    ensures
        spec_str_map(o, n) is None,
    decreases n - k,
{
    if k < n {
        lemma_str_map_none(o, k, n - 1);
    }
}

/// The elements of an array as strings: `None` when some element is not
/// a string.
pub open spec fn spec_str_list(a: Seq<JsonView>, n: int) -> Option<Seq<Seq<char>>>
    decreases n,
{
    if n <= 0 {
        Some(Seq::empty())
    } else {
        match spec_str_list(a, n - 1) {
            Some(acc) => match a[n - 1] {
                JsonView::Str(s) => Some(acc.push(s)),
                _ => None,
            },
            None => None,
        }
    }
}

proof fn lemma_str_list_none(a: Seq<JsonView>, k: int, n: int)
    requires
        spec_str_list(a, k) is None,
        k <= n,
    ensures
        spec_str_list(a, n) is None,
    decreases n - k,
{
    if k < n {
        lemma_str_list_none(a, k, n - 1);
    }
}

/// The header fields as a multi-valued map: every name acceptable to
/// the HTTP stack, every value an array of strings.
pub open spec fn spec_header_map(o: Seq<(Seq<char>, JsonView)>, n: int) -> Option<
    Seq<(Seq<char>, Seq<Seq<char>>)>,
>
    decreases n,
{
    if n <= 0 {
        Some(Seq::empty())
    } else {
        match spec_header_map(o, n - 1) {
            Some(acc) => if is_header_name(o[n - 1].0) {
                match o[n - 1].1 {
                    JsonView::Arr(a) => match spec_str_list(a, a.len() as int) {
                        Some(vs) => Some(acc.push((o[n - 1].0, vs))),
                        None => None,
                    },
                    _ => None,
                }
            } else {
                None
            },
            None => None,
        }
    }
}

proof fn lemma_header_map_none(o: Seq<(Seq<char>, JsonView)>, k: int, n: int)
    requires
        spec_header_map(o, k) is None,
        k <= n,
    ensures
        spec_header_map(o, n) is None,
    decreases n - k,
{
    if k < n {
        lemma_header_map_none(o, k, n - 1);
    }
}

/// The optional request body: absent or `null` mean no body, a string
/// is the body, anything else refuses the shape.
pub open spec fn spec_body_field(o: Seq<(Seq<char>, JsonView)>) -> Option<Option<Seq<char>>> {
    match spec_obj_get(o, "Body"@) {
        None => Some(None),
        Some(JsonView::Null) => Some(None),
        Some(JsonView::Str(s)) => Some(Some(s)),
        Some(_) => None,
    }
}

/// The forwarded request, decoded from its object: `None` when some
/// required field is absent or ill-shaped.
pub open spec fn spec_data_request(j: JsonView) -> Option<DataRequestView> {
    match j {
        JsonView::Obj(r) => {
            match (
                spec_obj_get(r, "Url"@),
                spec_obj_get(r, "Method"@),
                spec_obj_get(r, "Query"@),
                spec_obj_get(r, "Headers"@),
            ) {
                (
                    Some(JsonView::Str(u)),
                    Some(JsonView::Str(m)),
                    Some(JsonView::Obj(q)),
                    Some(JsonView::Obj(h)),
                ) => {
                    if is_url(u) {
                        match (
                            spec_method_of(m),
                            spec_str_map(q, q.len() as int),
                            spec_header_map(h, h.len() as int),
                            spec_body_field(r),
                        ) {
                            (Some(method), Some(query), Some(headers), Some(body)) => Some(
                                DataRequestView { url: u, method, query, headers, body },
                            ),
                            _ => None,
                        }
                    } else {
                        None
                    }
                },
                _ => None,
            }
        },
        _ => None,
    }
}

/// The remaining fields of a `Data` object, beyond the one under the
/// excluded key, as extra inputs: `None` when some such field is not a
/// string.
pub open spec fn spec_inputs(o: Seq<(Seq<char>, JsonView)>, excl: Seq<char>, n: int) -> Option<
    Seq<(Seq<char>, InputBindingView)>,
>
    decreases n,
{
    if n <= 0 {
        Some(Seq::empty())
    } else {
        match spec_inputs(o, excl, n - 1) {
            Some(acc) => if o[n - 1].0 == excl {
                Some(acc)
            } else {
                match o[n - 1].1 {
                    JsonView::Str(s) => Some(acc.push((o[n - 1].0, InputBindingView::Blob(s)))),
                    _ => None,
                }
            },
            None => None,
        }
    }
}

proof fn lemma_inputs_none(o: Seq<(Seq<char>, JsonView)>, excl: Seq<char>, k: int, n: int)
    requires
        spec_inputs(o, excl, k) is None,
        k <= n,
    ensures
        spec_inputs(o, excl, n) is None,
    decreases n - k,
{
    if k < n {
        lemma_inputs_none(o, excl, k, n - 1);
    }
}

/// The whole HTTP payload, decoded from the document: `None` when the
/// document does not have the HTTP trigger shape.
pub open spec fn spec_http_payload(j: JsonView) -> Option<HttpPayloadView> {
    match j {
        JsonView::Obj(o) => {
            match (spec_obj_get(o, "Data"@), spec_obj_get(o, "Metadata"@)) {
                (Some(JsonView::Obj(d)), Some(JsonView::Obj(m))) => {
                    match (spec_obj_get(d, "req"@), spec_sys_fields(m)) {
                        (Some(reqj), Some(sys)) => {
                            match (spec_data_request(reqj), spec_inputs(d, "req"@, d.len() as int)) {
                                (Some(req), Some(inputs)) => Some(
                                    HttpPayloadView {
                                        data: HttpPayloadDataView { req, inputs },
                                        metadata: HttpPayloadMetadataView {
                                            sys: HttpPayloadMetadataSysView {
                                                method_name: sys.0,
                                                utc_now: sys.1,
                                                rand_guid: sys.2,
                                            },
                                        },
                                    },
                                ),
                                _ => None,
                            }
                        },
                        _ => None,
                    }
                },
                _ => None,
            }
        },
        _ => None,
    }
}

fn str_map_from_obj(q: &Vec<(String, Json)>) -> (r: Option<Vec<(String, String)>>)
    ensures
        r is Some <==> spec_str_map(obj_view(q@), q@.len() as int) is Some,
        r matches Some(v) ==> spec_str_map(obj_view(q@), q@.len() as int) == Some(
            Seq::new(v@.len(), |i: int| (v@[i].0@, v@[i].1@)),
        ),
{
    let ghost o = obj_view(q@);
    proof {
        lemma_obj_view(q@);
    }
    let mut out: Vec<(String, String)> = Vec::new();
    let mut i: usize = 0;
    proof {
        assert(spec_str_map(o, 0) == Some(Seq::<(Seq<char>, Seq<char>)>::empty()));
        assert(Seq::new(out@.len(), |j: int| (out@[j].0@, out@[j].1@)) =~= Seq::<(
            Seq<char>,
            Seq<char>,
        )>::empty());
    }
    while i < q.len()
        invariant
            i <= q@.len(),
            o == obj_view(q@),
            o.len() == q@.len(),
            forall|j: int| 0 <= j < q@.len() ==> o[j] == (q@[j].0@, q@[j].1@),
            spec_str_map(o, i as int) == Some(
                Seq::new(out@.len(), |j: int| (out@[j].0@, out@[j].1@)),
            ),
        decreases q@.len() - i,
    {
        let ghost prev = Seq::new(out@.len(), |j: int| (out@[j].0@, out@[j].1@));
        match &q[i].1 {
            Json::Str(s) => {
                out.push((q[i].0.clone(), s.clone()));
                proof {
                    assert(Seq::new(out@.len(), |j: int| (out@[j].0@, out@[j].1@)) =~= prev.push(
                        (o[i as int].0, s@),
                    ));
                }
            },
            _ => {
                proof {
                    assert(spec_str_map(o, i as int + 1) is None);
                    lemma_str_map_none(o, i as int + 1, q@.len() as int);
                }
                return None;
            },
        }
        i += 1;
    }
    Some(out)
}

fn str_list_from_arr(a: &Vec<Json>) -> (r: Option<Vec<String>>)
    ensures
        r is Some <==> spec_str_list(arr_view(a@), a@.len() as int) is Some,
        r matches Some(v) ==> spec_str_list(arr_view(a@), a@.len() as int) == Some(
            Seq::new(v@.len(), |i: int| v@[i]@),
        ),
{
    let ghost av = arr_view(a@);
    proof {
        lemma_arr_view(a@);
    }
    let mut out: Vec<String> = Vec::new();
    let mut i: usize = 0;
    proof {
        assert(Seq::new(out@.len(), |j: int| out@[j]@) =~= Seq::<Seq<char>>::empty());
    }
    while i < a.len()
        invariant
            i <= a@.len(),
            av == arr_view(a@),
            av.len() == a@.len(),
            forall|j: int| 0 <= j < a@.len() ==> av[j] == a@[j]@,
            spec_str_list(av, i as int) == Some(Seq::new(out@.len(), |j: int| out@[j]@)),
        decreases a@.len() - i,
    {
        let ghost prev = Seq::new(out@.len(), |j: int| out@[j]@);
        match &a[i] {
            Json::Str(s) => {
                out.push(s.clone());
                proof {
                    assert(Seq::new(out@.len(), |j: int| out@[j]@) =~= prev.push(s@));
                }
            },
            _ => {
                proof {
                    assert(spec_str_list(av, i as int + 1) is None);
                    lemma_str_list_none(av, i as int + 1, a@.len() as int);
                }
                return None;
            },
        }
        i += 1;
    }
    Some(out)
}

fn header_map_from_obj(h: &Vec<(String, Json)>) -> (r: Option<Vec<(String, Vec<String>)>>)
    ensures
        r is Some <==> spec_header_map(obj_view(h@), h@.len() as int) is Some,
        r matches Some(v) ==> spec_header_map(obj_view(h@), h@.len() as int) == Some(
            Seq::new(
                v@.len(),
                |i: int| (v@[i].0@, Seq::new(v@[i].1@.len(), |j: int| v@[i].1@[j]@)),
            ),
        ),
{
    let ghost o = obj_view(h@);
    proof {
        lemma_obj_view(h@);
    }
    let mut out: Vec<(String, Vec<String>)> = Vec::new();
    let mut i: usize = 0;
    proof {
        assert(Seq::new(
            out@.len(),
            |k: int| (out@[k].0@, Seq::new(out@[k].1@.len(), |j: int| out@[k].1@[j]@)),
        ) =~= Seq::<(Seq<char>, Seq<Seq<char>>)>::empty());
    }
    while i < h.len()
        invariant
            i <= h@.len(),
            o == obj_view(h@),
            o.len() == h@.len(),
            forall|j: int| 0 <= j < h@.len() ==> o[j] == (h@[j].0@, h@[j].1@),
            spec_header_map(o, i as int) == Some(
                Seq::new(
                    out@.len(),
                    |k: int| (out@[k].0@, Seq::new(out@[k].1@.len(), |j: int| out@[k].1@[j]@)),
                ),
            ),
        decreases h@.len() - i,
    {
        let ghost prev = Seq::new(
            out@.len(),
            |k: int| (out@[k].0@, Seq::new(out@[k].1@.len(), |j: int| out@[k].1@[j]@)),
        );
        if !header_name_valid(h[i].0.as_str()) {
            proof {
                assert(spec_header_map(o, i as int + 1) is None);
                lemma_header_map_none(o, i as int + 1, h@.len() as int);
            }
            return None;
        }
        match &h[i].1 {
            Json::Arr(a) => {
                proof {
                    lemma_arr_view(a@);
                }
                match str_list_from_arr(a) {
                    Some(vs) => {
                        let ghost vsv = Seq::new(vs@.len(), |j: int| vs@[j]@);
                        out.push((h[i].0.clone(), vs));
                        proof {
                            assert(Seq::new(
                                out@.len(),
                                |k: int| (
                                    out@[k].0@,
                                    Seq::new(out@[k].1@.len(), |j: int| out@[k].1@[j]@),
                                ),
                            ) =~= prev.push((o[i as int].0, vsv)));
                        }
                    },
                    None => {
                        proof {
                            assert(spec_header_map(o, i as int + 1) is None);
                            lemma_header_map_none(o, i as int + 1, h@.len() as int);
                        }
                        return None;
                    },
                }
            },
            _ => {
                proof {
                    assert(spec_header_map(o, i as int + 1) is None);
                    lemma_header_map_none(o, i as int + 1, h@.len() as int);
                }
                return None;
            },
        }
        i += 1;
    }
    Some(out)
}

/// The extra inputs of a `Data` object: every field but the excluded
/// one, each a plain string.
pub(crate) fn inputs_from_obj(d: &Vec<(String, Json)>, excl: &str) -> (r: Option<
    Vec<(String, InputBinding)>,
>)
    ensures
        r is Some <==> spec_inputs(obj_view(d@), excl@, d@.len() as int) is Some,
        r matches Some(v) ==> spec_inputs(obj_view(d@), excl@, d@.len() as int) == Some(
            Seq::new(v@.len(), |i: int| (v@[i].0@, v@[i].1@)),
        ),
{
    let excl_owned = excl.to_owned();
    let ghost o = obj_view(d@);
    proof {
        lemma_obj_view(d@);
    }
    let mut out: Vec<(String, InputBinding)> = Vec::new();
    let mut i: usize = 0;
    proof {
        assert(Seq::new(out@.len(), |j: int| (out@[j].0@, out@[j].1@)) =~= Seq::<(
            Seq<char>,
            InputBindingView,
        )>::empty());
    }
    while i < d.len()
        invariant
            i <= d@.len(),
            excl_owned@ == excl@,
            o == obj_view(d@),
            o.len() == d@.len(),
            forall|j: int| 0 <= j < d@.len() ==> o[j] == (d@[j].0@, d@[j].1@),
            spec_inputs(o, excl@, i as int) == Some(
                Seq::new(out@.len(), |j: int| (out@[j].0@, out@[j].1@)),
            ),
        decreases d@.len() - i,
    {
        let ghost prev = Seq::new(out@.len(), |j: int| (out@[j].0@, out@[j].1@));
        if d[i].0 == excl_owned {
            i += 1;
            continue;
        }
        match &d[i].1 {
            Json::Str(s) => {
                out.push((d[i].0.clone(), InputBinding::Blob(s.clone())));
                proof {
                    assert(Seq::new(out@.len(), |j: int| (out@[j].0@, out@[j].1@)) =~= prev.push(
                        (o[i as int].0, InputBindingView::Blob(s@)),
                    ));
                }
            },
            _ => {
                proof {
                    assert(spec_inputs(o, excl@, i as int + 1) is None);
                    lemma_inputs_none(o, excl@, i as int + 1, d@.len() as int);
                }
                return None;
            },
        }
        i += 1;
    }
    Some(out)
}

fn body_from_obj(fields: &Vec<(String, Json)>) -> (r: Option<Option<String>>)
    ensures
        r is Some <==> spec_body_field(obj_view(fields@)) is Some,
        r matches Some(b) ==> spec_body_field(obj_view(fields@)) == Some(
            match b {
                Some(s) => Some(s@),
                None => None::<Seq<char>>,
            },
        ),
{
    match obj_get(fields, "Body") {
        None => Some(None),
        Some(j) => match j {
            Json::Null => Some(None),
            Json::Str(s) => Some(Some(s.clone())),
            _ => None,
        },
    }
}

fn data_request_from_json(j: &Json) -> (res: Option<DataRequest>)
    ensures
        res is Some <==> spec_data_request(j@) is Some,
        res matches Some(d) ==> spec_data_request(j@) == Some(d@),
{
    let fields = match j {
        Json::Obj(f) => f,
        _ => {
            return None;
        },
    };
    let u = match obj_get(fields, "Url") {
        Some(Json::Str(s)) => s,
        _ => {
            return None;
        },
    };
    let m = match obj_get(fields, "Method") {
        Some(Json::Str(s)) => s,
        _ => {
            return None;
        },
    };
    let q = match obj_get(fields, "Query") {
        Some(Json::Obj(o)) => o,
        _ => {
            return None;
        },
    };
    let hh = match obj_get(fields, "Headers") {
        Some(Json::Obj(o)) => o,
        _ => {
            return None;
        },
    };
    proof {
        lemma_obj_view(q@);
        lemma_obj_view(hh@);
    }
    if !url_valid(u.as_str()) {
        return None;
    }
    let method = match method_of(m) {
        Some(x) => x,
        None => {
            return None;
        },
    };
    let query = match str_map_from_obj(q) {
        Some(x) => x,
        None => {
            return None;
        },
    };
    let headers = match header_map_from_obj(hh) {
        Some(x) => x,
        None => {
            return None;
        },
    };
    let body = match body_from_obj(fields) {
        Some(x) => x,
        None => {
            return None;
        },
    };
    Some(DataRequest { url: u.clone(), method, query, headers, body })
}

/// Decode the document as an HTTP trigger payload, if it has that shape.
pub(crate) fn http_from_json(j: &Json) -> (res: Option<HttpPayload>)
    ensures
        res is Some <==> spec_http_payload(j@) is Some,
        res matches Some(p) ==> spec_http_payload(j@) == Some(p@),
{
    let o = match j {
        Json::Obj(f) => f,
        _ => {
            return None;
        },
    };
    let d = match obj_get(o, "Data") {
        Some(Json::Obj(f)) => f,
        _ => {
            return None;
        },
    };
    let m = match obj_get(o, "Metadata") {
        Some(Json::Obj(f)) => f,
        _ => {
            return None;
        },
    };
    proof {
        lemma_obj_view(d@);
    }
    let reqj = match obj_get(d, "req") {
        Some(x) => x,
        None => {
            return None;
        },
    };
    let sys = match sys_from_obj(m) {
        Some(x) => x,
        None => {
            return None;
        },
    };
    let req = match data_request_from_json(reqj) {
        Some(x) => x,
        None => {
            return None;
        },
    };
    let inputs = match inputs_from_obj(d, "req") {
        Some(x) => x,
        None => {
            return None;
        },
    };
    Some(
        HttpPayload {
            data: HttpPayloadData { req, inputs },
            metadata: HttpPayloadMetadata {
                sys: HttpPayloadMetadataSys {
                    method_name: sys.0,
                    utc_now: sys.1,
                    rand_guid: sys.2,
                },
            },
        },
    )
}

} // verus!
