//! Runtime for functions driven by an external execution host: decodes
//! inbound trigger payloads, routes each invocation to a registered handler,
//! captures the diagnostic events the handler emits, and encodes the
//! structured response envelope the host expects.
//!
//! One invocation runs decode, dispatch, handler execution and encode;
//! the surrounding connection handling lives outside this crate and
//! hands each request body in as plain bytes.

pub mod bindings;
pub mod custom_tracing;
pub mod event_hub;
pub mod formats;
pub mod http;
pub mod payload;
pub mod json;
pub mod response;
pub mod timer;
pub mod triggers;
mod strbuild;

use vstd::prelude::*;
use vstd::string::StringExecFns;
use crate::bindings::InputBinding;
use crate::custom_tracing::{CustomLayer, Level};
use crate::payload::{FunctionPayload, spec_decode_bytes};
use crate::response::{FunctionsResponse, FunctionsResponseView, FunctionsOutputView,
    FunctionsResponseDataView, HttpStatusCode, spec_encode_response};

verus! {

/// What a registered handler offers: one invocation against the shared
/// environment, with the invocation's own diagnostic sink.  What a
/// handler computes is its own business; the runtime promises nothing
/// of its result.
pub trait FunctionHandler<S> {
    fn call_with_state(
        &self,
        payload: &FunctionPayload,
        state: &S,
        sink: &mut CustomLayer,
    ) -> Result<FunctionsResponse, String>;
}

/// The envelope returned when a payload names a method nobody
/// registered: a fixed not-found body under the not-found logical
/// status, with no logs; no handler runs.
pub open spec fn spec_not_found() -> FunctionsResponseView {
    FunctionsResponseView {
        outputs: FunctionsOutputView {
            res: FunctionsResponseDataView {
                body: "path not found"@,
                status_code: HttpStatusCode::NotFound,
                headers: Seq::<(Seq<char>, Seq<char>)>::empty(),
            },
        },
        logs: Seq::<Seq<char>>::empty(),
    }
}

/// The generic body used whenever a failure must not leak its detail
/// into the primary response; the detail goes to the logs instead.
pub open spec fn spec_generic_failure_message() -> Seq<char> {
    "An error occurred while processing the request, check the log for a detailed error message."@
}

/// The envelope assembled after a handler ran: on success the handler's
/// own outputs are authoritative and the captured logs are attached; on
/// failure the body is the generic message under the bad-request
/// logical status, and the logs are the captured lines with the failure
/// cause appended last.
pub open spec fn spec_assemble(
    hr: Result<FunctionsResponseView, Seq<char>>,
    logs: Seq<Seq<char>>,
) -> FunctionsResponseView {
    match hr {
        Ok(resp) => FunctionsResponseView { outputs: resp.outputs, logs },
        Err(cause) => FunctionsResponseView {
            outputs: FunctionsOutputView {
                res: FunctionsResponseDataView {
                    body: spec_generic_failure_message(),
                    status_code: HttpStatusCode::BadRequest,
                    headers: Seq::<(Seq<char>, Seq<char>)>::empty(),
                },
            },
            logs: logs.push(cause),
        },
    }
}

/// The envelope returned when the request body cannot be decoded: the
/// generic body under the bad-request logical status, and exactly one
/// log line, the decode failure's cause.
pub open spec fn spec_decode_failure(cause: Seq<char>) -> FunctionsResponseView {
    FunctionsResponseView {
        outputs: FunctionsOutputView {
            res: FunctionsResponseDataView {
                body: spec_generic_failure_message(),
                status_code: HttpStatusCode::BadRequest,
                headers: Seq::<(Seq<char>, Seq<char>)>::empty(),
            },
        },
        logs: seq![cause],
    }
}

/// A successful handler's declared output is authoritative: assembling
/// it changes no part of the outputs and attaches exactly the captured
/// log lines, in order.
pub proof fn lemma_success_keeps_handler_output(
    resp: FunctionsResponseView,
    logs: Seq<Seq<char>>,
)
    ensures
        spec_assemble(Ok(resp), logs).outputs == resp.outputs,
        spec_assemble(Ok(resp), logs).logs == logs,
{
}

/// A failed handler's envelope never carries the failure detail in its
/// body: the body is the generic message, and the logs are exactly the
/// captured lines followed by the cause as the final line.
pub proof fn lemma_failure_envelope(cause: Seq<char>, logs: Seq<Seq<char>>)
    ensures
        spec_assemble(Err(cause), logs).outputs.res.body == spec_generic_failure_message(),
        spec_assemble(Err(cause), logs).outputs.res.status_code == HttpStatusCode::BadRequest,
        spec_assemble(Err(cause), logs).logs == logs.push(cause),
        spec_assemble(Err(cause), logs).logs.len() == logs.len() + 1,
{
}

/// A decode failure's envelope always carries a non-empty log: exactly
/// one line, the decode failure's cause.
pub proof fn lemma_decode_failure_logs(cause: Seq<char>)
    ensures
        spec_decode_failure(cause).logs =~= seq![cause],
        spec_decode_failure(cause).logs.len() == 1,
        spec_decode_failure(cause).outputs.res.body == spec_generic_failure_message(),
{
}

/// The fixed not-found envelope.
pub fn not_found_response() -> (r: FunctionsResponse)
    ensures
        r@ == spec_not_found(),
{
    let r = FunctionsResponse::http(HttpStatusCode::NotFound).body(
        String::from_str("path not found"),
    );
    proof {
        assert(r@ =~= spec_not_found());
    }
    r
}

/// The envelope for a request whose body could not be decoded: generic
/// body, bad-request logical status, and the cause as the only log
/// line.
pub fn decode_failure_response(cause: String) -> (r: FunctionsResponse)
    ensures
        r@ == spec_decode_failure(cause@),
{
    let mut r = FunctionsResponse::default().body(
        String::from_str(
            "An error occurred while processing the request, check the log for a detailed error message.",
        ),
    );
    r.logs.push(cause);
    proof {
        assert(r@ =~= spec_decode_failure(cause@));
    }
    r
}

/// Assemble the envelope for a finished handler: its own envelope with
/// the captured logs attached on success, the generic failure envelope
/// with the cause as the final log line otherwise.
pub fn assemble_response(hr: Result<FunctionsResponse, String>, logs: Vec<String>) -> (r:
    FunctionsResponse)
    ensures
        r@ == spec_assemble(
            match hr {
                Ok(resp) => Ok(resp@),
                Err(e) => Err(e@),
            },
            Seq::new(logs@.len(), |i: int| logs@[i]@),
        ),
{
    let ghost logsv = Seq::new(logs@.len(), |i: int| logs@[i]@);
    match hr {
        Ok(resp) => {
            let ghost respv = resp@;
            let mut out = resp;
            out.logs = logs;
            proof {
                assert(out@ =~= spec_assemble(Ok(respv), logsv));
            }
            out
        },
        Err(e) => {
            let ghost ev = e@;
            let mut out = FunctionsResponse::default().body(
                String::from_str(
                    "An error occurred while processing the request, check the log for a detailed error message.",
                ),
            );
            out.logs = logs;
            out.logs.push(e);
            proof {
                assert(out@ =~= spec_assemble(Err(ev), logsv));
            }
            out
        },
    }
}

/// The handler registered under the given name: names are unique in the
/// registry, so the first entry carrying the name is the one.
pub open spec fn spec_lookup<H>(
    fs: Seq<(Seq<char>, H, InputBinding)>,
    name: Seq<char>,
) -> Option<H>
    decreases fs.len(),
{
    if fs.len() == 0 {
        None
    } else if fs[0].0 == name {
        Some(fs[0].1)
    } else {
        spec_lookup(fs.drop_first(), name)
    }
}

proof fn lemma_lookup_at<H>(fs: Seq<(Seq<char>, H, InputBinding)>, name: Seq<char>, i: int)
    requires
        0 <= i < fs.len(),
        fs[i].0 == name,
        forall|j: int| 0 <= j < i ==> fs[j].0 != name,
    ensures
        spec_lookup(fs, name) == Some(fs[i].1),
    decreases i,
{
    if i > 0 {
        lemma_lookup_at(fs.drop_first(), name, i - 1);
    }
}

proof fn lemma_lookup_none<H>(fs: Seq<(Seq<char>, H, InputBinding)>, name: Seq<char>)
    requires
        forall|j: int| 0 <= j < fs.len() ==> fs[j].0 != name,
    ensures
        spec_lookup(fs, name) is None,
    decreases fs.len(),
{
    if fs.len() > 0 {
        lemma_lookup_none(fs.drop_first(), name);
    }
}

/// Register under a name: replace the entry carrying that exact name in
/// place, else append; so names stay unique and a later registration
/// under the same name replaces the earlier one.
pub open spec fn spec_register<H>(
    fs: Seq<(Seq<char>, H, InputBinding)>,
    name: Seq<char>,
    h: H,
    b: InputBinding,
) -> Seq<(Seq<char>, H, InputBinding)>
    decreases fs.len(),
{
    if fs.len() == 0 {
        seq![(name, h, b)]
    } else if fs[0].0 == name {
        seq![(name, h, b)] + fs.drop_first()
    } else {
        seq![fs[0]] + spec_register(fs.drop_first(), name, h, b)
    }
}

proof fn lemma_register_found<H>(
    fs: Seq<(Seq<char>, H, InputBinding)>,
    name: Seq<char>,
    h: H,
    b: InputBinding,
    i: int,
)
    requires
        0 <= i < fs.len(),
        fs[i].0 == name,
        forall|j: int| 0 <= j < i ==> fs[j].0 != name,
    ensures
        spec_register(fs, name, h, b) =~= fs.update(i, (name, h, b)),
    decreases fs.len(),
{
    if i == 0 {
        assert(seq![(name, h, b)] + fs.drop_first() =~= fs.update(0, (name, h, b)));
    } else {
        lemma_register_found(fs.drop_first(), name, h, b, i - 1);
        assert(fs.drop_first().update(i - 1, (name, h, b)) =~= fs.update(
            i,
            (name, h, b),
        ).drop_first());
        assert(seq![fs[0]] + fs.update(i, (name, h, b)).drop_first() =~= fs.update(
            i,
            (name, h, b),
        ));
    }
}

proof fn lemma_register_missing<H>(
    fs: Seq<(Seq<char>, H, InputBinding)>,
    name: Seq<char>,
    h: H,
    b: InputBinding,
)
    requires
        forall|j: int| 0 <= j < fs.len() ==> fs[j].0 != name,
    ensures
        spec_register(fs, name, h, b) =~= fs.push((name, h, b)),
    decreases fs.len(),
{
    if fs.len() > 0 {
        lemma_register_missing(fs.drop_first(), name, h, b);
        assert(seq![fs[0]] + fs.drop_first().push((name, h, b)) =~= fs.push((name, h, b)));
    }
}

/// The method names and descriptor documents of the HTTP-bound entries
/// among the first `n` registry entries, in order.
pub open spec fn spec_descriptors<H>(
    fs: Seq<(Seq<char>, H, InputBinding)>,
    n: int,
) -> Seq<(Seq<char>, Seq<char>)>
    decreases n,
{
    if n <= 0 {
        Seq::empty()
    } else {
        spec_descriptors(fs, n - 1) + (match fs[n - 1].2 {
            InputBinding::Http(p) => seq![
                (fs[n - 1].0, crate::bindings::http::spec_descriptor(p@.route)),
            ],
            _ => Seq::<(Seq<char>, Seq<char>)>::empty(),
        })
    }
}

/// Registering a handler under a name makes lookup under that name find
/// exactly that handler, whatever was registered before.
pub proof fn lemma_register_then_lookup<H>(
    fs: Seq<(Seq<char>, H, InputBinding)>,
    name: Seq<char>,
    h: H,
    b: InputBinding,
)
    ensures
        spec_lookup(spec_register(fs, name, h, b), name) == Some(h),
    decreases fs.len(),
{
    if fs.len() == 0 {
        assert(spec_register(fs, name, h, b)[0] == (name, h, b));
    } else if fs[0].0 == name {
        assert(spec_register(fs, name, h, b)[0] == (name, h, b));
    } else {
        lemma_register_then_lookup(fs.drop_first(), name, h, b);
        assert(spec_register(fs, name, h, b)[0] == fs[0]);
        assert(spec_register(fs, name, h, b).drop_first() =~= spec_register(
            fs.drop_first(),
            name,
            h,
            b,
        ));
    }
}

/// Registering under one name changes no other name's lookup.
pub proof fn lemma_register_keeps_other_names<H>(
    fs: Seq<(Seq<char>, H, InputBinding)>,
    name: Seq<char>,
    h: H,
    b: InputBinding,
    other: Seq<char>,
)
    requires
        other != name,
    ensures
        spec_lookup(spec_register(fs, name, h, b), other) == spec_lookup(fs, other),
    decreases fs.len(),
{
    if fs.len() == 0 {
        assert(spec_register(fs, name, h, b)[0] == (name, h, b));
        assert(spec_register(fs, name, h, b).drop_first() =~= Seq::<(
            Seq<char>,
            H,
            InputBinding,
        )>::empty());
        assert(spec_lookup(Seq::<(Seq<char>, H, InputBinding)>::empty(), other) is None);
        assert(spec_lookup(spec_register(fs, name, h, b), other) is None);
    } else if fs[0].0 == name {
        assert(spec_register(fs, name, h, b)[0] == (name, h, b));
        assert(spec_register(fs, name, h, b).drop_first() =~= fs.drop_first());
        assert(spec_lookup(spec_register(fs, name, h, b), other) == spec_lookup(
            fs.drop_first(),
            other,
        ));
        assert(spec_lookup(fs, other) == spec_lookup(fs.drop_first(), other));
    } else {
        lemma_register_keeps_other_names(fs.drop_first(), name, h, b, other);
        assert(spec_register(fs, name, h, b)[0] == fs[0]);
        assert(spec_register(fs, name, h, b).drop_first() =~= spec_register(
            fs.drop_first(),
            name,
            h,
            b,
        ));
        if fs[0].0 == other {
            assert(spec_lookup(spec_register(fs, name, h, b), other) == Some(fs[0].1));
            assert(spec_lookup(fs, other) == Some(fs[0].1));
        } else {
            assert(spec_lookup(spec_register(fs, name, h, b), other) == spec_lookup(
                spec_register(fs.drop_first(), name, h, b),
                other,
            ));
            assert(spec_lookup(fs, other) == spec_lookup(fs.drop_first(), other));
        }
    }
}

/// The runtime: the registry of handlers, keyed by method name, and the
/// shared environment handed to each invocation.  Registration is a
/// consuming builder step, so nothing can register once serving holds
/// the runtime; serving only reads.
pub struct Worker<S, H> {
    functions: Vec<(String, H, InputBinding)>,
    env: S,
}

impl<S, H> Worker<S, H> {
    /// The registry's contents: name, handler and binding of each
    /// registered function, in registration order.
    pub closed spec fn functions_view(&self) -> Seq<(Seq<char>, H, InputBinding)> {
        Seq::new(
            self.functions@.len(),
            |i: int| (self.functions@[i].0@, self.functions@[i].1, self.functions@[i].2),
        )
    }

    /// The shared environment.
    pub closed spec fn env_view(&self) -> S {
        self.env
    }

    /// A runtime with no registered functions.
    pub fn new(env: S) -> (r: Self)
        ensures
            r.functions_view() == Seq::<(Seq<char>, H, InputBinding)>::empty(),
            r.env_view() == env,
    {
        let r = Worker { functions: Vec::new(), env };
        proof {
            assert(r.functions_view() =~= Seq::<(Seq<char>, H, InputBinding)>::empty());
        }
        r
    }

    /// Register a handler under a method name, with its declarative
    /// binding; a later registration under the same name replaces the
    /// earlier one.
    pub fn trigger(self, name: String, handler: H, binding: InputBinding) -> (r: Self)
        ensures
            r.functions_view() == spec_register(
                self.functions_view(),
                name@,
                handler,
                binding,
            ),
            r.env_view() == self.env_view(),
    {
        let ghost orig = self.functions_view();
        let mut this = self;
        let n = this.functions.len();
        let mut idx: usize = n;
        let mut i: usize = 0;
        while i < n
            invariant
                i <= n,
                n == this.functions@.len(),
                orig == this.functions_view(),
                idx == n || (idx < i && orig[idx as int].0 == name@ && forall|j: int|
                    0 <= j < idx ==> orig[j].0 != name@),
                idx == n ==> forall|j: int| 0 <= j < i ==> orig[j].0 != name@,
            decreases n - i,
        {
            if idx == n && this.functions[i].0 == name {
                idx = i;
            }
            i += 1;
        }
        if idx < this.functions.len() {
            let ghost origv = this.functions@;
            this.functions.remove(idx);
            this.functions.insert(idx, (name, handler, binding));
            proof {
                assert(this.functions@ =~= origv.update(idx as int, (name, handler, binding)));
                lemma_register_found(orig, name@, handler, binding, idx as int);
                assert(this.functions_view() =~= spec_register(orig, name@, handler, binding));
            }
        } else {
            this.functions.push((name, handler, binding));
            proof {
                lemma_register_missing(orig, name@, handler, binding);
                assert(this.functions_view() =~= spec_register(orig, name@, handler, binding));
            }
        }
        this
    }

    /// The handler registered under the given name, if any.
    fn lookup(&self, name: &str) -> (r: Option<&H>)
        ensures
            match r {
                Some(h) => spec_lookup(self.functions_view(), name@) == Some(*h),
                None => spec_lookup(self.functions_view(), name@) is None,
            },
    {
        let ghost fs = self.functions_view();
        let name_owned = name.to_owned();
        let mut i: usize = 0;
        while i < self.functions.len()
            invariant
                i <= self.functions@.len(),
                fs == self.functions_view(),
                name_owned@ == name@,
                forall|j: int| 0 <= j < i ==> fs[j].0 != name@,
            decreases self.functions@.len() - i,
        {
            if self.functions[i].0 == name_owned {
                proof {
                    lemma_lookup_at(fs, name@, i as int);
                }
                return Some(&self.functions[i].1);
            }
            i += 1;
        }
        proof {
            lemma_lookup_none(fs, name@);
        }
        None
    }

    /// The registered method names and the descriptor documents of
    /// their HTTP bindings, in registration order, for the external
    /// generator; functions bound to other triggers have no descriptor
    /// and are skipped.
    pub fn binding_descriptors(&self) -> (r: Vec<(String, String)>)
        ensures
            Seq::new(r@.len(), |i: int| (r@[i].0@, r@[i].1@)) == spec_descriptors(
                self.functions_view(),
                self.functions_view().len() as int,
            ),
    {
        let ghost fs = self.functions_view();
        let mut out: Vec<(String, String)> = Vec::new();
        let mut i: usize = 0;
        proof {
            assert(Seq::new(out@.len(), |k: int| (out@[k].0@, out@[k].1@)) =~= Seq::<(
                Seq<char>,
                Seq<char>,
            )>::empty());
        }
        while i < self.functions.len()
            invariant
                i <= self.functions@.len(),
                fs == self.functions_view(),
                fs.len() == self.functions@.len(),
                Seq::new(out@.len(), |k: int| (out@[k].0@, out@[k].1@)) == spec_descriptors(
                    fs,
                    i as int,
                ),
            decreases self.functions@.len() - i,
        {
            let ghost prev = Seq::new(out@.len(), |k: int| (out@[k].0@, out@[k].1@));
            match &self.functions[i].2 {
                InputBinding::Http(params) => {
                    let name = self.functions[i].0.clone();
                    let json = params.descriptor_json();
                    out.push((name, json));
                    proof {
                        assert(Seq::new(out@.len(), |k: int| (out@[k].0@, out@[k].1@)) =~= prev
                            + seq![(fs[i as int].0, crate::bindings::http::spec_descriptor(params@.route))]);
                        assert(Seq::new(out@.len(), |k: int| (out@[k].0@, out@[k].1@))
                            =~= spec_descriptors(fs, i as int + 1));
                    }
                },
                _ => {
                    proof {
                        assert(prev + Seq::<(Seq<char>, Seq<char>)>::empty() =~= prev);
                    }
                },
            }
            i += 1;
        }
        out
    }
}

impl<S, H: FunctionHandler<S>> Worker<S, H> {
    /// Route one decoded payload: look its method name up; if nobody
    /// registered it, return the fixed not-found envelope without
    /// running any handler.  Otherwise run exactly that handler against
    /// the shared environment with a fresh diagnostic sink, and
    /// assemble the envelope from the handler's result and the captured
    /// logs.
    pub fn dispatch(&self, payload: &FunctionPayload) -> (r: FunctionsResponse)
        ensures
            spec_lookup(self.functions_view(), payload@.method_name()) is None ==> r@
                == spec_not_found(),
            spec_lookup(self.functions_view(), payload@.method_name()) is Some ==> exists|
                hr: Result<FunctionsResponseView, Seq<char>>,
                logs: Seq<Seq<char>>,
            |
                r@ == spec_assemble(hr, logs),
    {
        let name = payload.method_name();
        let handler = match self.lookup(name) {
            Some(h) => h,
            None => {
                return not_found_response();
            },
        };
        let mut sink = CustomLayer::new(Level::Info);
        let hr = handler.call_with_state(payload, &self.env, &mut sink);
        let ghost hrv: Result<FunctionsResponseView, Seq<char>> = match hr {
            Ok(ref resp) => Ok(resp@),
            Err(ref e) => Err(e@),
        };
        let logs = sink.get();
        let ghost logsv = Seq::new(logs@.len(), |i: int| logs@[i]@);
        let out = assemble_response(hr, logs);
        proof {
            assert(out@ == spec_assemble(hrv, logsv));
        }
        out
    }

    /// Serve one request body: decode it, dispatch, and encode the
    /// envelope.  A body that cannot be decoded yields the decode
    /// failure envelope with the cause in its logs; an unregistered
    /// method yields the not-found envelope; otherwise the envelope
    /// assembled around the registered handler's result.  Every path
    /// returns a well-formed serialized envelope.
    pub fn handle_request(&self, body: &Vec<u8>) -> (r: String)
        ensures
            match spec_decode_bytes(body@) {
                Ok(pv) => {
                    if spec_lookup(self.functions_view(), pv.method_name()) is None {
                        r@ == spec_encode_response(spec_not_found())
                    } else {
                        exists|hr: Result<FunctionsResponseView, Seq<char>>, logs: Seq<Seq<char>>|
                            r@ == spec_encode_response(spec_assemble(hr, logs))
                    }
                },
                Err(cause) => r@ == spec_encode_response(spec_decode_failure(cause)),
            },
    {
        let payload = match FunctionPayload::from_payload(body) {
            Ok(p) => p,
            Err(e) => {
                return decode_failure_response(e.message).encode();
            },
        };
        let resp = self.dispatch(&payload);
        resp.encode()
    }
}

} // verus!
