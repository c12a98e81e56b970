//! The declarative binding of an HTTP-triggered function: the route and
//! methods the host should invoke it on, and the descriptor document the
//! external generator writes to disk for it.

use vstd::prelude::*;
use vstd::string::StringExecFns;
use crate::http::HttpMethod;

verus! {

pub struct HttpBindingParamsView {
    pub route: Seq<char>,
    pub methods: Seq<HttpMethod>,
}

/// Route and methods of one HTTP-triggered function.
pub struct HttpBindingParams {
    pub route: String,
    pub methods: Vec<HttpMethod>,
}

impl View for HttpBindingParams {
    type V = HttpBindingParamsView;

    open spec fn view(&self) -> HttpBindingParamsView {
        HttpBindingParamsView { route: self.route@, methods: self.methods@ }
    }
}

/// The descriptor document for the given route, exactly as the external
/// generator expects it; the route text is inserted as it stands.
pub open spec fn spec_descriptor(route: Seq<char>) -> Seq<char> {
    "{\"bindings\":[{\"authLevel\":\"anonymous\",\"type\":\"httpTrigger\",\"direction\":\"in\",\"route\":\""@
        + route
        + "\",\"name\":\"req\",\"methods\":[\"get\",\"post\",\"patch\"]},{\"type\": \"http\",\"direction\": \"out\",\"name\": \"res\"}]}"@
}

impl HttpBindingParams {
    pub fn new(route: String, methods: Vec<HttpMethod>) -> (r: Self)
        ensures
            r@.route == route@,
            r@.methods == methods@,
    {
        HttpBindingParams { route, methods }
    }

    /// The descriptor document the external generator writes for this
    /// binding.
    pub fn descriptor_json(&self) -> (r: String)
        ensures
            r@ == spec_descriptor(self@.route),
    {
        let mut out = String::new();
        out.append(
            "{\"bindings\":[{\"authLevel\":\"anonymous\",\"type\":\"httpTrigger\",\"direction\":\"in\",\"route\":\"",
        );
        out.append(self.route.as_str());
        out.append(
            "\",\"name\":\"req\",\"methods\":[\"get\",\"post\",\"patch\"]},{\"type\": \"http\",\"direction\": \"out\",\"name\": \"res\"}]}",
        );
        out
    }
}

} // verus!
