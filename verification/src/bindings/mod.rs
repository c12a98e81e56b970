//! Declarative trigger bindings, carried opaquely per registered
//! function and handed to the external descriptor generator.

use vstd::prelude::*;
use crate::http::HttpMethod;
use self::http::HttpBindingParams;

pub mod http;

verus! {

/// The binding of one registered function to its trigger.
pub enum InputBinding {
    Http(HttpBindingParams),
    EventHub(),
    Timer(),
}

impl InputBinding {
    /// An HTTP binding on the given route and methods.
    pub fn http(route: String, methods: Vec<HttpMethod>) -> (r: Self)
        ensures
            r matches InputBinding::Http(p) && p@.route == route@ && p@.methods == methods@,
    {
        let param = HttpBindingParams { route, methods };
        InputBinding::Http(param)
    }
}

} // verus!
