//! Trigger declarations: which event source invokes a function.

use vstd::prelude::*;
use crate::http::HttpMethod;
use self::http::HttpTriggerParams;

pub mod event_hub;
pub mod http;

verus! {

/// The event source category of one declared function.
pub enum Trigger {
    Http(HttpTriggerParams),
    EventHub(),
    Timer(),
}

impl Trigger {
    /// An HTTP trigger on the given route and methods.
    pub fn http(route: String, methods: Vec<HttpMethod>) -> (r: Self)
        ensures
            r matches Trigger::Http(p) && p@.route == route@ && p@.methods == methods@,
    {
        let param = HttpTriggerParams { route, methods };
        Trigger::Http(param)
    }
}

} // verus!
