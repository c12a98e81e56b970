//! Parameters of an HTTP trigger declaration.

use vstd::prelude::*;
use crate::http::HttpMethod;

verus! {

pub struct HttpTriggerParamsView {
    pub route: Seq<char>,
    pub methods: Seq<HttpMethod>,
}

/// Route and methods of one HTTP trigger declaration.
pub struct HttpTriggerParams {
    pub route: String,
    pub methods: Vec<HttpMethod>,
}

impl View for HttpTriggerParams {
    type V = HttpTriggerParamsView;

    open spec fn view(&self) -> HttpTriggerParamsView {
        HttpTriggerParamsView { route: self.route@, methods: self.methods@ }
    }
}

impl HttpTriggerParams {
    pub fn new(route: String, methods: Vec<HttpMethod>) -> (r: Self)
        ensures
            r@.route == route@,
            r@.methods == methods@,
    {
        HttpTriggerParams { route, methods }
    }
}

} // verus!
