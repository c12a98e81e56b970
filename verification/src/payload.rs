//! The inbound trigger payload: the discriminated union over the trigger
//! shapes the host can send, and the structural decoding that picks the
//! variant.
//!
//! The host's wire format carries no explicit type tag; a document
//! belongs to the first variant, in declared order, whose required fields
//! are all present and well-typed.  That ambiguity resolution is part of
//! the host contract and is preserved here.

use vstd::prelude::*;
use vstd::string::StringExecFns;
use crate::json::{Json, JsonView, spec_obj_get, obj_view, obj_get, json_of, parse_json};
use crate::formats::{is_rfc3339, is_uuid, rfc3339_valid, uuid_valid};
use crate::http::{HttpPayload, HttpPayloadView, spec_http_payload, http_from_json};
use crate::event_hub::{EventHubPayload, EventHubPayloadView, spec_event_hub_payload,
    event_hub_from_json};
use crate::timer::{TimerPayload, TimerPayloadView, spec_timer_payload, timer_from_json};

verus! {

pub enum InputBindingView {
    Blob(Seq<char>),
}

/// An extra input handed to the function alongside the trigger data;
/// the host sends it as a plain string.
pub enum InputBinding {
    Blob(String),
}

impl View for InputBinding {
    type V = InputBindingView;

    open spec fn view(&self) -> InputBindingView {
        match self {
            InputBinding::Blob(s) => InputBindingView::Blob(s@),
        }
    }
}

/// The three fields of the common `sys` metadata object: method name,
/// invocation timestamp and random identifier, in that order.  `None`
/// when the object does not carry them in the required shape.
pub open spec fn spec_sys_fields(m: Seq<(Seq<char>, JsonView)>) -> Option<
    (Seq<char>, Seq<char>, Seq<char>),
> {
    match spec_obj_get(m, "sys"@) {
        Some(JsonView::Obj(s)) => {
            match (
                spec_obj_get(s, "MethodName"@),
                spec_obj_get(s, "UtcNow"@),
                spec_obj_get(s, "RandGuid"@),
            ) {
                (
                    Some(JsonView::Str(mn)),
                    Some(JsonView::Str(un)),
                    Some(JsonView::Str(rg)),
                ) => if is_rfc3339(un) && is_uuid(rg) {
                    Some((mn, un, rg))
                } else {
                    None
                },
                _ => None,
            }
        },
        _ => None,
    }
}

/// Read the common `sys` metadata fields out of a metadata object.
pub(crate) fn sys_from_obj(m: &Vec<(String, Json)>) -> (r: Option<(String, String, String)>)
    ensures
        r is Some <==> spec_sys_fields(obj_view(m@)) is Some,
        r matches Some(t) ==> spec_sys_fields(obj_view(m@)) == Some((t.0@, t.1@, t.2@)),
{
    let sys = match obj_get(m, "sys") {
        Some(Json::Obj(s)) => s,
        _ => {
            return None;
        },
    };
    let mn = match obj_get(sys, "MethodName") {
        Some(Json::Str(s)) => s,
        _ => {
            return None;
        },
    };
    let un = match obj_get(sys, "UtcNow") {
        Some(Json::Str(s)) => s,
        _ => {
            return None;
        },
    };
    let rg = match obj_get(sys, "RandGuid") {
        Some(Json::Str(s)) => s,
        _ => {
            return None;
        },
    };
    if !rfc3339_valid(un.as_str()) {
        return None;
    }
    if !uuid_valid(rg.as_str()) {
        return None;
    }
    Some((mn.clone(), un.clone(), rg.clone()))
}

pub enum FunctionPayloadView {
    HttpData(HttpPayloadView),
    EventHubData(EventHubPayloadView),
    TimerData(TimerPayloadView),
}

impl FunctionPayloadView {
    /// The logical function name, common to every variant.
    pub open spec fn method_name(self) -> Seq<char> {
        match self {
            FunctionPayloadView::HttpData(p) => p.metadata.sys.method_name,
            FunctionPayloadView::EventHubData(p) => p.metadata.sys.method_name,
            FunctionPayloadView::TimerData(p) => p.metadata.sys.method_name,
        }
    }
}

/// One decoded trigger invocation.  Exactly one variant is populated;
/// which one is decided structurally, in this declared order.
pub enum FunctionPayload {
    HttpData(HttpPayload),
    EventHubData(EventHubPayload),
    TimerData(TimerPayload),
}

impl View for FunctionPayload {
    type V = FunctionPayloadView;

    open spec fn view(&self) -> FunctionPayloadView {
        match self {
            FunctionPayload::HttpData(p) => FunctionPayloadView::HttpData(p@),
            FunctionPayload::EventHubData(p) => FunctionPayloadView::EventHubData(p@),
            FunctionPayload::TimerData(p) => FunctionPayloadView::TimerData(p@),
        }
    }
}

/// Why an inbound document was refused.
#[derive(Debug)]
pub struct DecodeError {
    pub message: String,
}

impl View for DecodeError {
    type V = Seq<char>;

    open spec fn view(&self) -> Seq<char> {
        self.message@
    }
}

/// The cause reported when a well-formed document matches no variant.
pub open spec fn spec_no_variant_message() -> Seq<char> {
    "data did not match any variant of untagged enum FunctionPayload"@
}

/// The variant a well-formed document decodes to: the first variant, in
/// declared order, whose required shape the document has; `None` when no
/// variant's shape matches.
pub open spec fn spec_decode_payload(j: JsonView) -> Option<FunctionPayloadView> {
    match spec_http_payload(j) {
        Some(p) => Some(FunctionPayloadView::HttpData(p)),
        None => match spec_event_hub_payload(j) {
            Some(p) => Some(FunctionPayloadView::EventHubData(p)),
            None => match spec_timer_payload(j) {
                Some(p) => Some(FunctionPayloadView::TimerData(p)),
                None => None,
            },
        },
    }
}

/// What decoding the given bytes yields: the decoded payload, or the
/// cause of refusal — the parse error's rendering for ill-formed JSON,
/// the fixed no-variant cause for a document no variant shape matches.
pub open spec fn spec_decode_bytes(bytes: Seq<u8>) -> Result<FunctionPayloadView, Seq<char>> {
    match json_of(bytes) {
        Ok(j) => match spec_decode_payload(j) {
            Some(p) => Ok(p),
            None => Err(spec_no_variant_message()),
        },
        Err(msg) => Err(msg),
    }
}

impl FunctionPayload {
    /// Decode one inbound document.  Succeeds exactly when the bytes
    /// parse as JSON and some variant's shape matches; the error
    /// otherwise names the cause.
    pub fn from_payload(payload: &Vec<u8>) -> (r: Result<FunctionPayload, DecodeError>)
        ensures
            match spec_decode_bytes(payload@) {
                Ok(pv) => r matches Ok(p) && p@ == pv,
                Err(msg) => r matches Err(e) && e@ == msg,
            },
    {
        let j = match parse_json(payload.as_slice()) {
            Ok(j) => j,
            Err(message) => {
                return Err(DecodeError { message });
            },
        };
        if let Some(p) = http_from_json(&j) {
            return Ok(FunctionPayload::HttpData(p));
        }
        if let Some(p) = event_hub_from_json(&j) {
            return Ok(FunctionPayload::EventHubData(p));
        }
        if let Some(p) = timer_from_json(&j) {
            return Ok(FunctionPayload::TimerData(p));
        }
        Err(
            DecodeError {
                message: String::from_str(
                    "data did not match any variant of untagged enum FunctionPayload",
                ),
            },
        )
    }

    /// The logical function name the host assigned to this invocation.
    pub fn method_name(&self) -> (r: &str)
        ensures
            r@ == self@.method_name(),
    {
        match self {
            FunctionPayload::HttpData(p) => p.method_name(),
            FunctionPayload::EventHubData(p) => p.method_name(),
            FunctionPayload::TimerData(p) => p.method_name(),
        }
    }
}

/// What a type decodable from an inbound document offers.  The
/// contracts live on the concrete types.
pub trait FromPayload where Self: Sized {
    fn from_payload(payload: &Vec<u8>) -> Result<Self, DecodeError>;

    fn method_name(&self) -> String;
}

impl FromPayload for HttpPayload {
    fn from_payload(payload: &Vec<u8>) -> Result<HttpPayload, DecodeError> {
        match FunctionPayload::from_payload(payload) {
            Ok(FunctionPayload::HttpData(p)) => Ok(p),
            Ok(_) => Err(
                DecodeError {
                    message: String::from_str(
                        "data did not match any variant of untagged enum FunctionPayload",
                    ),
                },
            ),
            Err(e) => Err(e),
        }
    }

    fn method_name(&self) -> String {
        self.metadata.sys.method_name.clone()
    }
}

impl FromPayload for FunctionPayload {
    fn from_payload(payload: &Vec<u8>) -> Result<FunctionPayload, DecodeError> {
        FunctionPayload::from_payload(payload)
    }

    fn method_name(&self) -> String {
        let name: &str = FunctionPayload::method_name(self);
        name.to_owned()
    }
}

} // verus!
