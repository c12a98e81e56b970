//! The event-hub trigger payload: the event body, the hub's delivery
//! metadata and the common invocation metadata, and the structural
//! decoding of all three.

use vstd::prelude::*;
use crate::json::{Json, JsonView, spec_obj_get, obj_get};
use crate::formats::{is_iso8601, iso8601_valid};
use crate::payload::{spec_sys_fields, sys_from_obj};

verus! {

pub struct EventHubPayloadMetadataSysView {
    pub method_name: Seq<char>,
    pub utc_now: Seq<char>,
    pub rand_guid: Seq<char>,
}

/// The common invocation metadata of an event-hub invocation.
pub struct EventHubPayloadMetadataSys {
    pub method_name: String,
    pub utc_now: String,
    pub rand_guid: String,
}

impl View for EventHubPayloadMetadataSys {
    type V = EventHubPayloadMetadataSysView;

    open spec fn view(&self) -> EventHubPayloadMetadataSysView {
        EventHubPayloadMetadataSysView {
            method_name: self.method_name@,
            utc_now: self.utc_now@,
            rand_guid: self.rand_guid@,
        }
    }
}

pub struct EventHubPayloadMetadataView {
    pub offset: Seq<char>,
    pub sequence_number: Seq<char>,
    pub enqueued_time_utc: Seq<char>,
    pub sys: EventHubPayloadMetadataSysView,
}

/// The hub's delivery metadata: stream offset, sequence number and the
/// enqueue time as ISO 8601 text, plus the common invocation metadata.
pub struct EventHubPayloadMetadata {
    pub offset: String,
    pub sequence_number: String,
    pub enqueued_time_utc: String,
    pub sys: EventHubPayloadMetadataSys,
}

impl View for EventHubPayloadMetadata {
    type V = EventHubPayloadMetadataView;

    open spec fn view(&self) -> EventHubPayloadMetadataView {
        EventHubPayloadMetadataView {
            offset: self.offset@,
            sequence_number: self.sequence_number@,
            enqueued_time_utc: self.enqueued_time_utc@,
            sys: self.sys@,
        }
    }
}

pub struct EventHubPayloadView {
    pub data: Seq<char>,
    pub metadata: EventHubPayloadMetadataView,
}

/// One event-hub trigger invocation as decoded from the wire.
pub struct EventHubPayload {
    pub data: String,
    pub metadata: EventHubPayloadMetadata,
}

impl View for EventHubPayload {
    type V = EventHubPayloadView;

    open spec fn view(&self) -> EventHubPayloadView {
        EventHubPayloadView { data: self.data@, metadata: self.metadata@ }
    }
}

impl EventHubPayload {
    /// The logical function name the host assigned to this invocation.
    pub fn method_name(&self) -> (r: &str)
        ensures
            r@ == self@.metadata.sys.method_name,
    {
        self.metadata.sys.method_name.as_str()
    }
}

/// The whole event-hub payload, decoded from the document: `None` when
/// the document does not have the event-hub trigger shape.
pub open spec fn spec_event_hub_payload(j: JsonView) -> Option<EventHubPayloadView> {
    match j {
        JsonView::Obj(o) => {
            match (spec_obj_get(o, "Data"@), spec_obj_get(o, "Metadata"@)) {
                (Some(JsonView::Str(data)), Some(JsonView::Obj(m))) => {
                    match (
                        spec_obj_get(m, "Offset"@),
                        spec_obj_get(m, "SequenceNumber"@),
                        spec_obj_get(m, "EnqueuedTimeUtc"@),
                        spec_sys_fields(m),
                    ) {
                        (
                            Some(JsonView::Str(off)),
                            Some(JsonView::Str(seqno)),
                            Some(JsonView::Str(enq)),
                            Some(sys),
                        ) => if is_iso8601(enq) {
                            Some(
                                EventHubPayloadView {
                                    data,
                                    metadata: EventHubPayloadMetadataView {
                                        offset: off,
                                        sequence_number: seqno,
                                        enqueued_time_utc: enq,
                                        sys: EventHubPayloadMetadataSysView {
                                            method_name: sys.0,
                                            utc_now: sys.1,
                                            rand_guid: sys.2,
                                        },
                                    },
                                },
                            )
                        } else {
                            None
                        },
                        _ => None,
                    }
                },
                _ => None,
            }
        },
        _ => None,
    }
}

/// Decode the document as an event-hub trigger payload, if it has that
/// shape.
pub(crate) fn event_hub_from_json(j: &Json) -> (res: Option<EventHubPayload>)
    ensures
        res is Some <==> spec_event_hub_payload(j@) is Some,
        res matches Some(p) ==> spec_event_hub_payload(j@) == Some(p@),
{
    let o = match j {
        Json::Obj(f) => f,
        _ => {
            return None;
        },
    };
    let data = match obj_get(o, "Data") {
        Some(Json::Str(s)) => s,
        _ => {
            return None;
        },
    };
    let m = match obj_get(o, "Metadata") {
        Some(Json::Obj(f)) => f,
        _ => {
            return None;
        },
    };
    let off = match obj_get(m, "Offset") {
        Some(Json::Str(s)) => s,
        _ => {
            return None;
        },
    };
    let seqno = match obj_get(m, "SequenceNumber") {
        Some(Json::Str(s)) => s,
        _ => {
            return None;
        },
    };
    let enq = match obj_get(m, "EnqueuedTimeUtc") {
        Some(Json::Str(s)) => s,
        _ => {
            return None;
        },
    };
    let sys = match sys_from_obj(m) {
        Some(x) => x,
        None => {
            return None;
        },
    };
    if !iso8601_valid(enq.as_str()) {
        return None;
    }
    Some(
        EventHubPayload {
            data: data.clone(),
            metadata: EventHubPayloadMetadata {
                offset: off.clone(),
                sequence_number: seqno.clone(),
                enqueued_time_utc: enq.clone(),
                sys: EventHubPayloadMetadataSys {
                    method_name: sys.0,
                    utc_now: sys.1,
                    rand_guid: sys.2,
                },
            },
        },
    )
}

} // verus!
