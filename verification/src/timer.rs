//! The timer trigger payload: schedule data and the common invocation
//! metadata, and the structural decoding of both.

use vstd::prelude::*;
use crate::json::{Json, JsonView, spec_obj_get, obj_view, obj_get, lemma_obj_view};
use crate::formats::{is_rfc3339, rfc3339_valid};
use crate::payload::{InputBinding, InputBindingView, spec_sys_fields, sys_from_obj};
use crate::http::{spec_inputs, inputs_from_obj};

verus! {

pub struct TimerPayloadDataScheduleView {
    pub adjust_for_dst: bool,
}

/// The schedule the timer fires on, as far as the runtime reads it.
pub struct TimerPayloadDataSchedule {
    pub adjust_for_dst: bool,
}

impl View for TimerPayloadDataSchedule {
    type V = TimerPayloadDataScheduleView;

    open spec fn view(&self) -> TimerPayloadDataScheduleView {
        TimerPayloadDataScheduleView { adjust_for_dst: self.adjust_for_dst }
    }
}

pub struct TimerPayloadDataScheduleStatusView {
    pub last: Option<Seq<char>>,
    pub next: Seq<char>,
    pub last_updated: Option<Seq<char>>,
}

/// The last, next and last-updated firing times; the optional ones may
/// be sent as `null`.  All are RFC 3339 texts.
pub struct TimerPayloadDataScheduleStatus {
    pub last: Option<String>,
    pub next: String,
    pub last_updated: Option<String>,
}

impl View for TimerPayloadDataScheduleStatus {
    type V = TimerPayloadDataScheduleStatusView;

    open spec fn view(&self) -> TimerPayloadDataScheduleStatusView {
        TimerPayloadDataScheduleStatusView {
            last: match &self.last {
                Some(s) => Some(s@),
                None => None,
            },
            next: self.next@,
            last_updated: match &self.last_updated {
                Some(s) => Some(s@),
                None => None,
            },
        }
    }
}

pub struct TimerPayloadDataTimerView {
    pub schedule: TimerPayloadDataScheduleView,
    pub schedule_status: TimerPayloadDataScheduleStatusView,
    pub is_past_due: bool,
}

/// The `timer` object of a timer invocation.
pub struct TimerPayloadDataTimer {
    pub schedule: TimerPayloadDataSchedule,
    pub schedule_status: TimerPayloadDataScheduleStatus,
    pub is_past_due: bool,
}

impl View for TimerPayloadDataTimer {
    type V = TimerPayloadDataTimerView;

    open spec fn view(&self) -> TimerPayloadDataTimerView {
        TimerPayloadDataTimerView {
            schedule: self.schedule@,
            schedule_status: self.schedule_status@,
            is_past_due: self.is_past_due,
        }
    }
}

pub struct TimerPayloadDataView {
    pub timer: TimerPayloadDataTimerView,
    pub inputs: Seq<(Seq<char>, InputBindingView)>,
}

/// The `Data` object of a timer invocation: the timer state plus every
/// remaining field as an extra input.
pub struct TimerPayloadData {
    pub timer: TimerPayloadDataTimer,
    pub inputs: Vec<(String, InputBinding)>,
}

impl View for TimerPayloadData {
    type V = TimerPayloadDataView;

    open spec fn view(&self) -> TimerPayloadDataView {
        TimerPayloadDataView {
            timer: self.timer@,
            inputs: Seq::new(self.inputs@.len(), |i: int| (self.inputs@[i].0@, self.inputs@[i].1@)),
        }
    }
}

pub struct TimerPayloadMetadataSysView {
    pub method_name: Seq<char>,
    pub utc_now: Seq<char>,
    pub rand_guid: Seq<char>,
}

/// The common invocation metadata of a timer invocation.
pub struct TimerPayloadMetadataSys {
    pub method_name: String,
    pub utc_now: String,
    pub rand_guid: String,
}

impl View for TimerPayloadMetadataSys {
    type V = TimerPayloadMetadataSysView;

    open spec fn view(&self) -> TimerPayloadMetadataSysView {
        TimerPayloadMetadataSysView {
            method_name: self.method_name@,
            utc_now: self.utc_now@,
            rand_guid: self.rand_guid@,
        }
    }
}

pub struct TimerPayloadMetadataView {
    pub sys: TimerPayloadMetadataSysView,
}

pub struct TimerPayloadMetadata {
    pub sys: TimerPayloadMetadataSys,
}

impl View for TimerPayloadMetadata {
    type V = TimerPayloadMetadataView;

    open spec fn view(&self) -> TimerPayloadMetadataView {
        TimerPayloadMetadataView { sys: self.sys@ }
    }
}

pub struct TimerPayloadView {
    pub data: TimerPayloadDataView,
    pub metadata: TimerPayloadMetadataView,
}

/// One timer trigger invocation as decoded from the wire.
pub struct TimerPayload {
    pub data: TimerPayloadData,
    pub metadata: TimerPayloadMetadata,
}

impl View for TimerPayload {
    type V = TimerPayloadView;

    open spec fn view(&self) -> TimerPayloadView {
        TimerPayloadView { data: self.data@, metadata: self.metadata@ }
    }
}

impl TimerPayload {
    /// The logical function name the host assigned to this invocation.
    pub fn method_name(&self) -> (r: &str)
        ensures
            r@ == self@.metadata.sys.method_name,
    {
        self.metadata.sys.method_name.as_str()
    }
}

/// An optional timestamp field that must be present: `null` means
/// absent, a string must be an RFC 3339 timestamp.
pub open spec fn spec_opt_time_field(o: Seq<(Seq<char>, JsonView)>, key: Seq<char>) -> Option<
    Option<Seq<char>>,
> {
    match spec_obj_get(o, key) {
        Some(JsonView::Null) => Some(None),
        Some(JsonView::Str(s)) => if is_rfc3339(s) {
            Some(Some(s))
        } else {
            None
        },
        _ => None,
    }
}

/// The schedule object: its DST flag.
pub open spec fn spec_schedule(j: JsonView) -> Option<TimerPayloadDataScheduleView> {
    match j {
        JsonView::Obj(s) => match spec_obj_get(s, "AdjustForDST"@) {
            Some(JsonView::Bool(b)) => Some(TimerPayloadDataScheduleView { adjust_for_dst: b }),
            _ => None,
        },
        _ => None,
    }
}

/// The schedule status object: last, next and last-updated times.
pub open spec fn spec_schedule_status(j: JsonView) -> Option<TimerPayloadDataScheduleStatusView> {
    match j {
        JsonView::Obj(ss) => {
            match (
                spec_opt_time_field(ss, "Last"@),
                spec_obj_get(ss, "Next"@),
                spec_opt_time_field(ss, "LastUpdated"@),
            ) {
                (Some(last), Some(JsonView::Str(next)), Some(last_updated)) => if is_rfc3339(
                    next,
                ) {
                    Some(TimerPayloadDataScheduleStatusView { last, next, last_updated })
                } else {
                    None
                },
                _ => None,
            }
        },
        _ => None,
    }
}

/// The `timer` object: schedule, schedule status and past-due flag.
pub open spec fn spec_timer_obj(j: JsonView) -> Option<TimerPayloadDataTimerView> {
    match j {
        JsonView::Obj(t) => {
            match (
                spec_obj_get(t, "Schedule"@),
                spec_obj_get(t, "ScheduleStatus"@),
                spec_obj_get(t, "IsPastDue"@),
            ) {
                (Some(sj), Some(ssj), Some(JsonView::Bool(p))) => {
                    match (spec_schedule(sj), spec_schedule_status(ssj)) {
                        (Some(schedule), Some(schedule_status)) => Some(
                            TimerPayloadDataTimerView {
                                schedule,
                                schedule_status,
                                is_past_due: p,
                            },
                        ),
                        _ => None,
                    }
                },
                _ => None,
            }
        },
        _ => None,
    }
}

/// The whole timer payload, decoded from the document: `None` when the
/// document does not have the timer trigger shape.
pub open spec fn spec_timer_payload(j: JsonView) -> Option<TimerPayloadView> {
    match j {
        JsonView::Obj(o) => {
            match (spec_obj_get(o, "Data"@), spec_obj_get(o, "Metadata"@)) {
                (Some(JsonView::Obj(d)), Some(JsonView::Obj(m))) => {
                    match (spec_obj_get(d, "timer"@), spec_sys_fields(m)) {
                        (Some(tj), Some(sys)) => {
                            match (spec_timer_obj(tj), spec_inputs(d, "timer"@, d.len() as int)) {
                                (Some(timer), Some(inputs)) => Some(
                                    TimerPayloadView {
                                        data: TimerPayloadDataView { timer, inputs },
                                        metadata: TimerPayloadMetadataView {
                                            sys: TimerPayloadMetadataSysView {
                                                method_name: sys.0,
                                                utc_now: sys.1,
                                                rand_guid: sys.2,
                                            },
                                        },
                                    },
                                ),
                                _ => None,
                            }
                        },
                        _ => None,
                    }
                },
                _ => None,
            }
        },
        _ => None,
    }
}

fn opt_time_field_from_obj(o: &Vec<(String, Json)>, key: &str) -> (r: Option<Option<String>>)
    ensures
        r is Some <==> spec_opt_time_field(obj_view(o@), key@) is Some,
        r matches Some(b) ==> spec_opt_time_field(obj_view(o@), key@) == Some(
            match b {
                Some(s) => Some(s@),
                None => None::<Seq<char>>,
            },
        ),
{
    match obj_get(o, key) {
        Some(j) => match j {
            Json::Null => Some(None),
            Json::Str(s) => {
                if rfc3339_valid(s.as_str()) {
                    Some(Some(s.clone()))
                } else {
                    None
                }
            },
            _ => None,
        },
        None => None,
    }
}

fn schedule_from_json(j: &Json) -> (r: Option<TimerPayloadDataSchedule>)
    ensures
        r is Some <==> spec_schedule(j@) is Some,
        r matches Some(s) ==> spec_schedule(j@) == Some(s@),
{
    let s = match j {
        Json::Obj(f) => f,
        _ => {
            return None;
        },
    };
    match obj_get(s, "AdjustForDST") {
        Some(Json::Bool(b)) => Some(TimerPayloadDataSchedule { adjust_for_dst: *b }),
        _ => None,
    }
}

fn schedule_status_from_json(j: &Json) -> (r: Option<TimerPayloadDataScheduleStatus>)
    ensures
        r is Some <==> spec_schedule_status(j@) is Some,
        r matches Some(s) ==> spec_schedule_status(j@) == Some(s@),
{
    let ss = match j {
        Json::Obj(f) => f,
        _ => {
            return None;
        },
    };
    let last = match opt_time_field_from_obj(ss, "Last") {
        Some(x) => x,
        None => {
            return None;
        },
    };
    let next = match obj_get(ss, "Next") {
        Some(Json::Str(s)) => s,
        _ => {
            return None;
        },
    };
    if !rfc3339_valid(next.as_str()) {
        return None;
    }
    let last_updated = match opt_time_field_from_obj(ss, "LastUpdated") {
        Some(x) => x,
        None => {
            return None;
        },
    };
    Some(TimerPayloadDataScheduleStatus { last, next: next.clone(), last_updated })
}

fn timer_obj_from_json(j: &Json) -> (r: Option<TimerPayloadDataTimer>)
    ensures
        r is Some <==> spec_timer_obj(j@) is Some,
        r matches Some(t) ==> spec_timer_obj(j@) == Some(t@),
{
    let t = match j {
        Json::Obj(f) => f,
        _ => {
            return None;
        },
    };
    let sj = match obj_get(t, "Schedule") {
        Some(x) => x,
        None => {
            return None;
        },
    };
    let ssj = match obj_get(t, "ScheduleStatus") {
        Some(x) => x,
        None => {
            return None;
        },
    };
    let p = match obj_get(t, "IsPastDue") {
        Some(Json::Bool(b)) => *b,
        _ => {
            return None;
        },
    };
    let schedule = match schedule_from_json(sj) {
        Some(x) => x,
        None => {
            return None;
        },
    };
    let schedule_status = match schedule_status_from_json(ssj) {
        Some(x) => x,
        None => {
            return None;
        },
    };
    Some(TimerPayloadDataTimer { schedule, schedule_status, is_past_due: p })
}

/// Decode the document as a timer trigger payload, if it has that shape.
pub(crate) fn timer_from_json(j: &Json) -> (res: Option<TimerPayload>)
    ensures
        res is Some <==> spec_timer_payload(j@) is Some,
        res matches Some(p) ==> spec_timer_payload(j@) == Some(p@),
{
    let o = match j {
        Json::Obj(f) => f,
        _ => {
            return None;
        },
    };
    let d = match obj_get(o, "Data") {
        Some(Json::Obj(f)) => f,
        _ => {
            return None;
        },
    };
    let m = match obj_get(o, "Metadata") {
        Some(Json::Obj(f)) => f,
        _ => {
            return None;
        },
    };
    proof {
        lemma_obj_view(d@);
    }
    let tj = match obj_get(d, "timer") {
        Some(x) => x,
        None => {
            return None;
        },
    };
    let sys = match sys_from_obj(m) {
        Some(x) => x,
        None => {
            return None;
        },
    };
    let timer = match timer_obj_from_json(tj) {
        Some(x) => x,
        None => {
            return None;
        },
    };
    let inputs = match inputs_from_obj(d, "timer") {
        Some(x) => x,
        None => {
            return None;
        },
    };
    Some(
        TimerPayload {
            data: TimerPayloadData { timer, inputs },
            metadata: TimerPayloadMetadata {
                sys: TimerPayloadMetadataSys {
                    method_name: sys.0,
                    utc_now: sys.1,
                    rand_guid: sys.2,
                },
            },
        },
    )
}

} // verus!
