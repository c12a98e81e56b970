//! Per-invocation capture of diagnostic events.
//!
//! One sink is created for each invocation and handed to exactly that
//! invocation's handler; because a sink is an owned value that is never
//! shared, recording into one invocation's sink cannot be observed by
//! any other invocation.  Events below the configured minimum severity
//! are dropped when recorded, not when drained.

use vstd::prelude::*;
use vstd::string::StringExecFns;
use crate::response::{spec_escape, append_escaped};

verus! {

/// Severity of one diagnostic event, most severe first.
#[derive(Clone, Copy, PartialEq, Eq, Structural, Debug)]
pub enum Level {
    Error,
    Warn,
    Info,
    Debug,
    Trace,
}

impl Level {
    /// Position in the severity order: the most severe level ranks
    /// lowest.
    pub open spec fn spec_rank(self) -> int {
        match self {
            Level::Error => 0,
            Level::Warn => 1,
            Level::Info => 2,
            Level::Debug => 3,
            Level::Trace => 4,
        }
    }

    fn rank(&self) -> (r: u8)
        ensures
            r as int == self.spec_rank(),
    {
        match self {
            Level::Error => 0,
            Level::Warn => 1,
            Level::Info => 2,
            Level::Debug => 3,
            Level::Trace => 4,
        }
    }

    /// The label under which the level is rendered.
    pub open spec fn spec_label(self) -> Seq<char> {
        match self {
            Level::Error => "ERROR"@,
            Level::Warn => "WARN"@,
            Level::Info => "INFO"@,
            Level::Debug => "DEBUG"@,
            Level::Trace => "TRACE"@,
        }
    }

    pub fn label(&self) -> (r: &'static str)
        ensures
            r@ == self.spec_label(),
    {
        match self {
            Level::Error => "ERROR",
            Level::Warn => "WARN",
            Level::Info => "INFO",
            Level::Debug => "DEBUG",
            Level::Trace => "TRACE",
        }
    }
}

/// The first `n` rendered fields of one event, quoted and
/// comma-separated.
pub open spec fn spec_render_fields(fields: Seq<Seq<char>>, n: int) -> Seq<char>
    decreases n,
{
    if n <= 0 {
        Seq::empty()
    } else {
        spec_render_fields(fields, n - 1) + (if n == 1 { Seq::<char>::empty() } else { ", "@ })
            + "\""@ + spec_escape(fields[n - 1]) + "\""@
    }
}

/// One event as a single log line: severity label, the field list, and
/// the event name.
pub open spec fn spec_render_event(level: Level, fields: Seq<Seq<char>>, name: Seq<char>) -> Seq<
    char,
> {
    level.spec_label() + " ["@ + spec_render_fields(fields, fields.len() as int) + "] "@ + name
}

pub struct CustomLayerView {
    pub events: Seq<Seq<char>>,
    pub level: Level,
}

/// The diagnostic sink of one invocation: the lines recorded so far, in
/// emission order, and the minimum severity it keeps.
pub struct CustomLayer {
    events: Vec<String>,
    level: Level,
}

impl View for CustomLayer {
    type V = CustomLayerView;

    closed spec fn view(&self) -> CustomLayerView {
        CustomLayerView {
            events: Seq::new(self.events@.len(), |i: int| self.events@[i]@),
            level: self.level,
        }
    }
}

impl CustomLayer {
    /// A fresh, empty sink keeping events at or above the given
    /// severity.
    pub fn new(level: Level) -> (r: Self)
        ensures
            r@.events == Seq::<Seq<char>>::empty(),
            r@.level == level,
    {
        let r = CustomLayer { events: Vec::new(), level };
        proof {
            assert(r@.events =~= Seq::<Seq<char>>::empty());
        }
        r
    }

    /// The lines recorded so far, in emission order.
    pub fn get(&self) -> (r: Vec<String>)
        ensures
            Seq::new(r@.len(), |i: int| r@[i]@) == self@.events,
    {
        let mut out: Vec<String> = Vec::new();
        let mut i: usize = 0;
        while i < self.events.len()
            invariant
                i <= self.events@.len(),
                out@.len() == i,
                forall|j: int| 0 <= j < i ==> out@[j]@ == self@.events[j],
            decreases self.events@.len() - i,
        {
            out.push(self.events[i].clone());
            i += 1;
        }
        proof {
            assert(Seq::new(out@.len(), |i: int| out@[i]@) =~= self@.events);
        }
        out
    }

    /// Record one event: rendered and appended if its severity is at or
    /// above the sink's minimum, dropped otherwise.  Only this sink's
    /// state changes.
    pub fn record(&mut self, level: Level, fields: &Vec<String>, name: &str)
        ensures
            final(self)@.level == old(self)@.level,
            final(self)@.events == (if level.spec_rank() <= old(self)@.level.spec_rank() {
                old(self)@.events.push(
                    spec_render_event(
                        level,
                        Seq::new(fields@.len(), |i: int| fields@[i]@),
                        name@,
                    ),
                )
            } else {
                old(self)@.events
            }),
    {
        if level.rank() <= self.level.rank() {
            let line = render_event(level, fields, name);
            self.events.push(line);
            proof {
                assert(self@.events =~= old(self)@.events.push(
                    spec_render_event(
                        level,
                        Seq::new(fields@.len(), |i: int| fields@[i]@),
                        name@,
                    ),
                ));
            }
        }
    }
}

/// Render one event into its log line.
fn render_event(level: Level, fields: &Vec<String>, name: &str) -> (r: String)
    ensures
        r@ == spec_render_event(level, Seq::new(fields@.len(), |i: int| fields@[i]@), name@),
{
    let ghost fv = Seq::new(fields@.len(), |i: int| fields@[i]@);
    let mut out = String::new();
    out.append(level.label());
    out.append(" [");
    let ghost base = out@;
    let mut i: usize = 0;
    proof {
        assert(base + spec_render_fields(fv, 0) =~= base);
    }
    while i < fields.len()
        invariant
            i <= fields@.len(),
            fv == Seq::new(fields@.len(), |k: int| fields@[k]@),
            fv.len() == fields@.len(),
            out@ == base + spec_render_fields(fv, i as int),
        decreases fields@.len() - i,
    {
        if i > 0 {
            out.append(", ");
        }
        out.append("\"");
        append_escaped(&mut out, fields[i].as_str());
        out.append("\"");
        proof {
            assert(out@ =~= base + spec_render_fields(fv, i as int + 1));
        }
        i += 1;
    }
    out.append("] ");
    out.append(name);
    proof {
        assert(out@ =~= spec_render_event(level, fv, name@));
    }
    out
}

} // verus!
