//! Shift plans, their time windows, and resolving the shift active at a time of day.

use vstd::prelude::*;
use vstd::string::*;
use crate::clock::{TimeOfDay, clock_text_seconds};

verus! {

/// Start assumed for a plan whose stored start does not parse: midnight.
pub const FALLBACK_START: u32 = 0;

/// End assumed for a plan whose stored end does not parse: 23:59:59.
pub const FALLBACK_END: u32 = 86399;

/// One configured work shift, as the store holds it.
pub struct ShiftPlan {
    pub id: i64,
    pub team: String,
    pub shift_name: String,
    pub planned_output: i64,
    /// Start of the shift, `HH:MM:SS`.
    pub start_time: String,
    /// End of the shift, `HH:MM:SS`; before the start when the shift crosses midnight.
    pub end_time: String,
}

/// Whether `now` lies in the closed window from `start` to `end`, which wraps past
/// midnight when `end` comes before `start`.
pub open spec fn window_contains(start: u32, end: u32, now: u32) -> bool {
    if end >= start {
        start <= now && now <= end
    } else {
        now >= start || now <= end
    }
}

/// The start in force for a parse result: unparsable text opens the window at midnight.
pub open spec fn start_or_fallback(o: Option<u32>) -> u32 {
    match o {
        Some(x) => x,
        None => FALLBACK_START,
    }
}

/// The end in force for a parse result: unparsable text closes the window at 23:59:59.
pub open spec fn end_or_fallback(o: Option<u32>) -> u32 {
    match o {
        Some(x) => x,
        None => FALLBACK_END,
    }
}

/// Start of a plan's window, in seconds past midnight.
pub open spec fn plan_start(p: ShiftPlan) -> u32 {
    start_or_fallback(clock_text_seconds(p.start_time@))
}

/// End of a plan's window, in seconds past midnight.
pub open spec fn plan_end(p: ShiftPlan) -> u32 {
    end_or_fallback(clock_text_seconds(p.end_time@))
}

/// Whether a plan's window holds the time `now`.
pub open spec fn plan_active(p: ShiftPlan, now: u32) -> bool {
    window_contains(plan_start(p), plan_end(p), now)
}

/// `i` is the first plan in `plans` whose window holds `now`.
pub open spec fn is_first_active(plans: Seq<ShiftPlan>, now: u32, i: int) -> bool {
    &&& 0 <= i < plans.len()
    &&& plan_active(plans[i], now)
    &&& forall|j: int| 0 <= j < i ==> !plan_active(#[trigger] plans[j], now)
}

/// No plan in `plans` has a window that holds `now`.
pub open spec fn none_active(plans: Seq<ShiftPlan>, now: u32) -> bool {
    forall|j: int| 0 <= j < plans.len() ==> !plan_active(#[trigger] plans[j], now)
}

/// The plan that resolution yields at `now`: the first whose window holds it, if any.
pub open spec fn active_plan(plans: Seq<ShiftPlan>, now: u32) -> Option<ShiftPlan> {
    if exists|i: int| is_first_active(plans, now, i) {
        Some(plans[choose|i: int| is_first_active(plans, now, i)])
    } else {
        None
    }
}

/// At most one position is the first active one.
pub proof fn lemma_first_active_unique(plans: Seq<ShiftPlan>, now: u32, i: int, j: int)
    requires
        is_first_active(plans, now, i),
        is_first_active(plans, now, j),
    ensures
        i == j,
{
    if i < j {
        assert(!plan_active(plans[i], now));
    } else if j < i {
        assert(!plan_active(plans[j], now));
    }
}

/// Whether `now` lies in the closed window from `start` to `end` (wrapping when `end`
/// comes before `start`).
pub fn window_covers(start: TimeOfDay, end: TimeOfDay, now: TimeOfDay) -> (r: bool)
    ensures
        r == window_contains(start.secs, end.secs, now.secs),
{
    if end.secs >= start.secs {
        start.secs <= now.secs && now.secs <= end.secs
    } else {
        now.secs >= start.secs || now.secs <= end.secs
    }
}

/// Whether a window given by its parsed bounds holds `now`, where a bound that did not
/// parse falls back to midnight (start) or 23:59:59 (end).
pub fn parsed_window_covers(start: Option<TimeOfDay>, end: Option<TimeOfDay>, now: TimeOfDay) -> (r: bool)
    ensures
        r == window_contains(
            start_or_fallback(
                match start {
                    Some(t) => Some(t.secs),
                    None => None,
                },
            ),
            end_or_fallback(
                match end {
                    Some(t) => Some(t.secs),
                    None => None,
                },
            ),
            now.secs,
        ),
{
    let s = match start {
        Some(t) => t,
        None => TimeOfDay { secs: FALLBACK_START },
    };
    let e = match end {
        Some(t) => t,
        None => TimeOfDay { secs: FALLBACK_END },
    };
    window_covers(s, e, now)
}

impl ShiftPlan {
    /// Whether this plan's window holds `now`; unparsable stored times fail open.
    pub fn is_active_at(&self, now: TimeOfDay) -> (r: bool)
        ensures
            r == plan_active(*self, now.secs),
    {
        let start = TimeOfDay::parse(self.start_time.as_str());
        let end = TimeOfDay::parse(self.end_time.as_str());
        parsed_window_covers(start, end, now)
    }
}

/// The plan a fresh store starts with: team "A", shift "Day", 500 units, 08:00:00 to 20:00:00.
pub open spec fn is_default_plan(p: ShiftPlan) -> bool {
    &&& p.id == 1
    &&& p.team@ == "A"@
    &&& p.shift_name@ == "Day"@
    &&& p.planned_output == 500
    &&& p.start_time@ == "08:00:00"@
    &&& p.end_time@ == "20:00:00"@
}

impl ShiftPlan {
    /// The plan a fresh store starts with.
    pub fn default_plan() -> (r: ShiftPlan)
        ensures
            is_default_plan(r),
    {
        ShiftPlan {
            id: 1,
            team: String::from_str("A"),
            shift_name: String::from_str("Day"),
            planned_output: 500,
            start_time: String::from_str("08:00:00"),
            end_time: String::from_str("20:00:00"),
        }
    }
}

/// The set of configured shifts, in insertion order.
pub struct ShiftRegistry {
    plans: Vec<ShiftPlan>,
}

impl ShiftRegistry {
    /// The plans, in insertion order.
    pub closed spec fn view(&self) -> Seq<ShiftPlan> {
        self.plans@
    }

    /// A registry with no plans.
    pub fn new() -> (r: ShiftRegistry)
        ensures
            r.view() == Seq::<ShiftPlan>::empty(),
    {
        ShiftRegistry { plans: Vec::new() }
    }

    /// A registry holding the given plans in the given order.
    pub fn from_plans(plans: Vec<ShiftPlan>) -> (r: ShiftRegistry)
        ensures
            r.view() == plans@,
    {
        ShiftRegistry { plans }
    }

    /// Puts the default plan into a registry that holds none, and leaves any other
    /// registry as it is.
    pub fn seed_if_empty(&mut self)
        ensures
            old(self).view().len() == 0 ==> final(self).view().len() == 1 && is_default_plan(
                final(self).view()[0],
            ),
            old(self).view().len() > 0 ==> final(self).view() == old(self).view(),
    {
        if self.plans.len() == 0 {
            self.plans.push(ShiftPlan::default_plan());
        }
    }

    /// Adds a plan after those already held.
    pub fn add(&mut self, plan: ShiftPlan)
        ensures
            final(self).view() == old(self).view().push(plan),
    {
        self.plans.push(plan);
    }

    /// Number of plans held.
    pub fn len(&self) -> (r: usize)
        ensures
            r == self.view().len(),
    {
        self.plans.len()
    }

    /// The plans, in insertion order.
    pub fn plans(&self) -> (r: &Vec<ShiftPlan>)
        ensures
            r@ == self.view(),
    {
        &self.plans
    }

    /// Position of the first plan whose window holds `now`, if any.
    pub fn resolve_active_index(&self, now: TimeOfDay) -> (r: Option<usize>)
        ensures
            match r {
                Some(i) => is_first_active(self.view(), now.secs, i as int),
                None => none_active(self.view(), now.secs),
            },
    {
        let mut i: usize = 0;
        while i < self.plans.len()
            invariant
                0 <= i <= self.plans@.len(),
                forall|j: int| 0 <= j < i ==> !plan_active(#[trigger] self.plans@[j], now.secs),
            decreases self.plans@.len() - i,
        {
            if self.plans[i].is_active_at(now) {
                return Some(i);
            }
            i = i + 1;
        }
        None
    }

    /// The first plan whose window holds `now`, if any.
    pub fn resolve_active(&self, now: TimeOfDay) -> (r: Option<&ShiftPlan>)
        ensures
            match r {
                Some(p) => active_plan(self.view(), now.secs) == Some(*p),
                None => active_plan(self.view(), now.secs) is None,
            },
    {
        match self.resolve_active_index(now) {
            Some(i) => {
                proof {
                    let k = choose|k: int| is_first_active(self.view(), now.secs, k);
                    lemma_first_active_unique(self.view(), now.secs, i as int, k);
                }
                Some(&self.plans[i])
            },
            None => {
                proof {
                    if exists|k: int| is_first_active(self.view(), now.secs, k) {
                        let k = choose|k: int| is_first_active(self.view(), now.secs, k);
                        assert(!plan_active(self.view()[k], now.secs));
                    }
                }
                None
            },
        }
    }
}

/// A plan whose window does not wrap holds every time strictly between its start and
/// end, and a registry that holds that plan first resolves to it there.
pub proof fn lemma_inside_window_resolves(plans: Seq<ShiftPlan>, now: TimeOfDay)
    requires
        plans.len() > 0,
        plan_start(plans[0]) <= plan_end(plans[0]),
        plan_start(plans[0]) < now.secs < plan_end(plans[0]),
    ensures
        plan_active(plans[0], now.secs),
        active_plan(plans, now.secs) == Some(plans[0]),
{
    assert(is_first_active(plans, now.secs, 0));
    let k = choose|k: int| is_first_active(plans, now.secs, k);
    lemma_first_active_unique(plans, now.secs, 0, k);
}

/// A window crossing midnight holds exactly the times from its start up to midnight
/// and from midnight up to its end, and no time in between.
pub proof fn lemma_wrapping_window(start: u32, end: u32, now: u32)
    requires
        end < start,
    ensures
        window_contains(start, end, now) <==> (start <= now || now <= end),
        (end < now && now < start) ==> !window_contains(start, end, now),
{
}

/// Windows are closed: a plan is active at its own start and at its own end, whether or
/// not the window wraps, and a registry that holds that plan first resolves to it there.
pub proof fn lemma_bounds_inclusive(plans: Seq<ShiftPlan>)
    requires
        plans.len() > 0,
    ensures
        plan_active(plans[0], plan_start(plans[0])),
        plan_active(plans[0], plan_end(plans[0])),
        active_plan(plans, plan_start(plans[0])) == Some(plans[0]),
        active_plan(plans, plan_end(plans[0])) == Some(plans[0]),
{
    let p = plans[0];
    assert(is_first_active(plans, plan_start(p), 0));
    assert(is_first_active(plans, plan_end(p), 0));
    let k = choose|k: int| is_first_active(plans, plan_start(p), k);
    lemma_first_active_unique(plans, plan_start(p), 0, k);
    let m = choose|m: int| is_first_active(plans, plan_end(p), m);
    lemma_first_active_unique(plans, plan_end(p), 0, m);
}

} // verus!
