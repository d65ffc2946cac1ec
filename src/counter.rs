//! Processing scans and reporting production against the active shift.

use vstd::prelude::*;
use vstd::string::*;
use crate::clock::TimeOfDay;
use crate::shift::{ShiftPlan, ShiftRegistry, active_plan};
use crate::ledger::{ScanLedger, ScanRecord, success_count, lemma_success_count_bounded};
use crate::gateway::{GatewayReply, VerificationOutcome, outcome_spec, verification_outcome};

verus! {

/// What std's `str::trim` makes of a text.
pub uninterp spec fn trimmed(s: Seq<char>) -> Seq<char>;

/// Relies on std's `str::trim`, which drops leading and trailing whitespace.
#[verifier::external_body]
fn trim_text(s: &str) -> (r: String)
    ensures
        r@ == trimmed(s@),
{
    s.trim().to_string()
}

/// The barcode to process for a submitted text: the text without surrounding whitespace,
/// or nothing when that leaves it empty.
pub fn accept_barcode(raw: &str) -> (r: Option<String>)
    ensures
        trimmed(raw@).len() == 0 <==> r is None,
        r matches Some(b) ==> b@ == trimmed(raw@),
{
    let b = trim_text(raw);
    if b.as_str().is_empty() {
        None
    } else {
        Some(b)
    }
}

/// A completion rate as the exact percentage `numerator / denominator`.
pub struct CompletionRate {
    pub numerator: u128,
    pub denominator: u64,
}

impl CompletionRate {
    /// The denominator is never zero.
    pub open spec fn wf(&self) -> bool {
        self.denominator > 0
    }

    /// The percentage rounded down to a whole number.
    pub fn whole_percent(&self) -> (r: u128)
        requires
            self.wf(),
        ensures
            r == self.numerator / (self.denominator as u128),
    {
        self.numerator / (self.denominator as u128)
    }
}

/// Completion of `count` units against `planned`, in percent: `count * 100 / planned`,
/// and exactly 0 when nothing is planned.
pub fn completion_rate(count: u64, planned: i64) -> (r: CompletionRate)
    ensures
        r.wf(),
        planned > 0 ==> r.numerator == count * 100 && r.denominator == planned,
        planned <= 0 ==> r.numerator == 0 && r.denominator == 1,
{
    if planned > 0 {
        CompletionRate { numerator: count as u128 * 100, denominator: planned as u64 }
    } else {
        CompletionRate { numerator: 0, denominator: 1 }
    }
}

/// Shown for team and shift when no shift is active.
pub open spec fn unresolved_name() -> Seq<char> {
    "-"@
}

/// The production view for a moment: the active shift, the running count, the rate.
pub struct AggregateStats {
    pub team: String,
    pub shift_name: String,
    pub planned_output: i64,
    pub current_count: u64,
    pub completion_rate: CompletionRate,
}

/// The count in force when the store may have failed to give one: zero then.
pub open spec fn count_or_zero(count: Option<u64>) -> u64 {
    match count {
        Some(c) => c,
        None => 0,
    }
}

/// Whether `r` reports the shift `plan` (or none) with the running count `count`.
pub open spec fn reports(r: AggregateStats, plan: Option<ShiftPlan>, count: u64) -> bool {
    &&& r.current_count == count
    &&& match plan {
        Some(p) => {
            &&& r.team@ == p.team@
            &&& r.shift_name@ == p.shift_name@
            &&& r.planned_output == p.planned_output
        },
        None => {
            &&& r.team@ == unresolved_name()
            &&& r.shift_name@ == unresolved_name()
            &&& r.planned_output == 0
        },
    }
    &&& r.completion_rate.wf()
    &&& r.planned_output > 0 ==> r.completion_rate.numerator == count * 100
        && r.completion_rate.denominator == r.planned_output
    &&& r.planned_output <= 0 ==> r.completion_rate.numerator == 0
        && r.completion_rate.denominator == 1
}

/// The stats for a resolved shift (or none) and a count read from the store; a count that
/// could not be read counts as zero.
pub fn stats_for(plan: Option<&ShiftPlan>, count: Option<u64>) -> (r: AggregateStats)
    ensures
        reports(
            r,
            match plan {
                Some(p) => Some(*p),
                None => None,
            },
            count_or_zero(count),
        ),
{
    let c: u64 = match count {
        Some(c) => c,
        None => 0,
    };
    let (team, shift_name, planned) = match plan {
        Some(p) => (p.team.clone(), p.shift_name.clone(), p.planned_output),
        None => (String::from_str("-"), String::from_str("-"), 0i64),
    };
    let rate = completion_rate(c, planned);
    AggregateStats {
        team,
        shift_name,
        planned_output: planned,
        current_count: c,
        completion_rate: rate,
    }
}

/// What the operator learns of one scan.
pub struct ScanOutcome {
    pub success: bool,
    pub message: String,
    /// The running count of verified scans after this one.
    pub current_count: u64,
    /// Whether the scan made it into the ledger.
    pub recorded: bool,
}

/// The answer to a scan, from its verification outcome, whether it was recorded, and the
/// count read afterwards (zero when that read failed).
pub fn scan_outcome(verdict: VerificationOutcome, recorded: bool, count: Option<u64>) -> (r: ScanOutcome)
    ensures
        r.success == verdict.success,
        r.message@ == verdict.detail@,
        r.recorded == recorded,
        r.current_count == count_or_zero(count),
{
    let c: u64 = match count {
        Some(c) => c,
        None => 0,
    };
    ScanOutcome { success: verdict.success, message: verdict.detail, current_count: c, recorded }
}

/// The shift registry and the scan ledger together, with the two operations of the line:
/// processing a scan and reading the stats.
pub struct ProductionCounter {
    pub registry: ShiftRegistry,
    pub ledger: ScanLedger,
}

impl ProductionCounter {
    /// A counter over the given registry and an empty ledger.
    pub fn new(registry: ShiftRegistry) -> (r: ProductionCounter)
        ensures
            r.registry.view() == registry.view(),
            r.ledger.view().len() == 0,
            r.ledger.wf(),
    {
        ProductionCounter { registry, ledger: ScanLedger::new() }
    }

    /// Processes one scan whose barcode the endpoint answered with `reply`: the trimmed
    /// barcode is written to the ledger with its outcome and time, successful or not, and
    /// the outcome comes back with the running count of verified scans.
    pub fn process_scan(&mut self, barcode: &str, reply: GatewayReply, created_at: String) -> (r: ScanOutcome)
        requires
            old(self).ledger.wf(),
        ensures
            final(self).ledger.wf(),
            final(self).registry.view() == old(self).registry.view(),
            r.success == outcome_spec(reply).0,
            r.message@ == outcome_spec(reply).1,
            r.message@.len() > 0,
            r.recorded == (old(self).ledger.view().len() < u64::MAX),
            r.recorded ==> {
                let n = old(self).ledger.view().len();
                let rec = final(self).ledger.view()[n as int];
                &&& final(self).ledger.view().len() == n + 1
                &&& final(self).ledger.view().subrange(0, n as int) == old(self).ledger.view()
                &&& rec.id == n + 1
                &&& rec.barcode@ == trimmed(barcode@)
                &&& rec.success == r.success
                &&& rec.created_at == created_at
            },
            !r.recorded ==> final(self).ledger.view() == old(self).ledger.view(),
            r.current_count == success_count(final(self).ledger.view()),
    {
        let code = trim_text(barcode);
        let verdict = verification_outcome(reply);
        let success = verdict.success;
        let recorded = (self.ledger.len() as u64) < u64::MAX;
        if recorded {
            self.ledger.append(code, success, created_at);
            proof {
                let n = old(self).ledger.view().len();
                assert(self.ledger.view().subrange(0, n as int) =~= old(self).ledger.view());
            }
        }
        let count = self.ledger.count_successful();
        scan_outcome(verdict, recorded, Some(count))
    }

    /// The stats at time of day `now`: the first shift active then (or none) and the
    /// running count of verified scans.
    pub fn get_stats(&self, now: TimeOfDay) -> (r: AggregateStats)
        ensures
            reports(
                r,
                active_plan(self.registry.view(), now.secs),
                success_count(self.ledger.view()) as u64,
            ),
    {
        let plan = self.registry.resolve_active(now);
        let count = self.ledger.count_successful();
        stats_for(plan, Some(count))
    }
}

} // verus!
