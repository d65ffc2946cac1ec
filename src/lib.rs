//! Shift resolution and production counting for a barcode-scanning line.
//!
//! Operators scan barcodes; an outside endpoint says whether each scan is a good unit;
//! every attempt goes into an append-only ledger; and the running count of good units is
//! reported against the shift whose window holds the current time of day, including
//! shifts that cross midnight.

mod clock;
mod shift;
mod ledger;
mod gateway;
mod counter;
mod render;

pub use clock::{TimeOfDay, clock_text_seconds, time_of, SECONDS_PER_DAY};
pub use shift::{
    ShiftPlan, ShiftRegistry, window_contains, start_or_fallback, end_or_fallback, plan_start,
    plan_end, plan_active, is_first_active, none_active, active_plan, is_default_plan,
    window_covers, parsed_window_covers, lemma_first_active_unique, lemma_inside_window_resolves,
    lemma_wrapping_window, lemma_bounds_inclusive, FALLBACK_START, FALLBACK_END,
};
pub use ledger::{
    ScanRecord, ScanLedger, success_count, ids_in_order, lemma_success_count_bounded,
    lemma_success_count_is_filter, lemma_count_after_append,
};
pub use gateway::{
    GatewayReply, VerificationOutcome, accepted_message, rejected_prefix, transport_prefix,
    is_success_status, outcome_spec, verification_outcome,
};
pub use counter::{
    trimmed, accept_barcode, CompletionRate, completion_rate, unresolved_name, AggregateStats,
    count_or_zero, reports, stats_for, ScanOutcome, scan_outcome, ProductionCounter,
};
pub use render::{
    escape_char, escape_html, digit_char, digits_of, decimal_of, scan_status, scan_message,
    index_page, stats_fragment, result_fragment, html_escape, render_index, render_stats,
    render_scan_result, STATUS_OK, STATUS_FAILED,
};
