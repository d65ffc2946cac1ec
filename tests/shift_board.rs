use shift_board::{
    accept_barcode, completion_rate, html_escape, render_index, render_scan_result, render_stats,
    stats_for, verification_outcome, GatewayReply, ProductionCounter, ScanLedger, ScanOutcome,
    ShiftPlan, ShiftRegistry, TimeOfDay,
};

fn at(h: u32, m: u32, s: u32) -> TimeOfDay {
    TimeOfDay::from_hms(h, m, s).unwrap()
}

fn plan(id: i64, team: &str, shift: &str, planned: i64, start: &str, end: &str) -> ShiftPlan {
    ShiftPlan {
        id,
        team: team.to_string(),
        shift_name: shift.to_string(),
        planned_output: planned,
        start_time: start.to_string(),
        end_time: end.to_string(),
    }
}

fn seeded_counter() -> ProductionCounter {
    let mut registry = ShiftRegistry::new();
    registry.seed_if_empty();
    ProductionCounter::new(registry)
}

fn ok_reply() -> GatewayReply {
    GatewayReply::Status { code: 200, text: "200 OK".to_string() }
}

fn bad_reply() -> GatewayReply {
    GatewayReply::Status { code: 500, text: "500 Internal Server Error".to_string() }
}

#[test]
fn time_of_day_components() {
    let t = at(8, 30, 15);
    assert_eq!(t.secs, 30615);
    assert_eq!((t.hour(), t.minute(), t.second()), (8, 30, 15));
    assert!(TimeOfDay::from_hms(24, 0, 0).is_none());
    assert!(TimeOfDay::from_hms(23, 60, 0).is_none());
    assert!(TimeOfDay::from_hms(23, 59, 60).is_none());
}

#[test]
fn parse_stored_times() {
    assert_eq!(TimeOfDay::parse("08:30:15"), Some(at(8, 30, 15)));
    assert_eq!(TimeOfDay::parse("23:59:59"), Some(at(23, 59, 59)));
    assert_eq!(TimeOfDay::parse("not a time"), None);
    assert_eq!(TimeOfDay::parse("25:00:00"), None);
}

#[test]
fn inside_non_wrapping_window_resolves() {
    let registry = ShiftRegistry::from_plans(vec![plan(1, "A", "Day", 500, "08:00:00", "20:00:00")]);
    for t in [at(8, 0, 1), at(10, 0, 0), at(19, 59, 59)] {
        assert_eq!(registry.resolve_active_index(t), Some(0));
        assert_eq!(registry.resolve_active(t).unwrap().shift_name, "Day");
    }
    assert_eq!(registry.resolve_active_index(at(7, 59, 59)), None);
    assert_eq!(registry.resolve_active_index(at(20, 0, 1)), None);
}

#[test]
fn wrapping_window_crosses_midnight() {
    let registry = ShiftRegistry::from_plans(vec![plan(1, "B", "Night", 300, "22:00:00", "02:00:00")]);
    assert_eq!(registry.resolve_active_index(at(23, 0, 0)), Some(0));
    assert_eq!(registry.resolve_active_index(at(1, 0, 0)), Some(0));
    assert_eq!(registry.resolve_active_index(at(12, 0, 0)), None);
    assert!(registry.resolve_active(at(12, 0, 0)).is_none());
}

#[test]
fn window_bounds_are_inclusive() {
    let day = plan(1, "A", "Day", 500, "08:00:00", "20:00:00");
    assert!(day.is_active_at(at(8, 0, 0)));
    assert!(day.is_active_at(at(20, 0, 0)));
    let night = plan(2, "B", "Night", 300, "22:00:00", "02:00:00");
    assert!(night.is_active_at(at(22, 0, 0)));
    assert!(night.is_active_at(at(2, 0, 0)));
    assert!(!night.is_active_at(at(2, 0, 1)));
    assert!(!night.is_active_at(at(21, 59, 59)));
}

#[test]
fn malformed_times_fail_open() {
    let bad_start = plan(1, "A", "Day", 10, "garbage", "12:00:00");
    assert!(bad_start.is_active_at(at(0, 0, 0)));
    assert!(!bad_start.is_active_at(at(12, 0, 1)));
    let bad_end = plan(2, "A", "Day", 10, "12:00:00", "??");
    assert!(bad_end.is_active_at(at(23, 59, 59)));
    assert!(!bad_end.is_active_at(at(11, 59, 59)));
    let both = plan(3, "A", "Day", 10, "", "x");
    assert!(both.is_active_at(at(0, 0, 0)));
    assert!(both.is_active_at(at(13, 14, 15)));
    assert!(both.is_active_at(at(23, 59, 59)));
}

#[test]
fn first_matching_plan_wins() {
    let mut registry = ShiftRegistry::new();
    registry.add(plan(1, "A", "Early", 100, "06:00:00", "14:00:00"));
    registry.add(plan(2, "B", "Overlap", 200, "10:00:00", "18:00:00"));
    assert_eq!(registry.len(), 2);
    assert_eq!(registry.resolve_active_index(at(12, 0, 0)), Some(0));
    assert_eq!(registry.resolve_active_index(at(16, 0, 0)), Some(1));
    assert_eq!(registry.resolve_active_index(at(19, 0, 0)), None);
    assert_eq!(ShiftRegistry::new().resolve_active_index(at(12, 0, 0)), None);
}

#[test]
fn seeding_only_fills_an_empty_registry() {
    let mut registry = ShiftRegistry::new();
    registry.seed_if_empty();
    assert_eq!(registry.len(), 1);
    let p = &registry.plans()[0];
    assert_eq!((p.team.as_str(), p.shift_name.as_str(), p.planned_output), ("A", "Day", 500));
    assert_eq!((p.start_time.as_str(), p.end_time.as_str()), ("08:00:00", "20:00:00"));
    registry.seed_if_empty();
    assert_eq!(registry.len(), 1);
    let mut other = ShiftRegistry::from_plans(vec![plan(7, "C", "Swing", 1, "14:00:00", "22:00:00")]);
    other.seed_if_empty();
    assert_eq!(other.len(), 1);
    assert_eq!(other.plans()[0].id, 7);
}

#[test]
fn count_ignores_failed_scans() {
    let mut ledger = ScanLedger::new();
    assert_eq!(ledger.count_successful(), 0);
    assert_eq!(ledger.append("a".to_string(), true, "t1".to_string()), 1);
    assert_eq!(ledger.append("b".to_string(), false, "t2".to_string()), 2);
    assert_eq!(ledger.count_successful(), 1);
    assert_eq!(ledger.append("c".to_string(), false, "t3".to_string()), 3);
    assert_eq!(ledger.count_successful(), 1);
    assert_eq!(ledger.append("d".to_string(), true, "t4".to_string()), 4);
    assert_eq!(ledger.count_successful(), 2);
    assert_eq!(ledger.len(), 4);
    let ids: Vec<u64> = ledger.records().iter().map(|r| r.id).collect();
    assert_eq!(ids, vec![1, 2, 3, 4]);
}

#[test]
fn completion_rate_zero_when_nothing_planned() {
    let r = completion_rate(42, 0);
    assert_eq!((r.numerator, r.denominator), (0, 1));
    assert_eq!(r.numerator as f64 / r.denominator as f64, 0.0);
    let s = stats_for(None, Some(42));
    assert_eq!(s.completion_rate.numerator, 0);
    assert_eq!(s.completion_rate.whole_percent(), 0);
}

#[test]
fn completion_rate_is_count_over_planned() {
    let r = completion_rate(3, 8);
    assert_eq!((r.numerator, r.denominator), (300, 8));
    assert_eq!(r.whole_percent(), 37);
    assert_eq!(r.numerator as f64 / r.denominator as f64, (3.0 / 8.0) * 100.0);
    let over = completion_rate(600, 500);
    assert_eq!(over.whole_percent(), 120);
    let negative = completion_rate(5, -3);
    assert_eq!((negative.numerator, negative.denominator), (0, 1));
}

#[test]
fn half_of_plan_is_fifty_percent() {
    let r = completion_rate(250, 500);
    assert_eq!(r.numerator as f64 / r.denominator as f64, 50.0);
    assert_eq!(r.whole_percent(), 50);
}

#[test]
fn failed_verification_is_still_recorded() {
    let mut counter = seeded_counter();
    let out = counter.process_scan("  XYZ-1 ", bad_reply(), "2024-01-01T10:00:00+08:00".to_string());
    assert!(!out.success);
    assert!(!out.message.is_empty());
    assert_eq!(out.message, "外部接口错误: 500 Internal Server Error");
    assert!(out.recorded);
    assert_eq!(out.current_count, 0);
    assert_eq!(counter.ledger.len(), 1);
    let rec = &counter.ledger.records()[0];
    assert_eq!(rec.barcode, "XYZ-1");
    assert!(!rec.success);
    assert_eq!(rec.created_at, "2024-01-01T10:00:00+08:00");

    let out = counter.process_scan("Q", GatewayReply::TransportError { detail: "timed out".to_string() }, "t".to_string());
    assert!(!out.success);
    assert_eq!(out.message, "请求失败: timed out");
    assert_eq!(counter.ledger.len(), 2);
}

#[test]
fn seeded_plan_resolves_by_time() {
    let counter = seeded_counter();
    let s = counter.get_stats(at(10, 0, 0));
    assert_eq!((s.team.as_str(), s.shift_name.as_str(), s.planned_output), ("A", "Day", 500));
    let s = counter.get_stats(at(21, 0, 0));
    assert_eq!((s.team.as_str(), s.shift_name.as_str(), s.planned_output), ("-", "-", 0));
    assert_eq!(s.completion_rate.numerator, 0);
}

#[test]
fn two_of_three_scans_count() {
    let mut counter = seeded_counter();
    let a = counter.process_scan("A1", ok_reply(), "t1".to_string());
    assert!(a.success);
    assert_eq!(a.message, "扫描成功");
    assert_eq!(a.current_count, 1);
    let b = counter.process_scan("A2", bad_reply(), "t2".to_string());
    assert_eq!(b.current_count, 1);
    let c = counter.process_scan("A3", GatewayReply::Status { code: 201, text: "201 Created".to_string() }, "t3".to_string());
    assert!(c.success);
    assert_eq!(c.current_count, 2);
    assert_eq!(counter.ledger.count_successful(), 2);
    assert_eq!(counter.ledger.len(), 3);
    let codes: Vec<&str> = counter.ledger.records().iter().map(|r| r.barcode.as_str()).collect();
    assert_eq!(codes, vec!["A1", "A2", "A3"]);
    let s = counter.get_stats(at(12, 0, 0));
    assert_eq!(s.current_count, 2);
    assert_eq!((s.completion_rate.numerator, s.completion_rate.denominator), (200, 500));
}

#[test]
fn status_range_decides_success() {
    for (code, ok) in [(199u16, false), (200, true), (204, true), (299, true), (300, false), (404, false)] {
        let v = verification_outcome(GatewayReply::Status { code, text: format!("{}", code) });
        assert_eq!(v.success, ok);
        if !ok {
            assert_eq!(v.detail, format!("外部接口错误: {}", code));
        }
    }
}

#[test]
fn unreadable_count_degrades_to_zero() {
    let p = plan(1, "A", "Day", 500, "08:00:00", "20:00:00");
    let s = stats_for(Some(&p), None);
    assert_eq!(s.current_count, 0);
    assert_eq!(s.team, "A");
    assert_eq!((s.completion_rate.numerator, s.completion_rate.denominator), (0, 500));
}

#[test]
fn barcode_is_trimmed_or_refused() {
    assert_eq!(accept_barcode("  ABC-123 \n"), Some("ABC-123".to_string()));
    assert_eq!(accept_barcode("\tX\t"), Some("X".to_string()));
    assert_eq!(accept_barcode("   "), None);
    assert_eq!(accept_barcode(""), None);
}

#[test]
fn escape_replaces_markup_characters() {
    assert_eq!(html_escape(r#"<a href="x">Tom & 'Jerry'</a>"#), "&lt;a href=&quot;x&quot;&gt;Tom &amp; &#39;Jerry&#39;&lt;/a&gt;");
    assert_eq!(html_escape(""), "");
    assert_eq!(html_escape("班组 A"), "班组 A");
    assert_eq!(html_escape("&amp;"), "&amp;amp;");
}

#[test]
fn stats_fragment_shows_values() {
    let html = render_stats("A&B", "<Day>", 500, 250);
    assert!(html.starts_with("<div class=\"grid\">"));
    assert!(html.contains("<div>A&amp;B</div>"));
    assert!(html.contains("<div>&lt;Day&gt;</div>"));
    assert!(html.contains("<div>500</div>"));
    assert!(html.contains("<div id=\"produced\">250</div>"));
    assert!(html.ends_with("</div>"));
    let negative = render_stats("-", "-", -12, 0);
    assert!(negative.contains("<div>-12</div>"));
    let extreme = render_stats("-", "-", i64::MIN, i64::MAX);
    assert!(extreme.contains("<div>-9223372036854775808</div>"));
    assert!(extreme.contains(">9223372036854775807</div>"));
}

#[test]
fn scan_result_fragment_shows_outcome() {
    let html = render_scan_result(false, "bad <code>", 7);
    assert!(html.contains("❌ 失败 - bad &lt;code&gt;</div>"));
    assert!(html.contains("当前产量: 7</div>"));
    let ok = render_scan_result(true, "fine", 10);
    assert!(ok.contains("✅ 成功 - fine</div>"));
}

#[test]
fn index_page_shows_stats_and_last_scan() {
    let page = render_index("A".to_string(), "Day".to_string(), 500, 3, None);
    assert!(page.starts_with("<!doctype html>"));
    assert!(page.ends_with("</html>"));
    assert!(page.contains("<b>当前班组</b><div>A</div>"));
    assert!(page.contains("<b>本班次排产量</b><div>500</div>"));
    assert!(page.contains("<div id=\"produced\">3</div>"));
    assert!(page.contains("<div id=\"result\" class=\"card\"> </div>"));
    assert!(page.contains("<body x-data=\"{ barcode: '' }\">"));
    let scan = ScanOutcome { success: true, message: "ok & done".to_string(), current_count: 4, recorded: true };
    let page = render_index("<T>".to_string(), "S".to_string(), 0, 4, Some(scan));
    assert!(page.contains("<div>&lt;T&gt;</div>"));
    assert!(page.contains("<div id=\"result\" class=\"card\">✅ 成功 ok &amp; done</div>"));
}
