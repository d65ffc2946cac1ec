//! HTML for the dashboard page and its two fragments.

use vstd::prelude::*;
use vstd::string::*;
use crate::counter::ScanOutcome;

verus! {

/// Opening of the dashboard page, up to the team.
pub const INDEX_HEAD: &'static str = r##"<!doctype html>
<html lang=\"zh-CN\">
<head>
  <meta charset="utf-8" />
  <meta name="viewport" content="width=device-width, initial-scale=1" />
  <title>生产看板 Demo</title>
  <script src="https://unpkg.com/htmx.org@1.9.10"></script>
  <script src="https://unpkg.com/alpinejs@3.x.x" defer></script>
  <style>
    body { font-family: system-ui, -apple-system, Segoe UI, Roboto, Helvetica, Arial; margin: 20px; }
    .card { border: 1px solid #ddd; padding: 16px; border-radius: 8px; margin-bottom: 12px; }
    .grid { display: grid; grid-template-columns: repeat(2, 1fr); gap: 12px; }
    .ok { color: #067d17; }
    .fail { color: #b00020; }
    input[type=text] { font-size: 20px; padding: 8px; width: 100%; }
    button { padding: 8px 12px; font-size: 16px; }
  </style>
  </head>
  <body x-data="{ barcode: '' }">
    <h2>生产看板</h2>
    <div id="stats-container" class="grid">
      <div class="card"><b>当前班组</b><div>"##;

/// Dashboard text between the team and the shift.
pub const INDEX_AFTER_TEAM: &'static str = r##"</div></div>
      <div class="card"><b>当前班次</b><div>"##;

/// Dashboard text between the shift and the planned output.
pub const INDEX_AFTER_SHIFT: &'static str = r##"</div></div>
      <div class="card"><b>本班次排产量</b><div>"##;

/// Dashboard text between the planned output and the count.
pub const INDEX_AFTER_PLANNED: &'static str = r##"</div></div>
      <div class="card"><b>实时产量</b><div id="produced">"##;

/// Dashboard text between the count and the last scan's status.
pub const INDEX_AFTER_PRODUCED: &'static str = r##"</div></div>
    </div>

    <div class="card">
      <form hx-post="/scan" hx-target="#result" hx-swap="outerHTML" hx-on::after-request="htmx.trigger('#stats-container', 'refresh-stats')">
        <label>条码输入</label>
        <input type="text" name="barcode" x-model="barcode" autofocus placeholder="扫描或输入条码后回车" />
        <button type="submit">提交</button>
      </form>
    </div>
    <div id="result" class="card">"##;

/// Close of the dashboard page, after the last scan's message.
pub const INDEX_TAIL: &'static str = r##"</div>
    
    <script>
      document.body.addEventListener('refresh-stats', function() {
        htmx.ajax('GET', '/stats', '#stats-container');
      });
    </script>
  </body>
</html>"##;

/// Opening of the stats fragment, up to the team.
pub const STATS_HEAD: &'static str = r##"<div class="grid">
            <div class="card"><b>当前班组</b><div>"##;

/// Stats fragment text between the team and the shift.
pub const STATS_AFTER_TEAM: &'static str = r##"</div></div>
            <div class="card"><b>当前班次</b><div>"##;

/// Stats fragment text between the shift and the planned output.
pub const STATS_AFTER_SHIFT: &'static str = r##"</div></div>
            <div class="card"><b>本班次排产量</b><div>"##;

/// Stats fragment text between the planned output and the count.
pub const STATS_AFTER_PLANNED: &'static str = r##"</div></div>
            <div class="card"><b>实时产量</b><div id="produced">"##;

/// Close of the stats fragment.
pub const STATS_TAIL: &'static str = r##"</div></div>
        </div>"##;

/// Opening of the scan result fragment, up to the status.
pub const RESULT_HEAD: &'static str = r##"<div id="result" class="card">
            <div style="margin-bottom: 8px;">"##;

/// Scan result fragment text between the message and the count.
pub const RESULT_AFTER_MESSAGE: &'static str = r##"</div>
            <div style="font-size: 14px; color: #666;">当前产量: "##;

/// Close of the scan result fragment.
pub const RESULT_TAIL: &'static str = r##"</div>
        </div>"##;

/// Marker shown for a scan that was verified.
pub const STATUS_OK: &'static str = "✅ 成功";

/// Marker shown for a scan that was not verified.
pub const STATUS_FAILED: &'static str = "❌ 失败";

/// The text that stands for a character in HTML: the five markup characters become
/// entities, every other character stands for itself.
pub open spec fn escape_char(c: char) -> Seq<char> {
    if c == '&' {
        "&amp;"@
    } else if c == '<' {
        "&lt;"@
    } else if c == '>' {
        "&gt;"@
    } else if c == '"' {
        "&quot;"@
    } else if c == '\'' {
        "&#39;"@
    } else {
        seq![c]
    }
}

/// A text made safe to place in HTML, character by character.
pub open spec fn escape_html(s: Seq<char>) -> Seq<char>
    decreases s.len(),
{
    if s.len() == 0 {
        Seq::<char>::empty()
    } else {
        escape_html(s.drop_last()) + escape_char(s.last())
    }
}

/// The character of a decimal digit.
pub open spec fn digit_char(d: nat) -> char {
    if d == 0 {
        '0'
    } else if d == 1 {
        '1'
    } else if d == 2 {
        '2'
    } else if d == 3 {
        '3'
    } else if d == 4 {
        '4'
    } else if d == 5 {
        '5'
    } else if d == 6 {
        '6'
    } else if d == 7 {
        '7'
    } else if d == 8 {
        '8'
    } else {
        '9'
    }
}

/// The decimal digits of a natural number, without leading zeros.
pub open spec fn digits_of(n: nat) -> Seq<char>
    decreases n,
{
    if n < 10 {
        seq![digit_char(n)]
    } else {
        digits_of(n / 10) + seq![digit_char(n % 10)]
    }
}

/// An integer written in decimal, with a leading `-` when negative.
pub open spec fn decimal_of(n: int) -> Seq<char> {
    if n < 0 {
        seq!['-'] + digits_of((-n) as nat)
    } else {
        digits_of(n as nat)
    }
}

/// The status marker shown for a scan, empty when there is none.
pub open spec fn scan_status(scan: Option<ScanOutcome>) -> Seq<char> {
    match scan {
        Some(s) => if s.success {
            STATUS_OK@
        } else {
            STATUS_FAILED@
        },
        None => Seq::<char>::empty(),
    }
}

/// The message of a scan, empty when there is none.
pub open spec fn scan_message(scan: Option<ScanOutcome>) -> Seq<char> {
    match scan {
        Some(s) => s.message@,
        None => Seq::<char>::empty(),
    }
}

/// The dashboard page for a team, a shift, its planned output, the count so far, and
/// the status and message of the last scan.
pub open spec fn index_page(
    team: Seq<char>,
    shift: Seq<char>,
    planned: int,
    produced: int,
    status: Seq<char>,
    msg: Seq<char>,
) -> Seq<char> {
    INDEX_HEAD@ + escape_html(team) + INDEX_AFTER_TEAM@ + escape_html(shift)
        + INDEX_AFTER_SHIFT@ + decimal_of(planned) + INDEX_AFTER_PLANNED@ + decimal_of(produced)
        + INDEX_AFTER_PRODUCED@ + status + " "@ + escape_html(msg) + INDEX_TAIL@
}

/// The stats fragment for a team, a shift, its planned output and the count so far.
pub open spec fn stats_fragment(team: Seq<char>, shift: Seq<char>, planned: int, stats: int) -> Seq<char> {
    STATS_HEAD@ + escape_html(team) + STATS_AFTER_TEAM@ + escape_html(shift) + STATS_AFTER_SHIFT@
        + decimal_of(planned) + STATS_AFTER_PLANNED@ + decimal_of(stats) + STATS_TAIL@
}

/// The fragment that reports one scan: its status marker, its message and the count.
pub open spec fn result_fragment(success: bool, msg: Seq<char>, stats: int) -> Seq<char> {
    RESULT_HEAD@ + (if success {
        STATUS_OK@
    } else {
        STATUS_FAILED@
    }) + " - "@ + escape_html(msg) + RESULT_AFTER_MESSAGE@ + decimal_of(stats) + RESULT_TAIL@
}

/// Makes a text safe to place in HTML: `&`, `<`, `>`, `"` and `'` become entities.
pub fn html_escape(input: &str) -> (r: String)
    ensures
        r@ == escape_html(input@),
{
    let n = input.unicode_len();
    let mut out = String::new();
    let mut i: usize = 0;
    while i < n
        invariant
            n == input@.len(),
            0 <= i <= n,
            out@ == escape_html(input@.subrange(0, i as int)),
        decreases n - i,
    {
        let c = input.get_char(i);
        proof {
            let s = input@.subrange(0, i as int + 1);
            assert(s.drop_last() =~= input@.subrange(0, i as int));
            assert(s.last() == c);
        }
        if c == '&' {
            out.append("&amp;");
        } else if c == '<' {
            out.append("&lt;");
        } else if c == '>' {
            out.append("&gt;");
        } else if c == '"' {
            out.append("&quot;");
        } else if c == '\'' {
            out.append("&#39;");
        } else {
            let one = input.substring_char(i, i + 1);
            assert(one@ =~= seq![c]);
            out.append(one);
        }
        i = i + 1;
    }
    assert(input@.subrange(0, n as int) =~= input@);
    out
}

/// The text of one decimal digit.
fn digit_text(d: u64) -> (r: &'static str)
    requires
        d < 10,
    ensures
        r@ == seq![digit_char(d as nat)],
{
    proof {
        reveal_strlit("0");
        reveal_strlit("1");
        reveal_strlit("2");
        reveal_strlit("3");
        reveal_strlit("4");
        reveal_strlit("5");
        reveal_strlit("6");
        reveal_strlit("7");
        reveal_strlit("8");
        reveal_strlit("9");
    }
    let r = if d == 0 {
        "0"
    } else if d == 1 {
        "1"
    } else if d == 2 {
        "2"
    } else if d == 3 {
        "3"
    } else if d == 4 {
        "4"
    } else if d == 5 {
        "5"
    } else if d == 6 {
        "6"
    } else if d == 7 {
        "7"
    } else if d == 8 {
        "8"
    } else {
        "9"
    };
    assert(r@ =~= seq![digit_char(d as nat)]);
    r
}

/// Appends the decimal digits of `n`.
fn append_digits(out: &mut String, n: u64)
    ensures
        final(out)@ == old(out)@ + digits_of(n as nat),
    decreases n,
{
    if n >= 10 {
        append_digits(out, n / 10);
        out.append(digit_text(n % 10));
        assert(final(out)@ =~= old(out)@ + digits_of(n as nat));
    } else {
        out.append(digit_text(n));
    }
}

/// Appends a signed integer in decimal.
fn append_decimal(out: &mut String, n: i64)
    ensures
        final(out)@ == old(out)@ + decimal_of(n as int),
{
    if n < 0 {
        proof {
            reveal_strlit("-");
        }
        out.append("-");
        let magnitude: u64 = (0i128 - n as i128) as u64;
        append_digits(out, magnitude);
        assert(final(out)@ =~= old(out)@ + decimal_of(n as int));
    } else {
        append_digits(out, n as u64);
    }
}

/// The dashboard page: team and shift (escaped), planned output, count so far, and the
/// status and message of the last scan, if one is given.
pub fn render_index(team: String, shift: String, planned: i64, produced: i64, scan: Option<ScanOutcome>) -> (r: String)
    ensures
        r@ == index_page(team@, shift@, planned as int, produced as int, scan_status(scan), scan_message(scan)),
{
    let mut out = String::from_str(INDEX_HEAD);
    out.append(html_escape(team.as_str()).as_str());
    out.append(INDEX_AFTER_TEAM);
    out.append(html_escape(shift.as_str()).as_str());
    out.append(INDEX_AFTER_SHIFT);
    append_decimal(&mut out, planned);
    out.append(INDEX_AFTER_PLANNED);
    append_decimal(&mut out, produced);
    out.append(INDEX_AFTER_PRODUCED);
    match &scan {
        Some(s) => {
            if s.success {
                out.append(STATUS_OK);
            } else {
                out.append(STATUS_FAILED);
            }
        },
        None => {},
    }
    out.append(" ");
    match &scan {
        Some(s) => {
            out.append(html_escape(s.message.as_str()).as_str());
        },
        None => {
            let empty = html_escape("");
            proof {
                reveal_strlit("");
            }
            out.append(empty.as_str());
        },
    }
    out.append(INDEX_TAIL);
    out
}

/// The stats fragment: team and shift (escaped), planned output and count so far.
pub fn render_stats(team: &str, shift: &str, planned: i64, stats: i64) -> (r: String)
    ensures
        r@ == stats_fragment(team@, shift@, planned as int, stats as int),
{
    let mut out = String::from_str(STATS_HEAD);
    out.append(html_escape(team).as_str());
    out.append(STATS_AFTER_TEAM);
    out.append(html_escape(shift).as_str());
    out.append(STATS_AFTER_SHIFT);
    append_decimal(&mut out, planned);
    out.append(STATS_AFTER_PLANNED);
    append_decimal(&mut out, stats);
    out.append(STATS_TAIL);
    out
}

/// The fragment that reports one scan: its status marker, its message (escaped) and the
/// count so far.
pub fn render_scan_result(success: bool, message: &str, stats: i64) -> (r: String)
    ensures
        r@ == result_fragment(success, message@, stats as int),
{
    let mut out = String::from_str(RESULT_HEAD);
    if success {
        out.append(STATUS_OK);
    } else {
        out.append(STATUS_FAILED);
    }
    out.append(" - ");
    out.append(html_escape(message).as_str());
    out.append(RESULT_AFTER_MESSAGE);
    append_decimal(&mut out, stats);
    out.append(RESULT_TAIL);
    out
}

} // verus!
