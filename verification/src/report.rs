//! What the command line shows: score bars, the tier ladder with the machine's own tier
//! marked, and the status-bar text.
use vstd::prelude::*;
use crate::text::{chars_of, eq_str, push_str, push_decimal, decimal, digit_char};
use crate::hardware::MonitorInfo;
use crate::score::{OmaRankResult, tier_index, tier_name};

verus! {

broadcast use vstd::string::group_string_axioms;

// ---------------------------------------------------------------- Score bars

/// The number of cells of a score bar.
pub const BAR_WIDTH: u64 = 24;

/// The filled cells of the bar for `score` (out of 100).
pub open spec fn bar_filled(score: nat) -> nat {
    score * 24 / 100
}

/// The empty cells of the bar for `score`: the rest of its 24 cells, none when the
/// score overfills it.
pub open spec fn bar_empty(score: nat) -> nat {
    if bar_filled(score) < 24 {
        (24 - bar_filled(score)) as nat
    } else {
        0
    }
}

/// The bar for `score`, in green: `[`, a `█` per filled cell, a `░` per empty cell, `]`.
pub open spec fn bar_of(score: nat) -> Seq<char> {
    "\x1b[32m["@ + Seq::new(bar_filled(score), |i: int| '█') + Seq::new(
        bar_empty(score),
        |i: int| '░',
    ) + "]\x1b[0m"@
}

fn push_repeated(s: &mut String, c: char, n: u64)
    ensures
        final(s)@ == old(s)@ + Seq::new(n as nat, |i: int| c),
{
    let mut k: u64 = 0;
    while k < n
        invariant
            0 <= k <= n,
            s@ == old(s)@ + Seq::new(k as nat, |i: int| c),
        decreases n - k,
    {
        s.push(c);
        assert(old(s)@ + Seq::new((k + 1) as nat, |i: int| c) =~= old(s)@ + Seq::new(
            k as nat,
            |i: int| c,
        ) + seq![c]);
        k += 1;
    }
}

/// The score bar shown beside a component score.
pub fn render_bar(score: u32) -> (r: String)
    ensures
        r@ == bar_of(score as nat),
{
    let filled: u64 = (score as u64 * BAR_WIDTH) / 100;
    let empty: u64 = if filled < BAR_WIDTH {
        BAR_WIDTH - filled
    } else {
        0
    };
    let mut r = String::new();
    push_str(&mut r, "\x1b[32m[");
    push_repeated(&mut r, '█', filled);
    push_repeated(&mut r, '░', empty);
    push_str(&mut r, "]\x1b[0m");
    r
}

/// A score bar has its 24 cells for every score from 0 to 100, filled in proportion.
pub proof fn law_bar_has_fixed_width(score: nat)
    requires
        score <= 100,
    ensures
        bar_filled(score) + bar_empty(score) == 24,
        bar_filled(score) <= 24,
        score == 100 ==> bar_empty(score) == 0,
        score == 0 ==> bar_filled(score) == 0,
{
}

// ---------------------------------------------------------------- Tier ladder

/// One row of the tier ladder: badge, score range, world-rank span, icon, tier name and
/// community share.
pub struct LadderRow {
    pub badge: String,
    pub range: String,
    pub rank_span: String,
    pub icon: String,
    pub name: String,
    pub share: String,
}

/// The abstract value of a ladder row.
pub open spec fn row_view(r: LadderRow) -> (Seq<char>, Seq<char>, Seq<char>, Seq<char>, Seq<char>, Seq<char>) {
    (r.badge@, r.range@, r.rank_span@, r.icon@, r.name@, r.share@)
}

/// Row `i` of the ladder, from the top tier (0) to the bottom one (7).
pub open spec fn ladder_row(i: int) -> (Seq<char>, Seq<char>, Seq<char>, Seq<char>, Seq<char>, Seq<char>) {
    if i == 0 {
        ("S+"@, "96-100"@, "#1 - #124"@, "\u{f091}"@, "Cosmic Reality Simulator"@, "Top 1%"@)
    } else if i == 1 {
        ("S"@, "89-95"@, "#125 - #624"@, "\u{f04c5}"@, "NASA Supercomputer"@, "Top 5%"@)
    } else if i == 2 {
        ("A"@, "76-88"@, "#625 - #1872"@, "\u{f135}"@, "Cyberpunk Beast"@, "Top 15%"@)
    } else if i == 3 {
        ("B"@, "61-75"@, "#1873 - #4368"@, "\u{f11b}"@, "Gaming Rig"@, "Upper 35%"@)
    } else if i == 4 {
        ("C"@, "46-60"@, "#4369 - #8112"@, "\u{f108}"@, "Honest Daily Driver"@, "Mid 50%"@)
    } else if i == 5 {
        ("D"@, "31-45"@, "#8113 - #10608"@, "\u{f2db}"@, "Budget Warrior"@, "Lower 25%"@)
    } else if i == 6 {
        ("E"@, "16-30"@, "#10609-#12105"@, "\u{f109}"@, "Study Mode Only"@, "Ultra-Eco"@)
    } else {
        ("F"@, "0-15"@, "#12106-#12480"@, "\u{f071}"@, "Minimal Hardware"@, "Potato"@)
    }
}

/// The number of rows of the ladder.
pub const LADDER_ROWS: usize = 8;

fn row(badge: &str, range: &str, rank_span: &str, icon: &str, name: &str, share: &str) -> (r:
    LadderRow)
    ensures
        row_view(r) == (badge@, range@, rank_span@, icon@, name@, share@),
{
    LadderRow {
        badge: badge.to_owned(),
        range: range.to_owned(),
        rank_span: rank_span.to_owned(),
        icon: icon.to_owned(),
        name: name.to_owned(),
        share: share.to_owned(),
    }
}

/// The rows of the tier ladder, top tier first.
pub fn ladder_rows() -> (r: Vec<LadderRow>)
    ensures
        r@.len() == LADDER_ROWS,
        forall|i: int| 0 <= i < LADDER_ROWS ==> row_view(#[trigger] r@[i]) == ladder_row(i),
{
    let mut r: Vec<LadderRow> = Vec::new();
    r.push(row("S+", "96-100", "#1 - #124", "\u{f091}", "Cosmic Reality Simulator", "Top 1%"));
    r.push(row("S", "89-95", "#125 - #624", "\u{f04c5}", "NASA Supercomputer", "Top 5%"));
    r.push(row("A", "76-88", "#625 - #1872", "\u{f135}", "Cyberpunk Beast", "Top 15%"));
    r.push(row("B", "61-75", "#1873 - #4368", "\u{f11b}", "Gaming Rig", "Upper 35%"));
    r.push(row("C", "46-60", "#4369 - #8112", "\u{f108}", "Honest Daily Driver", "Mid 50%"));
    r.push(row("D", "31-45", "#8113 - #10608", "\u{f2db}", "Budget Warrior", "Lower 25%"));
    r.push(row("E", "16-30", "#10609-#12105", "\u{f109}", "Study Mode Only", "Ultra-Eco"));
    r.push(row("F", "0-15", "#12106-#12480", "\u{f071}", "Minimal Hardware", "Potato"));
    r
}

/// Whether the ladder row with `badge` is marked as the machine's own for a total of
/// `score`: each tier is marked within its own range of totals (S+ from 96 up).
pub open spec fn marks_tier(score: int, badge: Seq<char>) -> bool {
    ||| score >= 76 && score <= 88 && badge == "A"@
    ||| score >= 89 && score <= 95 && badge == "S"@
    ||| score >= 96 && badge == "S+"@
    ||| score >= 61 && score <= 75 && badge == "B"@
    ||| score >= 46 && score <= 60 && badge == "C"@
    ||| score >= 31 && score <= 45 && badge == "D"@
    ||| score >= 16 && score <= 30 && badge == "E"@
    ||| score < 16 && badge == "F"@
}

/// Whether the ladder row with `badge` is marked for a total of `score`.
pub fn is_my_tier(score: u32, badge: &str) -> (b: bool)
    ensures
        b == marks_tier(score as int, badge@),
{
    let v = chars_of(badge);
    (score >= 76 && score <= 88 && eq_str(&v, "A")) || (score >= 89 && score <= 95 && eq_str(&v, "S")) || (score
        >= 96 && eq_str(&v, "S+")) || (score >= 61 && score <= 75 && eq_str(&v, "B")) || (score
        >= 46 && score <= 60 && eq_str(&v, "C")) || (score >= 31 && score <= 45 && eq_str(&v, "D"))
        || (score >= 16 && score <= 30 && eq_str(&v, "E")) || (score < 16 && eq_str(&v, "F"))
}

/// The ladder names its tiers as the score card does: row `i` carries the name of tier `i`.
pub proof fn law_ladder_names_tiers(i: int)
    requires
        0 <= i < LADDER_ROWS,
    ensures
        ladder_row(i).4 == tier_name(i),
{
}

/// For a total from 0 to 100, exactly one row is marked: the row of the machine's own
/// tier.
pub proof fn law_ladder_marks_own_tier(score: int, i: int)
    requires
        0 <= score <= 100,
        0 <= i < LADDER_ROWS,
    ensures
        marks_tier(score, ladder_row(tier_index(score)).0),
        marks_tier(score, ladder_row(i).0) <==> i == tier_index(score),
{
    reveal_strlit("S+");
    reveal_strlit("S");
    reveal_strlit("A");
    reveal_strlit("B");
    reveal_strlit("C");
    reveal_strlit("D");
    reveal_strlit("E");
    reveal_strlit("F");
    assert("S+"@.len() == 2);
    assert("S"@.len() == 1);
    assert("S"@ != "S+"@);
    assert("A"@[0] == 'A' && "B"@[0] == 'B' && "C"@[0] == 'C' && "D"@[0] == 'D' && "E"@[0] == 'E'
        && "F"@[0] == 'F' && "S"@[0] == 'S' && "S+"@[0] == 'S');
}

// ---------------------------------------------------------------- Numbers as text

/// A count of tenths written with one decimal place, as `{:.1}` writes the double nearest
/// to it.
pub open spec fn tenths_text(t: nat) -> Seq<char> {
    decimal(t / 10) + "."@ + seq![digit_char(t % 10)]
}

/// A count of tenths rounded to a whole number, halves to the even neighbour, as `{:.0}`
/// rounds the double nearest to it.
pub open spec fn round_tenths(t: nat) -> nat {
    let q = t / 10;
    let r = t % 10;
    if r < 5 {
        q
    } else if r > 5 {
        q + 1
    } else if q % 2 == 0 {
        q
    } else {
        q + 1
    }
}

/// Appends `t` tenths written with one decimal place.
pub fn push_tenths(s: &mut String, t: u64)
    ensures
        final(s)@ == old(s)@ + tenths_text(t as nat),
{
    push_decimal(s, (t / 10) as u128);
    push_str(s, ".");
    let d = t % 10;
    let mut tail = String::new();
    push_decimal(&mut tail, d as u128);
    assert(decimal(d as nat) == seq![digit_char(d as nat)]);
    push_str(s, tail.as_str());
    proof {
        reveal_strlit(".");
    }
    assert(final(s)@ =~= old(s)@ + tenths_text(t as nat)) by {
        reveal_strlit(".");
    };
}

/// `t` tenths rounded to a whole number, halves to even.
pub fn rounded_tenths(t: u64) -> (r: u64)
    ensures
        r == round_tenths(t as nat),
{
    let q = t / 10;
    let rem = t % 10;
    if rem < 5 {
        q
    } else if rem > 5 {
        q + 1
    } else if q % 2 == 0 {
        q
    } else {
        q + 1
    }
}

// ---------------------------------------------------------------- Status bar

/// The status-bar text: tier icon, total score and tier name, separated by spaces.
pub open spec fn bar_status_text_of(icon: Seq<char>, total: nat, name: Seq<char>) -> Seq<char> {
    icon + " "@ + decimal(total) + " "@ + name
}

/// The status-bar text for a score card.
pub fn bar_status_text(res: &OmaRankResult) -> (r: String)
    ensures
        r@ == bar_status_text_of(res.tier_icon@, res.total_score as nat, res.tier_name@),
{
    let mut r = String::new();
    push_str(&mut r, res.tier_icon.as_str());
    push_str(&mut r, " ");
    push_decimal(&mut r, res.total_score as u128);
    push_str(&mut r, " ");
    push_str(&mut r, res.tier_name.as_str());
    r
}

/// The resolution of the first monitor as `WxH`, or `1080p` when there is none.
pub open spec fn primary_resolution(ms: Seq<MonitorInfo>) -> Seq<char> {
    if ms.len() > 0 {
        decimal(ms[0].width as nat) + "x"@ + decimal(ms[0].height as nat)
    } else {
        "1080p"@
    }
}

/// The refresh rate of the first monitor rounded to whole hertz, or 60 when there is none.
pub open spec fn primary_refresh(ms: Seq<MonitorInfo>) -> nat {
    if ms.len() > 0 {
        round_tenths(ms[0].refresh_rate_tenths as nat)
    } else {
        60
    }
}

/// The status-bar tooltip: score and tier, the critic quote, processor, graphics,
/// memory and the first display.
pub open spec fn tooltip_of(res: OmaRankResult) -> Seq<char> {
    let hw = res.hardware;
    "🏆 OmaRank: "@ + decimal(res.total_score as nat) + " / 100 ("@ + res.tier_name@ + ")\n• "@
        + res.tier_quote@ + "\n\n• CPU: "@ + hw.cpu_name@ + " ("@ + decimal(hw.cpu_threads as nat)
        + " threads)\n• GPU: "@ + hw.gpu_name@ + "\n• RAM: "@ + tenths_text(
        hw.ram_total_gb_tenths as nat,
    ) + " GB\n• Display: "@ + primary_resolution(hw.monitors@) + " @ "@ + decimal(
        primary_refresh(hw.monitors@),
    ) + "Hz\n\n[Left Click] View Hardware Breakdown & Survey"@
}

/// Appends the resolution of the first monitor (or `1080p`).
fn push_resolution(s: &mut String, ms: &Vec<MonitorInfo>)
    ensures
        final(s)@ == old(s)@ + primary_resolution(ms@),
{
    if ms.len() > 0 {
        push_decimal(s, ms[0].width as u128);
        push_str(s, "x");
        push_decimal(s, ms[0].height as u128);
    } else {
        push_str(s, "1080p");
    }
}

/// The status-bar tooltip for a score card.
pub fn bar_status_tooltip(res: &OmaRankResult) -> (r: String)
    ensures
        r@ == tooltip_of(*res),
{
    let hw = &res.hardware;
    let mut r = String::new();
    push_str(&mut r, "🏆 OmaRank: ");
    push_decimal(&mut r, res.total_score as u128);
    push_str(&mut r, " / 100 (");
    push_str(&mut r, res.tier_name.as_str());
    push_str(&mut r, ")\n• ");
    push_str(&mut r, res.tier_quote.as_str());
    push_str(&mut r, "\n\n• CPU: ");
    push_str(&mut r, hw.cpu_name.as_str());
    push_str(&mut r, " (");
    push_decimal(&mut r, hw.cpu_threads as u128);
    push_str(&mut r, " threads)\n• GPU: ");
    push_str(&mut r, hw.gpu_name.as_str());
    push_str(&mut r, "\n• RAM: ");
    push_tenths(&mut r, hw.ram_total_gb_tenths);
    push_str(&mut r, " GB\n• Display: ");
    push_resolution(&mut r, &hw.monitors);
    push_str(&mut r, " @ ");
    let hz = if hw.monitors.len() > 0 {
        rounded_tenths(hw.monitors[0].refresh_rate_tenths as u64)
    } else {
        60
    };
    push_decimal(&mut r, hz as u128);
    push_str(&mut r, "Hz\n\n[Left Click] View Hardware Breakdown & Survey");
    r
}


/// The most bytes of JSON the `--json` output prints.
pub const JSON_OUTPUT_LIMIT: usize = 65536;

/// Whether a JSON report of `len` bytes may be printed.
pub fn json_output_allowed(len: usize) -> (b: bool)
    ensures
        b == (len <= JSON_OUTPUT_LIMIT),
{
    len <= JSON_OUTPUT_LIMIT
}

}
