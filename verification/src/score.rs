//! Component scores, the weighted total, and the rank tier it falls in.
use vstd::prelude::*;
use crate::hardware::{HardwareInfo, MonitorInfo, same_hardware};
use crate::text::{chars_of, contains_str, eq_str, seq_contains};

verus! {

/// The six component scores, each out of 100.
#[derive(Clone, Copy, Debug, PartialEq, Eq, Structural)]
pub struct SubScores {
    pub cpu: u32,
    pub gpu: u32,
    pub ram: u32,
    pub mobo: u32,
    pub display: u32,
    pub storage: u32,
}

/// The score card of a machine.
pub struct OmaRankResult {
    pub total_score: u32,
    pub tier_name: String,
    pub tier_icon: String,
    pub tier_quote: String,
    pub tier_color: String,
    pub sub_scores: SubScores,
    pub percentile_text: String,
    pub hardware: HardwareInfo,
}

/// `x` kept within `lo..=hi`.
pub open spec fn clamp(x: int, lo: int, hi: int) -> int {
    if x > hi {
        hi
    } else if x < lo {
        lo
    } else {
        x
    }
}

// ---------------------------------------------------------------- CPU

/// Points for the hardware thread count: from 16 for 4 threads up to 65 for 32 or more.
pub open spec fn thread_points(threads: int) -> int {
    if threads >= 32 {
        65
    } else if threads >= 24 {
        58
    } else if threads >= 20 {
        54
    } else if threads >= 16 {
        46
    } else if threads >= 12 {
        38
    } else if threads >= 8 {
        28
    } else if threads >= 4 {
        16
    } else {
        0
    }
}

/// Bonus points for the physical core count: 6 from 8 cores, 8 from 12, 10 from 16.
pub open spec fn core_points(cores: int) -> int {
    if cores >= 16 {
        10
    } else if cores >= 12 {
        8
    } else if cores >= 8 {
        6
    } else {
        0
    }
}

/// Points for the clock in whole MHz: up to 12 from 5200 MHz, minus 8 below 2600 MHz
/// (a clock of 0 counts as unknown).
pub open spec fn clock_points(mhz: int) -> int {
    if mhz >= 5200 {
        12
    } else if mhz >= 4600 {
        8
    } else if mhz >= 4000 {
        5
    } else if mhz < 2600 && mhz > 0 {
        -8
    } else {
        0
    }
}

/// The CPU score: 15 base points plus thread, core and clock points, kept within 5..=100.
pub open spec fn cpu_score(cores: int, threads: int, mhz: int) -> int {
    clamp(15 + thread_points(threads) + core_points(cores) + clock_points(mhz), 5, 100)
}

/// Scores a CPU from its core and thread counts and its clock in whole MHz.
pub fn score_cpu(cores: usize, threads: usize, mhz: u64) -> (r: u32)
    ensures
        r == cpu_score(cores as int, threads as int, mhz as int),
{
    let mut s: u32 = 15;
    if threads >= 32 {
        s += 65;
    } else if threads >= 24 {
        s += 58;
    } else if threads >= 20 {
        s += 54;
    } else if threads >= 16 {
        s += 46;
    } else if threads >= 12 {
        s += 38;
    } else if threads >= 8 {
        s += 28;
    } else if threads >= 4 {
        s += 16;
    }
    if cores >= 16 {
        s += 10;
    } else if cores >= 12 {
        s += 8;
    } else if cores >= 8 {
        s += 6;
    }
    if mhz >= 5200 {
        s += 12;
    } else if mhz >= 4600 {
        s += 8;
    } else if mhz >= 4000 {
        s += 5;
    } else if mhz < 2600 && mhz > 0 {
        s -= 8;
    }
    if s > 100 {
        100
    } else if s < 5 {
        5
    } else {
        s
    }
}

// ---------------------------------------------------------------- RAM

/// The RAM score from the memory size in tenths of a GiB.
pub open spec fn ram_score(gb_tenths: int) -> int {
    if gb_tenths >= 1200 {
        100
    } else if gb_tenths >= 600 {
        96
    } else if gb_tenths >= 300 {
        85
    } else if gb_tenths >= 150 {
        62
    } else if gb_tenths >= 110 {
        45
    } else if gb_tenths >= 70 {
        28
    } else if gb_tenths >= 35 {
        15
    } else {
        5
    }
}

/// Scores the memory size, given in tenths of a GiB.
pub fn score_ram(gb_tenths: u64) -> (r: u32)
    ensures
        r == ram_score(gb_tenths as int),
{
    if gb_tenths >= 1200 {
        100
    } else if gb_tenths >= 600 {
        96
    } else if gb_tenths >= 300 {
        85
    } else if gb_tenths >= 150 {
        62
    } else if gb_tenths >= 110 {
        45
    } else if gb_tenths >= 70 {
        28
    } else if gb_tenths >= 35 {
        15
    } else {
        5
    }
}

// ---------------------------------------------------------------- GPU

/// `str::to_lowercase`: Unicode lowercase mapping from std's tables.
pub uninterp spec fn lowercase_of(s: Seq<char>) -> Seq<char>;

/// Calls `str::to_lowercase`. Its result is named `lowercase_of` of the argument's
/// characters; nothing is claimed of what that mapping does to particular characters.
#[verifier::external_body]
fn to_lowercase(s: &str) -> (r: String)
    ensures
        r@ == lowercase_of(s@),
{
    s.to_lowercase()
}

/// The GPU score from an already lowercased model name `n` and driver `d`.
pub open spec fn gpu_score(n: Seq<char>, d: Seq<char>) -> int {
    if seq_contains(n, "4090"@) {
        100
    } else if seq_contains(n, "4080"@) || seq_contains(n, "7900 xtx"@) {
        95
    } else if seq_contains(n, "4070 ti"@) || seq_contains(n, "7900 xt"@) {
        90
    } else if seq_contains(n, "4070"@) || seq_contains(n, "7800 xt"@) || seq_contains(n, "3090"@)
        || seq_contains(n, "6950"@) {
        86
    } else if seq_contains(n, "b580"@) || seq_contains(n, "battlemage"@) || seq_contains(
        n,
        "4060 ti"@,
    ) || seq_contains(n, "7700 xt"@) || seq_contains(n, "3080"@) {
        82
    } else if seq_contains(n, "b570"@) || seq_contains(n, "4060"@) || seq_contains(n, "3070"@)
        || seq_contains(n, "7600 xt"@) {
        76
    } else if seq_contains(n, "a770"@) || seq_contains(n, "a750"@) || seq_contains(n, "3060"@)
        || seq_contains(n, "6600"@) || seq_contains(n, "2070"@) {
        68
    } else if seq_contains(n, "3050"@) || seq_contains(n, "2060"@) || seq_contains(n, "1660"@)
        || seq_contains(n, "rx 580"@) || seq_contains(n, "rx 570"@) {
        50
    } else if seq_contains(n, "1060"@) || seq_contains(n, "1050"@) || seq_contains(n, "gtx 970"@) {
        40
    } else if seq_contains(n, "radeon 780m"@) || seq_contains(n, "radeon 890m"@) || seq_contains(
        n,
        "arc 8"@,
    ) {
        48
    } else if seq_contains(n, "iris"@) || seq_contains(n, "radeon 680m"@) {
        38
    } else if seq_contains(n, "uhd"@) || seq_contains(n, "intel graphics"@) || d == "i915"@ {
        28
    } else if d == "nvidia"@ {
        70
    } else if d == "amdgpu"@ {
        65
    } else if d == "xe"@ {
        78
    } else {
        35
    }
}

/// Scores a GPU whose model name and driver are already lowercased.
pub fn score_gpu_lowercased(name: &str, driver: &str) -> (r: u32)
    ensures
        r == gpu_score(name@, driver@),
{
    let n = chars_of(name);
    let d = chars_of(driver);
    if contains_str(&n, "4090") {
        100
    } else if contains_str(&n, "4080") || contains_str(&n, "7900 xtx") {
        95
    } else if contains_str(&n, "4070 ti") || contains_str(&n, "7900 xt") {
        90
    } else if contains_str(&n, "4070") || contains_str(&n, "7800 xt") || contains_str(&n, "3090")
        || contains_str(&n, "6950") {
        86
    } else if contains_str(&n, "b580") || contains_str(&n, "battlemage") || contains_str(
        &n,
        "4060 ti",
    ) || contains_str(&n, "7700 xt") || contains_str(&n, "3080") {
        82
    } else if contains_str(&n, "b570") || contains_str(&n, "4060") || contains_str(&n, "3070")
        || contains_str(&n, "7600 xt") {
        76
    } else if contains_str(&n, "a770") || contains_str(&n, "a750") || contains_str(&n, "3060")
        || contains_str(&n, "6600") || contains_str(&n, "2070") {
        68
    } else if contains_str(&n, "3050") || contains_str(&n, "2060") || contains_str(&n, "1660")
        || contains_str(&n, "rx 580") || contains_str(&n, "rx 570") {
        50
    } else if contains_str(&n, "1060") || contains_str(&n, "1050") || contains_str(&n, "gtx 970") {
        40
    } else if contains_str(&n, "radeon 780m") || contains_str(&n, "radeon 890m") || contains_str(
        &n,
        "arc 8",
    ) {
        48
    } else if contains_str(&n, "iris") || contains_str(&n, "radeon 680m") {
        38
    } else if contains_str(&n, "uhd") || contains_str(&n, "intel graphics") || eq_str(&d, "i915") {
        28
    } else if eq_str(&d, "nvidia") {
        70
    } else if eq_str(&d, "amdgpu") {
        65
    } else if eq_str(&d, "xe") {
        78
    } else {
        35
    }
}

/// Scores a GPU from its model name and driver, compared case-insensitively.
pub fn score_gpu(name: &str, driver: &str) -> (r: u32)
    ensures
        r == gpu_score(lowercase_of(name@), lowercase_of(driver@)),
{
    let n = to_lowercase(name);
    let d = to_lowercase(driver);
    score_gpu_lowercased(n.as_str(), d.as_str())
}

// ---------------------------------------------------------------- Display

/// Points for a monitor's pixel count: 42 from 7 MP, 32 from 3.6 MP, 18 from 2 MP, else 8.
pub open spec fn resolution_points(pixels: int) -> int {
    if pixels >= 7_000_000 {
        42
    } else if pixels >= 3_600_000 {
        32
    } else if pixels >= 2_000_000 {
        18
    } else {
        8
    }
}

/// Points for a refresh rate in tenths of a hertz: up to 26 from 239 Hz, none below 74 Hz.
pub open spec fn refresh_points(tenths: int) -> int {
    if tenths >= 2390 {
        26
    } else if tenths >= 1650 {
        20
    } else if tenths >= 1430 {
        16
    } else if tenths >= 1190 {
        12
    } else if tenths >= 740 {
        6
    } else {
        0
    }
}

/// The points of one monitor: 30 plus resolution and refresh-rate points.
pub open spec fn monitor_points(m: MonitorInfo) -> int {
    30 + resolution_points(m.width * m.height) + refresh_points(m.refresh_rate_tenths as int)
}

/// The highest monitor points in `ms` (0 for none).
pub open spec fn best_monitor_points(ms: Seq<MonitorInfo>) -> int
    decreases ms.len(),
{
    if ms.len() == 0 {
        0
    } else {
        let prev = best_monitor_points(ms.drop_last());
        let p = monitor_points(ms.last());
        if p > prev {
            p
        } else {
            prev
        }
    }
}

proof fn lemma_best_is_max(ms: Seq<MonitorInfo>)
    ensures
        forall|i: int| 0 <= i < ms.len() ==> monitor_points(#[trigger] ms[i]) <= best_monitor_points(ms),
        ms.len() > 0 ==> exists|i: int|
            0 <= i < ms.len() && best_monitor_points(ms) == monitor_points(#[trigger] ms[i]),
    decreases ms.len(),
{
    if ms.len() > 0 {
        let rest = ms.drop_last();
        lemma_best_is_max(rest);
        assert forall|i: int| 0 <= i < ms.len() implies monitor_points(#[trigger] ms[i])
            <= best_monitor_points(ms) by {
            if i < rest.len() {
                assert(ms[i] == rest[i]);
            }
        }
        if monitor_points(ms.last()) > best_monitor_points(rest) || rest.len() == 0 {
            assert(best_monitor_points(ms) == monitor_points(ms[ms.len() - 1]));
        } else {
            let k = choose|k: int|
                0 <= k < rest.len() && best_monitor_points(rest) == monitor_points(#[trigger] rest[k]);
            assert(ms[k] == rest[k]);
        }
    }
}

proof fn lemma_best_at_most(a: Seq<MonitorInfo>, b: Seq<MonitorInfo>)
    requires
        a.to_multiset() == b.to_multiset(),
    ensures
        best_monitor_points(a) <= best_monitor_points(b),
{
    lemma_best_is_max(a);
    lemma_best_is_max(b);
    if a.len() > 0 {
        let i = choose|i: int|
            0 <= i < a.len() && best_monitor_points(a) == monitor_points(#[trigger] a[i]);
        vstd::seq_lib::to_multiset_contains(a, a[i]);
        vstd::seq_lib::to_multiset_contains(b, a[i]);
        assert(a.contains(a[i]));
        assert(b.contains(a[i]));
        let j = choose|j: int| 0 <= j < b.len() && b[j] == a[i];
        assert(monitor_points(b[j]) <= best_monitor_points(b));
    }
}

/// The display score does not depend on the order in which the monitors are listed.
pub proof fn law_display_score_ignores_order(a: Seq<MonitorInfo>, b: Seq<MonitorInfo>)
    requires
        a.to_multiset() == b.to_multiset(),
    ensures
        display_score(a) == display_score(b),
{
    lemma_best_at_most(a, b);
    lemma_best_at_most(b, a);
    vstd::seq_lib::to_multiset_len(a);
    vstd::seq_lib::to_multiset_len(b);
}

/// The display score: 40 without monitors, otherwise the best monitor's points plus 4 per
/// additional monitor, kept within 10..=100.
pub open spec fn display_score(ms: Seq<MonitorInfo>) -> int {
    if ms.len() == 0 {
        40
    } else {
        clamp(best_monitor_points(ms) + 4 * (ms.len() - 1), 10, 100)
    }
}

/// Scores the connected displays.
pub fn score_display(monitors: &[MonitorInfo]) -> (r: u32)
    ensures
        r == display_score(monitors@),
{
    if monitors.len() == 0 {
        return 40;
    }
    let mut best: u64 = 0;
    let mut i: usize = 0;
    while i < monitors.len()
        invariant
            0 <= i <= monitors@.len(),
            best == best_monitor_points(monitors@.take(i as int)),
            best <= 98,
        decreases monitors@.len() - i,
    {
        let m = &monitors[i];
        let w = m.width as u64;
        let h = m.height as u64;
        assert(w * h <= 0xffff_ffff * 0xffff_ffff) by (nonlinear_arith)
            requires
                w <= 0xffff_ffff,
                h <= 0xffff_ffff,
        ;
        let pixels = w * h;
        let mut s: u64 = 30;
        if pixels >= 7_000_000 {
            s += 42;
        } else if pixels >= 3_600_000 {
            s += 32;
        } else if pixels >= 2_000_000 {
            s += 18;
        } else {
            s += 8;
        }
        let t = m.refresh_rate_tenths;
        if t >= 2390 {
            s += 26;
        } else if t >= 1650 {
            s += 20;
        } else if t >= 1430 {
            s += 16;
        } else if t >= 1190 {
            s += 12;
        } else if t >= 740 {
            s += 6;
        }
        assert(monitors@.take(i + 1).drop_last() =~= monitors@.take(i as int));
        if s > best {
            best = s;
        }
        i += 1;
    }
    assert(monitors@.take(monitors@.len() as int) =~= monitors@);
    let extra: u64 = monitors.len() as u64 - 1;
    let total: u64 = if extra >= 100 {
        100
    } else {
        best + 4 * extra
    };
    if total > 100 {
        100
    } else if total < 10 {
        10
    } else {
        total as u32
    }
}

// ---------------------------------------------------------------- Storage

/// The storage score: 92 for NVMe, 70 for other SSDs, 30 otherwise.
pub open spec fn storage_score(kind: Seq<char>) -> int {
    if seq_contains(kind, "NVMe"@) {
        92
    } else if seq_contains(kind, "SSD"@) {
        70
    } else {
        30
    }
}

/// Scores the storage from its type description.
pub fn score_storage(storage: &str) -> (r: u32)
    ensures
        r == storage_score(storage@),
{
    let s = chars_of(storage);
    if contains_str(&s, "NVMe") {
        92
    } else if contains_str(&s, "SSD") {
        70
    } else {
        30
    }
}


// ---------------------------------------------------------------- Rank tiers

/// The tier a total score falls in: 0 for 96..=100 down to 7 for anything below 16
/// (and above 100).
pub open spec fn tier_index(score: int) -> int {
    if 96 <= score && score <= 100 {
        0
    } else if 89 <= score && score <= 95 {
        1
    } else if 76 <= score && score <= 88 {
        2
    } else if 61 <= score && score <= 75 {
        3
    } else if 46 <= score && score <= 60 {
        4
    } else if 31 <= score && score <= 45 {
        5
    } else if 16 <= score && score <= 30 {
        6
    } else {
        7
    }
}

/// The name of tier `i`.
pub open spec fn tier_name(i: int) -> Seq<char> {
    if i == 0 {
        "Cosmic Reality Simulator"@
    } else if i == 1 {
        "NASA Supercomputer"@
    } else if i == 2 {
        "Cyberpunk Beast"@
    } else if i == 3 {
        "Gaming Rig"@
    } else if i == 4 {
        "Honest Daily Driver"@
    } else if i == 5 {
        "Budget Warrior"@
    } else if i == 6 {
        "Study Mode Only"@
    } else {
        "Minimal Hardware"@
    }
}

/// The emoji of tier `i`.
pub open spec fn tier_icon(i: int) -> Seq<char> {
    if i == 0 {
        "🌌"@
    } else if i == 1 {
        "🛸"@
    } else if i == 2 {
        "🚀"@
    } else if i == 3 {
        "🏎️"@
    } else if i == 4 {
        "🚗"@
    } else if i == 5 {
        "🚲"@
    } else if i == 6 {
        "📻"@
    } else {
        "🥔"@
    }
}

/// The critic quote of tier `i`.
pub open spec fn tier_quote(i: int) -> Seq<char> {
    if i == 0 {
        "Is this a quantum supercomputer? The pinnacle of silicon evolution."@
    } else if i == 1 {
        "Hyprland bowed in respect before the kernel even finished booting."@
    } else if i == 2 {
        "High-refresh DSC + heavy silicon. Wayland animations glide like liquid butter."@
    } else if i == 3 {
        "High refresh rate, solid GPU. Now you can only blame your own reflexes."@
    } else if i == 4 {
        "Reliable workhorse. Won't break records, won't break a sweat. Perfectly balanced."@
    } else if i == 5 {
        "Proud veteran silicon. Smooth in 720p, doubles as a space heater on 1080p60."@
    } else if i == 6 {
        "Fans are quiet as long as you only open LibreOffice and htop. Don't push your luck."@
    } else {
        "You installed Arch on a microwave. The cooling fans are screaming for mercy."@
    }
}

/// The colour of tier `i`.
pub open spec fn tier_color(i: int) -> Seq<char> {
    if i == 0 {
        "#a855f7"@
    } else if i == 1 {
        "#6366f1"@
    } else if i == 2 {
        "#38bdf8"@
    } else if i == 3 {
        "#22c55e"@
    } else if i == 4 {
        "#eab308"@
    } else if i == 5 {
        "#f97316"@
    } else if i == 6 {
        "#ef4444"@
    } else {
        "#94a3b8"@
    }
}

/// The community share text of tier `i`.
pub open spec fn tier_percentile(i: int) -> Seq<char> {
    if i == 0 {
        "Top 1% ultra-enthusiast tier in the Omarchy community."@
    } else if i == 1 {
        "Top 5% elite powerhouse tier in the Omarchy community."@
    } else if i == 2 {
        "Top 15% enthusiast battlestation tier."@
    } else if i == 3 {
        "Upper 35% competitive gaming & dev segment."@
    } else if i == 4 {
        "Balanced middle 50% community baseline."@
    } else if i == 5 {
        "Lightweight terminal & efficiency tier."@
    } else if i == 6 {
        "Ultra-minimalist low-power tier."@
    } else {
        "Potato tier: Time to check your local PC parts flea market!"@
    }
}

/// The tier of a total score: its name, icon, critic quote, colour and community share.
pub fn get_rank_tier(score: u32) -> (r: (String, String, String, String, String))
    ensures
        r.0@ == tier_name(tier_index(score as int)),
        r.1@ == tier_icon(tier_index(score as int)),
        r.2@ == tier_quote(tier_index(score as int)),
        r.3@ == tier_color(tier_index(score as int)),
        r.4@ == tier_percentile(tier_index(score as int)),
{
    if 96 <= score && score <= 100 {
        (
            "Cosmic Reality Simulator".to_owned(),
            "🌌".to_owned(),
            "Is this a quantum supercomputer? The pinnacle of silicon evolution.".to_owned(),
            "#a855f7".to_owned(),
            "Top 1% ultra-enthusiast tier in the Omarchy community.".to_owned(),
        )
    } else if 89 <= score && score <= 95 {
        (
            "NASA Supercomputer".to_owned(),
            "🛸".to_owned(),
            "Hyprland bowed in respect before the kernel even finished booting.".to_owned(),
            "#6366f1".to_owned(),
            "Top 5% elite powerhouse tier in the Omarchy community.".to_owned(),
        )
    } else if 76 <= score && score <= 88 {
        (
            "Cyberpunk Beast".to_owned(),
            "🚀".to_owned(),
            "High-refresh DSC + heavy silicon. Wayland animations glide like liquid butter.".to_owned(),
            "#38bdf8".to_owned(),
            "Top 15% enthusiast battlestation tier.".to_owned(),
        )
    } else if 61 <= score && score <= 75 {
        (
            "Gaming Rig".to_owned(),
            "🏎️".to_owned(),
            "High refresh rate, solid GPU. Now you can only blame your own reflexes.".to_owned(),
            "#22c55e".to_owned(),
            "Upper 35% competitive gaming & dev segment.".to_owned(),
        )
    } else if 46 <= score && score <= 60 {
        (
            "Honest Daily Driver".to_owned(),
            "🚗".to_owned(),
            "Reliable workhorse. Won't break records, won't break a sweat. Perfectly balanced.".to_owned(),
            "#eab308".to_owned(),
            "Balanced middle 50% community baseline.".to_owned(),
        )
    } else if 31 <= score && score <= 45 {
        (
            "Budget Warrior".to_owned(),
            "🚲".to_owned(),
            "Proud veteran silicon. Smooth in 720p, doubles as a space heater on 1080p60.".to_owned(),
            "#f97316".to_owned(),
            "Lightweight terminal & efficiency tier.".to_owned(),
        )
    } else if 16 <= score && score <= 30 {
        (
            "Study Mode Only".to_owned(),
            "📻".to_owned(),
            "Fans are quiet as long as you only open LibreOffice and htop. Don't push your luck.".to_owned(),
            "#ef4444".to_owned(),
            "Ultra-minimalist low-power tier.".to_owned(),
        )
    } else {
        (
            "Minimal Hardware".to_owned(),
            "🥔".to_owned(),
            "You installed Arch on a microwave. The cooling fans are screaming for mercy.".to_owned(),
            "#94a3b8".to_owned(),
            "Potato tier: Time to check your local PC parts flea market!".to_owned(),
        )
    }
}

// ---------------------------------------------------------------- Motherboard

/// The motherboard score from the chipset name, by chipset tier: the enthusiast
/// flagships (X870E, X670E, Z890, Z790) 95, the other enthusiast series (X870, X670, Z690)
/// 88, the mainstream series (B850, B650E, B650, B760, B660, H770, X570) 72, the entry
/// series (A620, H610, B550, B450) 55, and an unrecognised chipset 45.
pub open spec fn mobo_score(chipset: Seq<char>) -> int {
    if seq_contains(chipset, "X870E"@) || seq_contains(chipset, "X670E"@) || seq_contains(
        chipset,
        "Z890"@,
    ) || seq_contains(chipset, "Z790"@) {
        95
    } else if seq_contains(chipset, "X870"@) || seq_contains(chipset, "X670"@) || seq_contains(
        chipset,
        "Z690"@,
    ) {
        88
    } else if seq_contains(chipset, "B850"@) || seq_contains(chipset, "B650"@) || seq_contains(
        chipset,
        "B760"@,
    ) || seq_contains(chipset, "B660"@) || seq_contains(chipset, "H770"@) || seq_contains(
        chipset,
        "X570"@,
    ) {
        72
    } else if seq_contains(chipset, "A620"@) || seq_contains(chipset, "H610"@) || seq_contains(
        chipset,
        "B550"@,
    ) || seq_contains(chipset, "B450"@) {
        55
    } else {
        45
    }
}

/// Scores the motherboard from its chipset name.
pub fn score_mobo(chipset: &str) -> (r: u32)
    ensures
        r == mobo_score(chipset@),
{
    let c = chars_of(chipset);
    if contains_str(&c, "X870E") || contains_str(&c, "X670E") || contains_str(&c, "Z890")
        || contains_str(&c, "Z790") {
        95
    } else if contains_str(&c, "X870") || contains_str(&c, "X670") || contains_str(&c, "Z690") {
        88
    } else if contains_str(&c, "B850") || contains_str(&c, "B650") || contains_str(&c, "B760")
        || contains_str(&c, "B660") || contains_str(&c, "H770") || contains_str(&c, "X570") {
        72
    } else if contains_str(&c, "A620") || contains_str(&c, "H610") || contains_str(&c, "B550")
        || contains_str(&c, "B450") {
        55
    } else {
        45
    }
}

// ---------------------------------------------------------------- Total

/// The exact weighted sum of the component scores, in hundredths of a point:
/// CPU 24%, GPU 32%, RAM 16%, motherboard 8%, display 15%, storage 5%.
pub open spec fn weighted_hundredths(s: SubScores) -> int {
    24 * s.cpu + 32 * s.gpu + 16 * s.ram + 8 * s.mobo + 15 * s.display + 5 * s.storage
}

/// A sum in hundredths rounded to a whole point, halves up.
pub open spec fn rounded_hundredths(n: int) -> int {
    (n + 50) / 100
}

/// The total score: the weighted sum rounded to a whole point, kept within 1..=100.
pub open spec fn total_score(s: SubScores) -> int {
    clamp(rounded_hundredths(weighted_hundredths(s)), 1, 100)
}

/// The component scores of a machine.
pub open spec fn sub_scores_of(hw: HardwareInfo) -> SubScores {
    SubScores {
        cpu: cpu_score(hw.cpu_cores as int, hw.cpu_threads as int, hw.cpu_mhz as int) as u32,
        gpu: gpu_score(lowercase_of(hw.gpu_name@), lowercase_of(hw.gpu_driver@)) as u32,
        ram: ram_score(hw.ram_total_gb_tenths as int) as u32,
        mobo: mobo_score(hw.chipset@) as u32,
        display: display_score(hw.monitors@) as u32,
        storage: storage_score(hw.storage_type@) as u32,
    }
}

/// Scores each component of a machine.
pub fn score_components(hw: &HardwareInfo) -> (r: SubScores)
    ensures
        r == sub_scores_of(*hw),
{
    SubScores {
        cpu: score_cpu(hw.cpu_cores, hw.cpu_threads, hw.cpu_mhz),
        gpu: score_gpu(hw.gpu_name.as_str(), hw.gpu_driver.as_str()),
        ram: score_ram(hw.ram_total_gb_tenths),
        mobo: score_mobo(hw.chipset.as_str()),
        display: score_display(hw.monitors.as_slice()),
        storage: score_storage(hw.storage_type.as_str()),
    }
}

/// Rounds a weighted sum given in hundredths to a whole point and keeps it within 1..=100.
pub fn total_from_weighted(n: u32) -> (r: u32)
    ensures
        r == clamp(rounded_hundredths(n as int), 1, 100),
{
    let rounded = n / 100 + if n % 100 >= 50 {
        1
    } else {
        0
    };
    if rounded > 100 {
        100
    } else if rounded < 1 {
        1
    } else {
        rounded
    }
}

/// Scores a machine: the component scores, the total and its tier.
pub fn calculate_score(hw: &HardwareInfo) -> (r: OmaRankResult)
    ensures
        r.sub_scores == sub_scores_of(*hw),
        r.total_score == total_score(sub_scores_of(*hw)),
        r.tier_name@ == tier_name(tier_index(r.total_score as int)),
        r.tier_icon@ == tier_icon(tier_index(r.total_score as int)),
        r.tier_quote@ == tier_quote(tier_index(r.total_score as int)),
        r.tier_color@ == tier_color(tier_index(r.total_score as int)),
        r.percentile_text@ == tier_percentile(tier_index(r.total_score as int)),
        same_hardware(r.hardware, *hw),
        1 <= r.total_score <= 100,
{
    let sub = score_components(hw);
    let n = 24 * sub.cpu + 32 * sub.gpu + 16 * sub.ram + 8 * sub.mobo + 15 * sub.display + 5
        * sub.storage;
    let total_score = total_from_weighted(n);
    let (tier_name, tier_icon, tier_quote, tier_color, percentile_text) = get_rank_tier(
        total_score,
    );
    OmaRankResult {
        total_score,
        tier_name,
        tier_icon,
        tier_quote,
        tier_color,
        sub_scores: sub,
        percentile_text,
        hardware: hw.clone(),
    }
}

/// Every component score is out of 100 (CPU at least 5, GPU at least 28, memory at least
/// 5, motherboard between 45 and 95, display at least 10, storage between 30 and 92), and
/// the total is between 1 and 100.
pub proof fn law_scores_are_out_of_100(hw: HardwareInfo)
    ensures
        5 <= sub_scores_of(hw).cpu <= 100,
        28 <= sub_scores_of(hw).gpu <= 100,
        5 <= sub_scores_of(hw).ram <= 100,
        45 <= sub_scores_of(hw).mobo <= 95,
        10 <= sub_scores_of(hw).display <= 100,
        30 <= sub_scores_of(hw).storage <= 92,
        1 <= total_score(sub_scores_of(hw)) <= 100,
{
}

/// Better components never lower the total: when no component score of `b` is below the
/// matching one of `a`, the total of `b` is at least the total of `a`.
pub proof fn law_total_is_monotone(a: SubScores, b: SubScores)
    requires
        a.cpu <= b.cpu,
        a.gpu <= b.gpu,
        a.ram <= b.ram,
        a.mobo <= b.mobo,
        a.display <= b.display,
        a.storage <= b.storage,
    ensures
        total_score(a) <= total_score(b),
{
    let na = weighted_hundredths(a);
    let nb = weighted_hundredths(b);
    assert(na <= nb);
    assert(rounded_hundredths(na) <= rounded_hundredths(nb)) by (nonlinear_arith)
        requires
            na <= nb,
            0 <= na,
    {
    }
}


/// What a GPU scores, by the markers in its lowercased model name, each tier checked
/// before the ones below it: an RTX 4090 100; 4080 or 7900 XTX 95; 4070 Ti or 7900 XT 90;
/// 4070, 7800 XT, 3090 or 6950 86; B580, Battlemage, 4060 Ti, 7700 XT or 3080 82; B570,
/// 4060, 3070 or 7600 XT 76; A770, A750, 3060, 6600 or 2070 68; 3050, 2060, 1660, RX 580 or
/// RX 570 50; 1060, 1050 or GTX 970 40; Radeon 780M/890M or Arc 8 48; Iris or Radeon 680M
/// 38; UHD or Intel Graphics 28. A name with none of these scores by its driver: i915 28,
/// nvidia 70, amdgpu 65, xe 78, anything else 35.
pub proof fn law_gpu_score_by_marker(n: Seq<char>, d: Seq<char>)
    ensures
        (seq_contains(n, "4090"@)) ==> gpu_score(n, d) == 100,
        (seq_contains(n, "4080"@) && !seq_contains(n, "4090"@)) ==> gpu_score(n, d) == 95,
        (seq_contains(n, "7900 xtx"@) && !seq_contains(n, "4090"@)) ==> gpu_score(n, d) == 95,
        (seq_contains(n, "4070 ti"@) && !seq_contains(n, "4090"@) && !seq_contains(n, "4080"@) && !seq_contains(n, "7900 xtx"@)) ==> gpu_score(n, d) == 90,
        (seq_contains(n, "7900 xt"@) && !seq_contains(n, "4090"@) && !seq_contains(n, "4080"@) && !seq_contains(n, "7900 xtx"@)) ==> gpu_score(n, d) == 90,
        (seq_contains(n, "4070"@) && !seq_contains(n, "4090"@) && !seq_contains(n, "4080"@) && !seq_contains(n, "7900 xtx"@) && !seq_contains(n, "4070 ti"@) && !seq_contains(n, "7900 xt"@)) ==> gpu_score(n, d) == 86,
        (seq_contains(n, "7800 xt"@) && !seq_contains(n, "4090"@) && !seq_contains(n, "4080"@) && !seq_contains(n, "7900 xtx"@) && !seq_contains(n, "4070 ti"@) && !seq_contains(n, "7900 xt"@)) ==> gpu_score(n, d) == 86,
        (seq_contains(n, "3090"@) && !seq_contains(n, "4090"@) && !seq_contains(n, "4080"@) && !seq_contains(n, "7900 xtx"@) && !seq_contains(n, "4070 ti"@) && !seq_contains(n, "7900 xt"@)) ==> gpu_score(n, d) == 86,
        (seq_contains(n, "6950"@) && !seq_contains(n, "4090"@) && !seq_contains(n, "4080"@) && !seq_contains(n, "7900 xtx"@) && !seq_contains(n, "4070 ti"@) && !seq_contains(n, "7900 xt"@)) ==> gpu_score(n, d) == 86,
        (seq_contains(n, "b580"@) && !seq_contains(n, "4090"@) && !seq_contains(n, "4080"@) && !seq_contains(n, "7900 xtx"@) && !seq_contains(n, "4070 ti"@) && !seq_contains(n, "7900 xt"@) && !seq_contains(n, "4070"@) && !seq_contains(n, "7800 xt"@) && !seq_contains(n, "3090"@) && !seq_contains(n, "6950"@)) ==> gpu_score(n, d) == 82,
        (seq_contains(n, "battlemage"@) && !seq_contains(n, "4090"@) && !seq_contains(n, "4080"@) && !seq_contains(n, "7900 xtx"@) && !seq_contains(n, "4070 ti"@) && !seq_contains(n, "7900 xt"@) && !seq_contains(n, "4070"@) && !seq_contains(n, "7800 xt"@) && !seq_contains(n, "3090"@) && !seq_contains(n, "6950"@)) ==> gpu_score(n, d) == 82,
        (seq_contains(n, "4060 ti"@) && !seq_contains(n, "4090"@) && !seq_contains(n, "4080"@) && !seq_contains(n, "7900 xtx"@) && !seq_contains(n, "4070 ti"@) && !seq_contains(n, "7900 xt"@) && !seq_contains(n, "4070"@) && !seq_contains(n, "7800 xt"@) && !seq_contains(n, "3090"@) && !seq_contains(n, "6950"@)) ==> gpu_score(n, d) == 82,
        (seq_contains(n, "7700 xt"@) && !seq_contains(n, "4090"@) && !seq_contains(n, "4080"@) && !seq_contains(n, "7900 xtx"@) && !seq_contains(n, "4070 ti"@) && !seq_contains(n, "7900 xt"@) && !seq_contains(n, "4070"@) && !seq_contains(n, "7800 xt"@) && !seq_contains(n, "3090"@) && !seq_contains(n, "6950"@)) ==> gpu_score(n, d) == 82,
        (seq_contains(n, "3080"@) && !seq_contains(n, "4090"@) && !seq_contains(n, "4080"@) && !seq_contains(n, "7900 xtx"@) && !seq_contains(n, "4070 ti"@) && !seq_contains(n, "7900 xt"@) && !seq_contains(n, "4070"@) && !seq_contains(n, "7800 xt"@) && !seq_contains(n, "3090"@) && !seq_contains(n, "6950"@)) ==> gpu_score(n, d) == 82,
        (seq_contains(n, "b570"@) && !seq_contains(n, "4090"@) && !seq_contains(n, "4080"@) && !seq_contains(n, "7900 xtx"@) && !seq_contains(n, "4070 ti"@) && !seq_contains(n, "7900 xt"@) && !seq_contains(n, "4070"@) && !seq_contains(n, "7800 xt"@) && !seq_contains(n, "3090"@) && !seq_contains(n, "6950"@) && !seq_contains(n, "b580"@) && !seq_contains(n, "battlemage"@) && !seq_contains(n, "4060 ti"@) && !seq_contains(n, "7700 xt"@) && !seq_contains(n, "3080"@)) ==> gpu_score(n, d) == 76,
        (seq_contains(n, "4060"@) && !seq_contains(n, "4090"@) && !seq_contains(n, "4080"@) && !seq_contains(n, "7900 xtx"@) && !seq_contains(n, "4070 ti"@) && !seq_contains(n, "7900 xt"@) && !seq_contains(n, "4070"@) && !seq_contains(n, "7800 xt"@) && !seq_contains(n, "3090"@) && !seq_contains(n, "6950"@) && !seq_contains(n, "b580"@) && !seq_contains(n, "battlemage"@) && !seq_contains(n, "4060 ti"@) && !seq_contains(n, "7700 xt"@) && !seq_contains(n, "3080"@)) ==> gpu_score(n, d) == 76,
        (seq_contains(n, "3070"@) && !seq_contains(n, "4090"@) && !seq_contains(n, "4080"@) && !seq_contains(n, "7900 xtx"@) && !seq_contains(n, "4070 ti"@) && !seq_contains(n, "7900 xt"@) && !seq_contains(n, "4070"@) && !seq_contains(n, "7800 xt"@) && !seq_contains(n, "3090"@) && !seq_contains(n, "6950"@) && !seq_contains(n, "b580"@) && !seq_contains(n, "battlemage"@) && !seq_contains(n, "4060 ti"@) && !seq_contains(n, "7700 xt"@) && !seq_contains(n, "3080"@)) ==> gpu_score(n, d) == 76,
        (seq_contains(n, "7600 xt"@) && !seq_contains(n, "4090"@) && !seq_contains(n, "4080"@) && !seq_contains(n, "7900 xtx"@) && !seq_contains(n, "4070 ti"@) && !seq_contains(n, "7900 xt"@) && !seq_contains(n, "4070"@) && !seq_contains(n, "7800 xt"@) && !seq_contains(n, "3090"@) && !seq_contains(n, "6950"@) && !seq_contains(n, "b580"@) && !seq_contains(n, "battlemage"@) && !seq_contains(n, "4060 ti"@) && !seq_contains(n, "7700 xt"@) && !seq_contains(n, "3080"@)) ==> gpu_score(n, d) == 76,
        (seq_contains(n, "a770"@) && !seq_contains(n, "4090"@) && !seq_contains(n, "4080"@) && !seq_contains(n, "7900 xtx"@) && !seq_contains(n, "4070 ti"@) && !seq_contains(n, "7900 xt"@) && !seq_contains(n, "4070"@) && !seq_contains(n, "7800 xt"@) && !seq_contains(n, "3090"@) && !seq_contains(n, "6950"@) && !seq_contains(n, "b580"@) && !seq_contains(n, "battlemage"@) && !seq_contains(n, "4060 ti"@) && !seq_contains(n, "7700 xt"@) && !seq_contains(n, "3080"@) && !seq_contains(n, "b570"@) && !seq_contains(n, "4060"@) && !seq_contains(n, "3070"@) && !seq_contains(n, "7600 xt"@)) ==> gpu_score(n, d) == 68,
        (seq_contains(n, "a750"@) && !seq_contains(n, "4090"@) && !seq_contains(n, "4080"@) && !seq_contains(n, "7900 xtx"@) && !seq_contains(n, "4070 ti"@) && !seq_contains(n, "7900 xt"@) && !seq_contains(n, "4070"@) && !seq_contains(n, "7800 xt"@) && !seq_contains(n, "3090"@) && !seq_contains(n, "6950"@) && !seq_contains(n, "b580"@) && !seq_contains(n, "battlemage"@) && !seq_contains(n, "4060 ti"@) && !seq_contains(n, "7700 xt"@) && !seq_contains(n, "3080"@) && !seq_contains(n, "b570"@) && !seq_contains(n, "4060"@) && !seq_contains(n, "3070"@) && !seq_contains(n, "7600 xt"@)) ==> gpu_score(n, d) == 68,
        (seq_contains(n, "3060"@) && !seq_contains(n, "4090"@) && !seq_contains(n, "4080"@) && !seq_contains(n, "7900 xtx"@) && !seq_contains(n, "4070 ti"@) && !seq_contains(n, "7900 xt"@) && !seq_contains(n, "4070"@) && !seq_contains(n, "7800 xt"@) && !seq_contains(n, "3090"@) && !seq_contains(n, "6950"@) && !seq_contains(n, "b580"@) && !seq_contains(n, "battlemage"@) && !seq_contains(n, "4060 ti"@) && !seq_contains(n, "7700 xt"@) && !seq_contains(n, "3080"@) && !seq_contains(n, "b570"@) && !seq_contains(n, "4060"@) && !seq_contains(n, "3070"@) && !seq_contains(n, "7600 xt"@)) ==> gpu_score(n, d) == 68,
        (seq_contains(n, "6600"@) && !seq_contains(n, "4090"@) && !seq_contains(n, "4080"@) && !seq_contains(n, "7900 xtx"@) && !seq_contains(n, "4070 ti"@) && !seq_contains(n, "7900 xt"@) && !seq_contains(n, "4070"@) && !seq_contains(n, "7800 xt"@) && !seq_contains(n, "3090"@) && !seq_contains(n, "6950"@) && !seq_contains(n, "b580"@) && !seq_contains(n, "battlemage"@) && !seq_contains(n, "4060 ti"@) && !seq_contains(n, "7700 xt"@) && !seq_contains(n, "3080"@) && !seq_contains(n, "b570"@) && !seq_contains(n, "4060"@) && !seq_contains(n, "3070"@) && !seq_contains(n, "7600 xt"@)) ==> gpu_score(n, d) == 68,
        (seq_contains(n, "2070"@) && !seq_contains(n, "4090"@) && !seq_contains(n, "4080"@) && !seq_contains(n, "7900 xtx"@) && !seq_contains(n, "4070 ti"@) && !seq_contains(n, "7900 xt"@) && !seq_contains(n, "4070"@) && !seq_contains(n, "7800 xt"@) && !seq_contains(n, "3090"@) && !seq_contains(n, "6950"@) && !seq_contains(n, "b580"@) && !seq_contains(n, "battlemage"@) && !seq_contains(n, "4060 ti"@) && !seq_contains(n, "7700 xt"@) && !seq_contains(n, "3080"@) && !seq_contains(n, "b570"@) && !seq_contains(n, "4060"@) && !seq_contains(n, "3070"@) && !seq_contains(n, "7600 xt"@)) ==> gpu_score(n, d) == 68,
        (seq_contains(n, "3050"@) && !seq_contains(n, "4090"@) && !seq_contains(n, "4080"@) && !seq_contains(n, "7900 xtx"@) && !seq_contains(n, "4070 ti"@) && !seq_contains(n, "7900 xt"@) && !seq_contains(n, "4070"@) && !seq_contains(n, "7800 xt"@) && !seq_contains(n, "3090"@) && !seq_contains(n, "6950"@) && !seq_contains(n, "b580"@) && !seq_contains(n, "battlemage"@) && !seq_contains(n, "4060 ti"@) && !seq_contains(n, "7700 xt"@) && !seq_contains(n, "3080"@) && !seq_contains(n, "b570"@) && !seq_contains(n, "4060"@) && !seq_contains(n, "3070"@) && !seq_contains(n, "7600 xt"@) && !seq_contains(n, "a770"@) && !seq_contains(n, "a750"@) && !seq_contains(n, "3060"@) && !seq_contains(n, "6600"@) && !seq_contains(n, "2070"@)) ==> gpu_score(n, d) == 50,
        (seq_contains(n, "2060"@) && !seq_contains(n, "4090"@) && !seq_contains(n, "4080"@) && !seq_contains(n, "7900 xtx"@) && !seq_contains(n, "4070 ti"@) && !seq_contains(n, "7900 xt"@) && !seq_contains(n, "4070"@) && !seq_contains(n, "7800 xt"@) && !seq_contains(n, "3090"@) && !seq_contains(n, "6950"@) && !seq_contains(n, "b580"@) && !seq_contains(n, "battlemage"@) && !seq_contains(n, "4060 ti"@) && !seq_contains(n, "7700 xt"@) && !seq_contains(n, "3080"@) && !seq_contains(n, "b570"@) && !seq_contains(n, "4060"@) && !seq_contains(n, "3070"@) && !seq_contains(n, "7600 xt"@) && !seq_contains(n, "a770"@) && !seq_contains(n, "a750"@) && !seq_contains(n, "3060"@) && !seq_contains(n, "6600"@) && !seq_contains(n, "2070"@)) ==> gpu_score(n, d) == 50,
        (seq_contains(n, "1660"@) && !seq_contains(n, "4090"@) && !seq_contains(n, "4080"@) && !seq_contains(n, "7900 xtx"@) && !seq_contains(n, "4070 ti"@) && !seq_contains(n, "7900 xt"@) && !seq_contains(n, "4070"@) && !seq_contains(n, "7800 xt"@) && !seq_contains(n, "3090"@) && !seq_contains(n, "6950"@) && !seq_contains(n, "b580"@) && !seq_contains(n, "battlemage"@) && !seq_contains(n, "4060 ti"@) && !seq_contains(n, "7700 xt"@) && !seq_contains(n, "3080"@) && !seq_contains(n, "b570"@) && !seq_contains(n, "4060"@) && !seq_contains(n, "3070"@) && !seq_contains(n, "7600 xt"@) && !seq_contains(n, "a770"@) && !seq_contains(n, "a750"@) && !seq_contains(n, "3060"@) && !seq_contains(n, "6600"@) && !seq_contains(n, "2070"@)) ==> gpu_score(n, d) == 50,
        (seq_contains(n, "rx 580"@) && !seq_contains(n, "4090"@) && !seq_contains(n, "4080"@) && !seq_contains(n, "7900 xtx"@) && !seq_contains(n, "4070 ti"@) && !seq_contains(n, "7900 xt"@) && !seq_contains(n, "4070"@) && !seq_contains(n, "7800 xt"@) && !seq_contains(n, "3090"@) && !seq_contains(n, "6950"@) && !seq_contains(n, "b580"@) && !seq_contains(n, "battlemage"@) && !seq_contains(n, "4060 ti"@) && !seq_contains(n, "7700 xt"@) && !seq_contains(n, "3080"@) && !seq_contains(n, "b570"@) && !seq_contains(n, "4060"@) && !seq_contains(n, "3070"@) && !seq_contains(n, "7600 xt"@) && !seq_contains(n, "a770"@) && !seq_contains(n, "a750"@) && !seq_contains(n, "3060"@) && !seq_contains(n, "6600"@) && !seq_contains(n, "2070"@)) ==> gpu_score(n, d) == 50,
        (seq_contains(n, "rx 570"@) && !seq_contains(n, "4090"@) && !seq_contains(n, "4080"@) && !seq_contains(n, "7900 xtx"@) && !seq_contains(n, "4070 ti"@) && !seq_contains(n, "7900 xt"@) && !seq_contains(n, "4070"@) && !seq_contains(n, "7800 xt"@) && !seq_contains(n, "3090"@) && !seq_contains(n, "6950"@) && !seq_contains(n, "b580"@) && !seq_contains(n, "battlemage"@) && !seq_contains(n, "4060 ti"@) && !seq_contains(n, "7700 xt"@) && !seq_contains(n, "3080"@) && !seq_contains(n, "b570"@) && !seq_contains(n, "4060"@) && !seq_contains(n, "3070"@) && !seq_contains(n, "7600 xt"@) && !seq_contains(n, "a770"@) && !seq_contains(n, "a750"@) && !seq_contains(n, "3060"@) && !seq_contains(n, "6600"@) && !seq_contains(n, "2070"@)) ==> gpu_score(n, d) == 50,
        (seq_contains(n, "1060"@) && !seq_contains(n, "4090"@) && !seq_contains(n, "4080"@) && !seq_contains(n, "7900 xtx"@) && !seq_contains(n, "4070 ti"@) && !seq_contains(n, "7900 xt"@) && !seq_contains(n, "4070"@) && !seq_contains(n, "7800 xt"@) && !seq_contains(n, "3090"@) && !seq_contains(n, "6950"@) && !seq_contains(n, "b580"@) && !seq_contains(n, "battlemage"@) && !seq_contains(n, "4060 ti"@) && !seq_contains(n, "7700 xt"@) && !seq_contains(n, "3080"@) && !seq_contains(n, "b570"@) && !seq_contains(n, "4060"@) && !seq_contains(n, "3070"@) && !seq_contains(n, "7600 xt"@) && !seq_contains(n, "a770"@) && !seq_contains(n, "a750"@) && !seq_contains(n, "3060"@) && !seq_contains(n, "6600"@) && !seq_contains(n, "2070"@) && !seq_contains(n, "3050"@) && !seq_contains(n, "2060"@) && !seq_contains(n, "1660"@) && !seq_contains(n, "rx 580"@) && !seq_contains(n, "rx 570"@)) ==> gpu_score(n, d) == 40,
        (seq_contains(n, "1050"@) && !seq_contains(n, "4090"@) && !seq_contains(n, "4080"@) && !seq_contains(n, "7900 xtx"@) && !seq_contains(n, "4070 ti"@) && !seq_contains(n, "7900 xt"@) && !seq_contains(n, "4070"@) && !seq_contains(n, "7800 xt"@) && !seq_contains(n, "3090"@) && !seq_contains(n, "6950"@) && !seq_contains(n, "b580"@) && !seq_contains(n, "battlemage"@) && !seq_contains(n, "4060 ti"@) && !seq_contains(n, "7700 xt"@) && !seq_contains(n, "3080"@) && !seq_contains(n, "b570"@) && !seq_contains(n, "4060"@) && !seq_contains(n, "3070"@) && !seq_contains(n, "7600 xt"@) && !seq_contains(n, "a770"@) && !seq_contains(n, "a750"@) && !seq_contains(n, "3060"@) && !seq_contains(n, "6600"@) && !seq_contains(n, "2070"@) && !seq_contains(n, "3050"@) && !seq_contains(n, "2060"@) && !seq_contains(n, "1660"@) && !seq_contains(n, "rx 580"@) && !seq_contains(n, "rx 570"@)) ==> gpu_score(n, d) == 40,
        (seq_contains(n, "gtx 970"@) && !seq_contains(n, "4090"@) && !seq_contains(n, "4080"@) && !seq_contains(n, "7900 xtx"@) && !seq_contains(n, "4070 ti"@) && !seq_contains(n, "7900 xt"@) && !seq_contains(n, "4070"@) && !seq_contains(n, "7800 xt"@) && !seq_contains(n, "3090"@) && !seq_contains(n, "6950"@) && !seq_contains(n, "b580"@) && !seq_contains(n, "battlemage"@) && !seq_contains(n, "4060 ti"@) && !seq_contains(n, "7700 xt"@) && !seq_contains(n, "3080"@) && !seq_contains(n, "b570"@) && !seq_contains(n, "4060"@) && !seq_contains(n, "3070"@) && !seq_contains(n, "7600 xt"@) && !seq_contains(n, "a770"@) && !seq_contains(n, "a750"@) && !seq_contains(n, "3060"@) && !seq_contains(n, "6600"@) && !seq_contains(n, "2070"@) && !seq_contains(n, "3050"@) && !seq_contains(n, "2060"@) && !seq_contains(n, "1660"@) && !seq_contains(n, "rx 580"@) && !seq_contains(n, "rx 570"@)) ==> gpu_score(n, d) == 40,
        (seq_contains(n, "radeon 780m"@) && !seq_contains(n, "4090"@) && !seq_contains(n, "4080"@) && !seq_contains(n, "7900 xtx"@) && !seq_contains(n, "4070 ti"@) && !seq_contains(n, "7900 xt"@) && !seq_contains(n, "4070"@) && !seq_contains(n, "7800 xt"@) && !seq_contains(n, "3090"@) && !seq_contains(n, "6950"@) && !seq_contains(n, "b580"@) && !seq_contains(n, "battlemage"@) && !seq_contains(n, "4060 ti"@) && !seq_contains(n, "7700 xt"@) && !seq_contains(n, "3080"@) && !seq_contains(n, "b570"@) && !seq_contains(n, "4060"@) && !seq_contains(n, "3070"@) && !seq_contains(n, "7600 xt"@) && !seq_contains(n, "a770"@) && !seq_contains(n, "a750"@) && !seq_contains(n, "3060"@) && !seq_contains(n, "6600"@) && !seq_contains(n, "2070"@) && !seq_contains(n, "3050"@) && !seq_contains(n, "2060"@) && !seq_contains(n, "1660"@) && !seq_contains(n, "rx 580"@) && !seq_contains(n, "rx 570"@) && !seq_contains(n, "1060"@) && !seq_contains(n, "1050"@) && !seq_contains(n, "gtx 970"@)) ==> gpu_score(n, d) == 48,
        (seq_contains(n, "radeon 890m"@) && !seq_contains(n, "4090"@) && !seq_contains(n, "4080"@) && !seq_contains(n, "7900 xtx"@) && !seq_contains(n, "4070 ti"@) && !seq_contains(n, "7900 xt"@) && !seq_contains(n, "4070"@) && !seq_contains(n, "7800 xt"@) && !seq_contains(n, "3090"@) && !seq_contains(n, "6950"@) && !seq_contains(n, "b580"@) && !seq_contains(n, "battlemage"@) && !seq_contains(n, "4060 ti"@) && !seq_contains(n, "7700 xt"@) && !seq_contains(n, "3080"@) && !seq_contains(n, "b570"@) && !seq_contains(n, "4060"@) && !seq_contains(n, "3070"@) && !seq_contains(n, "7600 xt"@) && !seq_contains(n, "a770"@) && !seq_contains(n, "a750"@) && !seq_contains(n, "3060"@) && !seq_contains(n, "6600"@) && !seq_contains(n, "2070"@) && !seq_contains(n, "3050"@) && !seq_contains(n, "2060"@) && !seq_contains(n, "1660"@) && !seq_contains(n, "rx 580"@) && !seq_contains(n, "rx 570"@) && !seq_contains(n, "1060"@) && !seq_contains(n, "1050"@) && !seq_contains(n, "gtx 970"@)) ==> gpu_score(n, d) == 48,
        (seq_contains(n, "arc 8"@) && !seq_contains(n, "4090"@) && !seq_contains(n, "4080"@) && !seq_contains(n, "7900 xtx"@) && !seq_contains(n, "4070 ti"@) && !seq_contains(n, "7900 xt"@) && !seq_contains(n, "4070"@) && !seq_contains(n, "7800 xt"@) && !seq_contains(n, "3090"@) && !seq_contains(n, "6950"@) && !seq_contains(n, "b580"@) && !seq_contains(n, "battlemage"@) && !seq_contains(n, "4060 ti"@) && !seq_contains(n, "7700 xt"@) && !seq_contains(n, "3080"@) && !seq_contains(n, "b570"@) && !seq_contains(n, "4060"@) && !seq_contains(n, "3070"@) && !seq_contains(n, "7600 xt"@) && !seq_contains(n, "a770"@) && !seq_contains(n, "a750"@) && !seq_contains(n, "3060"@) && !seq_contains(n, "6600"@) && !seq_contains(n, "2070"@) && !seq_contains(n, "3050"@) && !seq_contains(n, "2060"@) && !seq_contains(n, "1660"@) && !seq_contains(n, "rx 580"@) && !seq_contains(n, "rx 570"@) && !seq_contains(n, "1060"@) && !seq_contains(n, "1050"@) && !seq_contains(n, "gtx 970"@)) ==> gpu_score(n, d) == 48,
        (seq_contains(n, "iris"@) && !seq_contains(n, "4090"@) && !seq_contains(n, "4080"@) && !seq_contains(n, "7900 xtx"@) && !seq_contains(n, "4070 ti"@) && !seq_contains(n, "7900 xt"@) && !seq_contains(n, "4070"@) && !seq_contains(n, "7800 xt"@) && !seq_contains(n, "3090"@) && !seq_contains(n, "6950"@) && !seq_contains(n, "b580"@) && !seq_contains(n, "battlemage"@) && !seq_contains(n, "4060 ti"@) && !seq_contains(n, "7700 xt"@) && !seq_contains(n, "3080"@) && !seq_contains(n, "b570"@) && !seq_contains(n, "4060"@) && !seq_contains(n, "3070"@) && !seq_contains(n, "7600 xt"@) && !seq_contains(n, "a770"@) && !seq_contains(n, "a750"@) && !seq_contains(n, "3060"@) && !seq_contains(n, "6600"@) && !seq_contains(n, "2070"@) && !seq_contains(n, "3050"@) && !seq_contains(n, "2060"@) && !seq_contains(n, "1660"@) && !seq_contains(n, "rx 580"@) && !seq_contains(n, "rx 570"@) && !seq_contains(n, "1060"@) && !seq_contains(n, "1050"@) && !seq_contains(n, "gtx 970"@) && !seq_contains(n, "radeon 780m"@) && !seq_contains(n, "radeon 890m"@) && !seq_contains(n, "arc 8"@)) ==> gpu_score(n, d) == 38,
        (seq_contains(n, "radeon 680m"@) && !seq_contains(n, "4090"@) && !seq_contains(n, "4080"@) && !seq_contains(n, "7900 xtx"@) && !seq_contains(n, "4070 ti"@) && !seq_contains(n, "7900 xt"@) && !seq_contains(n, "4070"@) && !seq_contains(n, "7800 xt"@) && !seq_contains(n, "3090"@) && !seq_contains(n, "6950"@) && !seq_contains(n, "b580"@) && !seq_contains(n, "battlemage"@) && !seq_contains(n, "4060 ti"@) && !seq_contains(n, "7700 xt"@) && !seq_contains(n, "3080"@) && !seq_contains(n, "b570"@) && !seq_contains(n, "4060"@) && !seq_contains(n, "3070"@) && !seq_contains(n, "7600 xt"@) && !seq_contains(n, "a770"@) && !seq_contains(n, "a750"@) && !seq_contains(n, "3060"@) && !seq_contains(n, "6600"@) && !seq_contains(n, "2070"@) && !seq_contains(n, "3050"@) && !seq_contains(n, "2060"@) && !seq_contains(n, "1660"@) && !seq_contains(n, "rx 580"@) && !seq_contains(n, "rx 570"@) && !seq_contains(n, "1060"@) && !seq_contains(n, "1050"@) && !seq_contains(n, "gtx 970"@) && !seq_contains(n, "radeon 780m"@) && !seq_contains(n, "radeon 890m"@) && !seq_contains(n, "arc 8"@)) ==> gpu_score(n, d) == 38,
        (seq_contains(n, "uhd"@) && !seq_contains(n, "4090"@) && !seq_contains(n, "4080"@) && !seq_contains(n, "7900 xtx"@) && !seq_contains(n, "4070 ti"@) && !seq_contains(n, "7900 xt"@) && !seq_contains(n, "4070"@) && !seq_contains(n, "7800 xt"@) && !seq_contains(n, "3090"@) && !seq_contains(n, "6950"@) && !seq_contains(n, "b580"@) && !seq_contains(n, "battlemage"@) && !seq_contains(n, "4060 ti"@) && !seq_contains(n, "7700 xt"@) && !seq_contains(n, "3080"@) && !seq_contains(n, "b570"@) && !seq_contains(n, "4060"@) && !seq_contains(n, "3070"@) && !seq_contains(n, "7600 xt"@) && !seq_contains(n, "a770"@) && !seq_contains(n, "a750"@) && !seq_contains(n, "3060"@) && !seq_contains(n, "6600"@) && !seq_contains(n, "2070"@) && !seq_contains(n, "3050"@) && !seq_contains(n, "2060"@) && !seq_contains(n, "1660"@) && !seq_contains(n, "rx 580"@) && !seq_contains(n, "rx 570"@) && !seq_contains(n, "1060"@) && !seq_contains(n, "1050"@) && !seq_contains(n, "gtx 970"@) && !seq_contains(n, "radeon 780m"@) && !seq_contains(n, "radeon 890m"@) && !seq_contains(n, "arc 8"@) && !seq_contains(n, "iris"@) && !seq_contains(n, "radeon 680m"@)) ==> gpu_score(n, d) == 28,
        (seq_contains(n, "intel graphics"@) && !seq_contains(n, "4090"@) && !seq_contains(n, "4080"@) && !seq_contains(n, "7900 xtx"@) && !seq_contains(n, "4070 ti"@) && !seq_contains(n, "7900 xt"@) && !seq_contains(n, "4070"@) && !seq_contains(n, "7800 xt"@) && !seq_contains(n, "3090"@) && !seq_contains(n, "6950"@) && !seq_contains(n, "b580"@) && !seq_contains(n, "battlemage"@) && !seq_contains(n, "4060 ti"@) && !seq_contains(n, "7700 xt"@) && !seq_contains(n, "3080"@) && !seq_contains(n, "b570"@) && !seq_contains(n, "4060"@) && !seq_contains(n, "3070"@) && !seq_contains(n, "7600 xt"@) && !seq_contains(n, "a770"@) && !seq_contains(n, "a750"@) && !seq_contains(n, "3060"@) && !seq_contains(n, "6600"@) && !seq_contains(n, "2070"@) && !seq_contains(n, "3050"@) && !seq_contains(n, "2060"@) && !seq_contains(n, "1660"@) && !seq_contains(n, "rx 580"@) && !seq_contains(n, "rx 570"@) && !seq_contains(n, "1060"@) && !seq_contains(n, "1050"@) && !seq_contains(n, "gtx 970"@) && !seq_contains(n, "radeon 780m"@) && !seq_contains(n, "radeon 890m"@) && !seq_contains(n, "arc 8"@) && !seq_contains(n, "iris"@) && !seq_contains(n, "radeon 680m"@)) ==> gpu_score(n, d) == 28,
        (!seq_contains(n, "4090"@) && !seq_contains(n, "4080"@) && !seq_contains(n, "7900 xtx"@) && !seq_contains(n, "4070 ti"@) && !seq_contains(n, "7900 xt"@) && !seq_contains(n, "4070"@) && !seq_contains(n, "7800 xt"@) && !seq_contains(n, "3090"@) && !seq_contains(n, "6950"@) && !seq_contains(n, "b580"@) && !seq_contains(n, "battlemage"@) && !seq_contains(n, "4060 ti"@) && !seq_contains(n, "7700 xt"@) && !seq_contains(n, "3080"@) && !seq_contains(n, "b570"@) && !seq_contains(n, "4060"@) && !seq_contains(n, "3070"@) && !seq_contains(n, "7600 xt"@) && !seq_contains(n, "a770"@) && !seq_contains(n, "a750"@) && !seq_contains(n, "3060"@) && !seq_contains(n, "6600"@) && !seq_contains(n, "2070"@) && !seq_contains(n, "3050"@) && !seq_contains(n, "2060"@) && !seq_contains(n, "1660"@) && !seq_contains(n, "rx 580"@) && !seq_contains(n, "rx 570"@) && !seq_contains(n, "1060"@) && !seq_contains(n, "1050"@) && !seq_contains(n, "gtx 970"@) && !seq_contains(n, "radeon 780m"@) && !seq_contains(n, "radeon 890m"@) && !seq_contains(n, "arc 8"@) && !seq_contains(n, "iris"@) && !seq_contains(n, "radeon 680m"@) && !seq_contains(n, "uhd"@) && !seq_contains(n, "intel graphics"@)) ==> (d == "i915"@ ==> gpu_score(n, d) == 28),
        (!seq_contains(n, "4090"@) && !seq_contains(n, "4080"@) && !seq_contains(n, "7900 xtx"@) && !seq_contains(n, "4070 ti"@) && !seq_contains(n, "7900 xt"@) && !seq_contains(n, "4070"@) && !seq_contains(n, "7800 xt"@) && !seq_contains(n, "3090"@) && !seq_contains(n, "6950"@) && !seq_contains(n, "b580"@) && !seq_contains(n, "battlemage"@) && !seq_contains(n, "4060 ti"@) && !seq_contains(n, "7700 xt"@) && !seq_contains(n, "3080"@) && !seq_contains(n, "b570"@) && !seq_contains(n, "4060"@) && !seq_contains(n, "3070"@) && !seq_contains(n, "7600 xt"@) && !seq_contains(n, "a770"@) && !seq_contains(n, "a750"@) && !seq_contains(n, "3060"@) && !seq_contains(n, "6600"@) && !seq_contains(n, "2070"@) && !seq_contains(n, "3050"@) && !seq_contains(n, "2060"@) && !seq_contains(n, "1660"@) && !seq_contains(n, "rx 580"@) && !seq_contains(n, "rx 570"@) && !seq_contains(n, "1060"@) && !seq_contains(n, "1050"@) && !seq_contains(n, "gtx 970"@) && !seq_contains(n, "radeon 780m"@) && !seq_contains(n, "radeon 890m"@) && !seq_contains(n, "arc 8"@) && !seq_contains(n, "iris"@) && !seq_contains(n, "radeon 680m"@) && !seq_contains(n, "uhd"@) && !seq_contains(n, "intel graphics"@)) ==> (d == "nvidia"@ ==> gpu_score(n, d) == 70),
        (!seq_contains(n, "4090"@) && !seq_contains(n, "4080"@) && !seq_contains(n, "7900 xtx"@) && !seq_contains(n, "4070 ti"@) && !seq_contains(n, "7900 xt"@) && !seq_contains(n, "4070"@) && !seq_contains(n, "7800 xt"@) && !seq_contains(n, "3090"@) && !seq_contains(n, "6950"@) && !seq_contains(n, "b580"@) && !seq_contains(n, "battlemage"@) && !seq_contains(n, "4060 ti"@) && !seq_contains(n, "7700 xt"@) && !seq_contains(n, "3080"@) && !seq_contains(n, "b570"@) && !seq_contains(n, "4060"@) && !seq_contains(n, "3070"@) && !seq_contains(n, "7600 xt"@) && !seq_contains(n, "a770"@) && !seq_contains(n, "a750"@) && !seq_contains(n, "3060"@) && !seq_contains(n, "6600"@) && !seq_contains(n, "2070"@) && !seq_contains(n, "3050"@) && !seq_contains(n, "2060"@) && !seq_contains(n, "1660"@) && !seq_contains(n, "rx 580"@) && !seq_contains(n, "rx 570"@) && !seq_contains(n, "1060"@) && !seq_contains(n, "1050"@) && !seq_contains(n, "gtx 970"@) && !seq_contains(n, "radeon 780m"@) && !seq_contains(n, "radeon 890m"@) && !seq_contains(n, "arc 8"@) && !seq_contains(n, "iris"@) && !seq_contains(n, "radeon 680m"@) && !seq_contains(n, "uhd"@) && !seq_contains(n, "intel graphics"@)) ==> (d == "amdgpu"@ ==> gpu_score(n, d) == 65),
        (!seq_contains(n, "4090"@) && !seq_contains(n, "4080"@) && !seq_contains(n, "7900 xtx"@) && !seq_contains(n, "4070 ti"@) && !seq_contains(n, "7900 xt"@) && !seq_contains(n, "4070"@) && !seq_contains(n, "7800 xt"@) && !seq_contains(n, "3090"@) && !seq_contains(n, "6950"@) && !seq_contains(n, "b580"@) && !seq_contains(n, "battlemage"@) && !seq_contains(n, "4060 ti"@) && !seq_contains(n, "7700 xt"@) && !seq_contains(n, "3080"@) && !seq_contains(n, "b570"@) && !seq_contains(n, "4060"@) && !seq_contains(n, "3070"@) && !seq_contains(n, "7600 xt"@) && !seq_contains(n, "a770"@) && !seq_contains(n, "a750"@) && !seq_contains(n, "3060"@) && !seq_contains(n, "6600"@) && !seq_contains(n, "2070"@) && !seq_contains(n, "3050"@) && !seq_contains(n, "2060"@) && !seq_contains(n, "1660"@) && !seq_contains(n, "rx 580"@) && !seq_contains(n, "rx 570"@) && !seq_contains(n, "1060"@) && !seq_contains(n, "1050"@) && !seq_contains(n, "gtx 970"@) && !seq_contains(n, "radeon 780m"@) && !seq_contains(n, "radeon 890m"@) && !seq_contains(n, "arc 8"@) && !seq_contains(n, "iris"@) && !seq_contains(n, "radeon 680m"@) && !seq_contains(n, "uhd"@) && !seq_contains(n, "intel graphics"@)) ==> (d == "xe"@ ==> gpu_score(n, d) == 78),
        (!seq_contains(n, "4090"@) && !seq_contains(n, "4080"@) && !seq_contains(n, "7900 xtx"@) && !seq_contains(n, "4070 ti"@) && !seq_contains(n, "7900 xt"@) && !seq_contains(n, "4070"@) && !seq_contains(n, "7800 xt"@) && !seq_contains(n, "3090"@) && !seq_contains(n, "6950"@) && !seq_contains(n, "b580"@) && !seq_contains(n, "battlemage"@) && !seq_contains(n, "4060 ti"@) && !seq_contains(n, "7700 xt"@) && !seq_contains(n, "3080"@) && !seq_contains(n, "b570"@) && !seq_contains(n, "4060"@) && !seq_contains(n, "3070"@) && !seq_contains(n, "7600 xt"@) && !seq_contains(n, "a770"@) && !seq_contains(n, "a750"@) && !seq_contains(n, "3060"@) && !seq_contains(n, "6600"@) && !seq_contains(n, "2070"@) && !seq_contains(n, "3050"@) && !seq_contains(n, "2060"@) && !seq_contains(n, "1660"@) && !seq_contains(n, "rx 580"@) && !seq_contains(n, "rx 570"@) && !seq_contains(n, "1060"@) && !seq_contains(n, "1050"@) && !seq_contains(n, "gtx 970"@) && !seq_contains(n, "radeon 780m"@) && !seq_contains(n, "radeon 890m"@) && !seq_contains(n, "arc 8"@) && !seq_contains(n, "iris"@) && !seq_contains(n, "radeon 680m"@) && !seq_contains(n, "uhd"@) && !seq_contains(n, "intel graphics"@) && d != "i915"@ && d != "nvidia"@ && d != "amdgpu"@ && d != "xe"@) ==> gpu_score(n, d) == 35,
{
    reveal_strlit("i915");
    reveal_strlit("nvidia");
    reveal_strlit("amdgpu");
    reveal_strlit("xe");
    assert("nvidia"@.len() != "i915"@.len());
    assert("amdgpu"@.len() != "i915"@.len());
    assert("amdgpu"@[0] != "nvidia"@[0]);
}

/// What a CPU scores: 15 points, plus points for its threads (16 from 4, 28 from 8, 38
/// from 12, 46 from 16, 54 from 20, 58 from 24, 65 from 32), a bonus for its cores (6 from
/// 8, 8 from 12, 10 from 16) and points for its clock (12 from 5200 MHz, 8 from 4600, 5
/// from 4000, minus 8 for a known clock below 2600 MHz), capped at 100. The three parts
/// are shown one at a time (1 thread, 1 core and 3000 MHz earn nothing) and then added up.
pub proof fn law_cpu_score_by_part(cores: int, threads: int, mhz: int)
    ensures
        threads < 4 ==> cpu_score(1, threads, 3000) == 15,
        4 <= threads < 8 ==> cpu_score(1, threads, 3000) == 31,
        8 <= threads < 12 ==> cpu_score(1, threads, 3000) == 43,
        12 <= threads < 16 ==> cpu_score(1, threads, 3000) == 53,
        16 <= threads < 20 ==> cpu_score(1, threads, 3000) == 61,
        20 <= threads < 24 ==> cpu_score(1, threads, 3000) == 69,
        24 <= threads < 32 ==> cpu_score(1, threads, 3000) == 73,
        32 <= threads ==> cpu_score(1, threads, 3000) == 80,
        cores < 8 ==> cpu_score(cores, 1, 3000) == 15,
        8 <= cores < 12 ==> cpu_score(cores, 1, 3000) == 21,
        12 <= cores < 16 ==> cpu_score(cores, 1, 3000) == 23,
        16 <= cores ==> cpu_score(cores, 1, 3000) == 25,
        mhz <= 0 ==> cpu_score(1, 1, mhz) == 15,
        0 < mhz < 2600 ==> cpu_score(1, 1, mhz) == 7,
        2600 <= mhz < 4000 ==> cpu_score(1, 1, mhz) == 15,
        4000 <= mhz < 4600 ==> cpu_score(1, 1, mhz) == 20,
        4600 <= mhz < 5200 ==> cpu_score(1, 1, mhz) == 23,
        5200 <= mhz ==> cpu_score(1, 1, mhz) == 27,
        ({
            let sum = cpu_score(cores, 1, 3000) + cpu_score(1, threads, 3000) + cpu_score(1, 1, mhz)
                - 30;
            cpu_score(cores, threads, mhz) == if sum > 100 {
                100
            } else {
                sum
            }
        }),
{
}

/// What the memory scores, by its size in tenths of a GiB: 100 from 120 GiB, 96 from 60,
/// 85 from 30, 62 from 15, 45 from 11, 28 from 7, 15 from 3.5, 5 below.
pub proof fn law_ram_score_by_size(t: int)
    ensures
        1200 <= t ==> ram_score(t) == 100,
        600 <= t < 1200 ==> ram_score(t) == 96,
        300 <= t < 600 ==> ram_score(t) == 85,
        150 <= t < 300 ==> ram_score(t) == 62,
        110 <= t < 150 ==> ram_score(t) == 45,
        70 <= t < 110 ==> ram_score(t) == 28,
        35 <= t < 70 ==> ram_score(t) == 15,
        t < 35 ==> ram_score(t) == 5,
{
}

/// What the storage scores: 92 for NVMe, 70 for another SSD, 30 otherwise.
pub proof fn law_storage_score_by_kind(kind: Seq<char>)
    ensures
        seq_contains(kind, "NVMe"@) ==> storage_score(kind) == 92,
        !seq_contains(kind, "NVMe"@) && seq_contains(kind, "SSD"@) ==> storage_score(kind) == 70,
        !seq_contains(kind, "NVMe"@) && !seq_contains(kind, "SSD"@) ==> storage_score(kind) == 30,
{
}

/// What the motherboard scores, by the chipset series in its chipset name, each tier
/// checked before the ones below it.
pub proof fn law_mobo_score_by_series(c: Seq<char>)
    ensures
        seq_contains(c, "X870E"@) || seq_contains(c, "X670E"@) || seq_contains(c, "Z890"@)
            || seq_contains(c, "Z790"@) ==> mobo_score(c) == 95,
        !(seq_contains(c, "X870E"@) || seq_contains(c, "X670E"@) || seq_contains(c, "Z890"@)
            || seq_contains(c, "Z790"@)) && (seq_contains(c, "X870"@) || seq_contains(c, "X670"@)
            || seq_contains(c, "Z690"@)) ==> mobo_score(c) == 88,
        !(seq_contains(c, "X870E"@) || seq_contains(c, "X670E"@) || seq_contains(c, "Z890"@)
            || seq_contains(c, "Z790"@) || seq_contains(c, "X870"@) || seq_contains(c, "X670"@)
            || seq_contains(c, "Z690"@)) && (seq_contains(c, "B850"@) || seq_contains(c, "B650"@)
            || seq_contains(c, "B760"@) || seq_contains(c, "B660"@) || seq_contains(c, "H770"@)
            || seq_contains(c, "X570"@)) ==> mobo_score(c) == 72,
        !(seq_contains(c, "X870E"@) || seq_contains(c, "X670E"@) || seq_contains(c, "Z890"@)
            || seq_contains(c, "Z790"@) || seq_contains(c, "X870"@) || seq_contains(c, "X670"@)
            || seq_contains(c, "Z690"@) || seq_contains(c, "B850"@) || seq_contains(c, "B650"@)
            || seq_contains(c, "B760"@) || seq_contains(c, "B660"@) || seq_contains(c, "H770"@)
            || seq_contains(c, "X570"@)) && (seq_contains(c, "A620"@) || seq_contains(c, "H610"@)
            || seq_contains(c, "B550"@) || seq_contains(c, "B450"@)) ==> mobo_score(c) == 55,
        !(seq_contains(c, "X870E"@) || seq_contains(c, "X670E"@) || seq_contains(c, "Z890"@)
            || seq_contains(c, "Z790"@) || seq_contains(c, "X870"@) || seq_contains(c, "X670"@)
            || seq_contains(c, "Z690"@) || seq_contains(c, "B850"@) || seq_contains(c, "B650"@)
            || seq_contains(c, "B760"@) || seq_contains(c, "B660"@) || seq_contains(c, "H770"@)
            || seq_contains(c, "X570"@) || seq_contains(c, "A620"@) || seq_contains(c, "H610"@)
            || seq_contains(c, "B550"@) || seq_contains(c, "B450"@)) ==> mobo_score(c) == 45,
{
}

/// The weights of the total: raising a component score by one point raises the weighted
/// sum by its percentage (CPU 24, GPU 32, RAM 16, motherboard 8, display 15, storage 5
/// hundredths), all zero scores weigh nothing, and the total is that sum rounded to a
/// whole point (halves up) and kept within 1..=100.
pub proof fn law_total_weights(s: SubScores)
    ensures
        weighted_hundredths(SubScores { cpu: 0, gpu: 0, ram: 0, mobo: 0, display: 0, storage: 0 })
            == 0,
        s.cpu < u32::MAX ==> weighted_hundredths(SubScores { cpu: (s.cpu + 1) as u32, ..s })
            == weighted_hundredths(s) + 24,
        s.gpu < u32::MAX ==> weighted_hundredths(SubScores { gpu: (s.gpu + 1) as u32, ..s })
            == weighted_hundredths(s) + 32,
        s.ram < u32::MAX ==> weighted_hundredths(SubScores { ram: (s.ram + 1) as u32, ..s })
            == weighted_hundredths(s) + 16,
        s.mobo < u32::MAX ==> weighted_hundredths(SubScores { mobo: (s.mobo + 1) as u32, ..s })
            == weighted_hundredths(s) + 8,
        s.display < u32::MAX ==> weighted_hundredths(
            SubScores { display: (s.display + 1) as u32, ..s },
        ) == weighted_hundredths(s) + 15,
        s.storage < u32::MAX ==> weighted_hundredths(
            SubScores { storage: (s.storage + 1) as u32, ..s },
        ) == weighted_hundredths(s) + 5,
        total_score(s) == clamp(
            (24 * s.cpu + 32 * s.gpu + 16 * s.ram + 8 * s.mobo + 15 * s.display + 5 * s.storage
                + 50) / 100,
            1,
            100,
        ),
{
}

/// The tier names follow the score ranges of the ladder: 96-100, 89-95, 76-88, 61-75,
/// 46-60, 31-45, 16-30, 0-15.
pub proof fn law_tier_names_by_range(score: int)
    ensures
        96 <= score <= 100 ==> tier_name(tier_index(score)) == "Cosmic Reality Simulator"@,
        89 <= score <= 95 ==> tier_name(tier_index(score)) == "NASA Supercomputer"@,
        76 <= score <= 88 ==> tier_name(tier_index(score)) == "Cyberpunk Beast"@,
        61 <= score <= 75 ==> tier_name(tier_index(score)) == "Gaming Rig"@,
        46 <= score <= 60 ==> tier_name(tier_index(score)) == "Honest Daily Driver"@,
        31 <= score <= 45 ==> tier_name(tier_index(score)) == "Budget Warrior"@,
        16 <= score <= 30 ==> tier_name(tier_index(score)) == "Study Mode Only"@,
        0 <= score <= 15 ==> tier_name(tier_index(score)) == "Minimal Hardware"@,
{
}


proof fn lemma_one_monitor(x: MonitorInfo)
    ensures
        display_score(seq![x]) == monitor_points(x),
{
    assert(seq![x].drop_last() =~= Seq::<MonitorInfo>::empty());
    assert(best_monitor_points(Seq::<MonitorInfo>::empty()) == 0);
    assert(seq![x].last() == x);
}

/// What one monitor scores: 30 points, plus points for its resolution (8 below 2 MP, 18
/// from 2 MP, 32 from 3.6 MP, 42 from 7 MP) and for its refresh rate (6 from 74 Hz, 12
/// from 119 Hz, 16 from 143 Hz, 20 from 165 Hz, 26 from 239 Hz). The two parts are shown
/// one at a time (a refresh rate of 0, a size of 0x0) and then added up.
pub proof fn law_display_score_of_one_monitor(m: MonitorInfo)
    ensures
        ({
            let still = MonitorInfo { refresh_rate_tenths: 0, ..m };
            let px = m.width * m.height;
            &&& px < 2_000_000 ==> display_score(seq![still]) == 38
            &&& 2_000_000 <= px < 3_600_000 ==> display_score(seq![still]) == 48
            &&& 3_600_000 <= px < 7_000_000 ==> display_score(seq![still]) == 62
            &&& 7_000_000 <= px ==> display_score(seq![still]) == 72
        }),
        ({
            let tiny = MonitorInfo { width: 0, height: 0, ..m };
            let t = m.refresh_rate_tenths;
            &&& t < 740 ==> display_score(seq![tiny]) == 38
            &&& 740 <= t < 1190 ==> display_score(seq![tiny]) == 44
            &&& 1190 <= t < 1430 ==> display_score(seq![tiny]) == 50
            &&& 1430 <= t < 1650 ==> display_score(seq![tiny]) == 54
            &&& 1650 <= t < 2390 ==> display_score(seq![tiny]) == 58
            &&& 2390 <= t ==> display_score(seq![tiny]) == 64
        }),
        display_score(seq![m]) == display_score(seq![MonitorInfo { refresh_rate_tenths: 0, ..m }])
            + display_score(seq![MonitorInfo { width: 0, height: 0, ..m }]) - 38,
{
    let still = MonitorInfo { refresh_rate_tenths: 0, ..m };
    let tiny = MonitorInfo { width: 0, height: 0, ..m };
    lemma_one_monitor(m);
    lemma_one_monitor(still);
    lemma_one_monitor(tiny);
    assert(still.width * still.height == m.width * m.height);
    assert(tiny.width * tiny.height == 0) by (nonlinear_arith)
        requires
            tiny.width == 0,
    ;
}

/// Several monitors score as their best one plus 4 for each further monitor, capped at
/// 100; no monitor at all scores 40.
pub proof fn law_display_score_of_several(ms: Seq<MonitorInfo>)
    ensures
        ms.len() == 0 ==> display_score(ms) == 40,
        ms.len() > 0 ==> display_score(ms) <= 100,
        forall|i: int|
            0 <= i < ms.len() ==> display_score(ms) >= clamp(
                display_score(seq![#[trigger] ms[i]]) + 4 * (ms.len() - 1),
                10,
                100,
            ),
        ms.len() > 0 ==> exists|i: int|
            0 <= i < ms.len() && display_score(ms) == clamp(
                display_score(seq![#[trigger] ms[i]]) + 4 * (ms.len() - 1),
                10,
                100,
            ),
{
    lemma_best_is_max(ms);
    assert forall|i: int| 0 <= i < ms.len() implies display_score(seq![#[trigger] ms[i]])
        == monitor_points(ms[i]) by {
        lemma_one_monitor(ms[i]);
    }
    if ms.len() > 0 {
        let i = choose|i: int|
            0 <= i < ms.len() && best_monitor_points(ms) == monitor_points(#[trigger] ms[i]);
        lemma_one_monitor(ms[i]);
    }
}


/// The icon, critic quote, colour and community share of each tier, by score range.
pub proof fn law_tier_details_by_range(score: int)
    ensures
        96 <= score <= 100 ==> tier_icon(tier_index(score)) == "🌌"@,
        89 <= score <= 95 ==> tier_icon(tier_index(score)) == "🛸"@,
        76 <= score <= 88 ==> tier_icon(tier_index(score)) == "🚀"@,
        61 <= score <= 75 ==> tier_icon(tier_index(score)) == "🏎️"@,
        46 <= score <= 60 ==> tier_icon(tier_index(score)) == "🚗"@,
        31 <= score <= 45 ==> tier_icon(tier_index(score)) == "🚲"@,
        16 <= score <= 30 ==> tier_icon(tier_index(score)) == "📻"@,
        0 <= score <= 15 ==> tier_icon(tier_index(score)) == "🥔"@,
        96 <= score <= 100 ==> tier_quote(tier_index(score)) == "Is this a quantum supercomputer? The pinnacle of silicon evolution."@,
        89 <= score <= 95 ==> tier_quote(tier_index(score)) == "Hyprland bowed in respect before the kernel even finished booting."@,
        76 <= score <= 88 ==> tier_quote(tier_index(score)) == "High-refresh DSC + heavy silicon. Wayland animations glide like liquid butter."@,
        61 <= score <= 75 ==> tier_quote(tier_index(score)) == "High refresh rate, solid GPU. Now you can only blame your own reflexes."@,
        46 <= score <= 60 ==> tier_quote(tier_index(score)) == "Reliable workhorse. Won't break records, won't break a sweat. Perfectly balanced."@,
        31 <= score <= 45 ==> tier_quote(tier_index(score)) == "Proud veteran silicon. Smooth in 720p, doubles as a space heater on 1080p60."@,
        16 <= score <= 30 ==> tier_quote(tier_index(score)) == "Fans are quiet as long as you only open LibreOffice and htop. Don't push your luck."@,
        0 <= score <= 15 ==> tier_quote(tier_index(score)) == "You installed Arch on a microwave. The cooling fans are screaming for mercy."@,
        96 <= score <= 100 ==> tier_color(tier_index(score)) == "#a855f7"@,
        89 <= score <= 95 ==> tier_color(tier_index(score)) == "#6366f1"@,
        76 <= score <= 88 ==> tier_color(tier_index(score)) == "#38bdf8"@,
        61 <= score <= 75 ==> tier_color(tier_index(score)) == "#22c55e"@,
        46 <= score <= 60 ==> tier_color(tier_index(score)) == "#eab308"@,
        31 <= score <= 45 ==> tier_color(tier_index(score)) == "#f97316"@,
        16 <= score <= 30 ==> tier_color(tier_index(score)) == "#ef4444"@,
        0 <= score <= 15 ==> tier_color(tier_index(score)) == "#94a3b8"@,
        96 <= score <= 100 ==> tier_percentile(tier_index(score)) == "Top 1% ultra-enthusiast tier in the Omarchy community."@,
        89 <= score <= 95 ==> tier_percentile(tier_index(score)) == "Top 5% elite powerhouse tier in the Omarchy community."@,
        76 <= score <= 88 ==> tier_percentile(tier_index(score)) == "Top 15% enthusiast battlestation tier."@,
        61 <= score <= 75 ==> tier_percentile(tier_index(score)) == "Upper 35% competitive gaming & dev segment."@,
        46 <= score <= 60 ==> tier_percentile(tier_index(score)) == "Balanced middle 50% community baseline."@,
        31 <= score <= 45 ==> tier_percentile(tier_index(score)) == "Lightweight terminal & efficiency tier."@,
        16 <= score <= 30 ==> tier_percentile(tier_index(score)) == "Ultra-minimalist low-power tier."@,
        0 <= score <= 15 ==> tier_percentile(tier_index(score)) == "Potato tier: Time to check your local PC parts flea market!"@,
{
}

}
