use omarank::hardware::{HardwareInfo, MonitorInfo};
use omarank::report::{
    bar_status_text, bar_status_tooltip, is_my_tier, json_output_allowed, ladder_rows, push_tenths,
    render_bar, rounded_tenths, LADDER_ROWS,
};
use omarank::score::{calculate_score, get_rank_tier};

#[test]
fn score_bars() {
    assert_eq!(render_bar(0), format!("\x1b[32m[{}]\x1b[0m", "░".repeat(24)));
    assert_eq!(render_bar(100), format!("\x1b[32m[{}]\x1b[0m", "█".repeat(24)));
    assert_eq!(render_bar(50), format!("\x1b[32m[{}{}]\x1b[0m", "█".repeat(12), "░".repeat(12)));
    assert_eq!(render_bar(88), format!("\x1b[32m[{}{}]\x1b[0m", "█".repeat(21), "░".repeat(3)));
    assert_eq!(render_bar(5), format!("\x1b[32m[{}{}]\x1b[0m", "█".repeat(1), "░".repeat(23)));
    assert_eq!(render_bar(150), format!("\x1b[32m[{}]\x1b[0m", "█".repeat(36)));
    for s in 0..=100u32 {
        let b = render_bar(s);
        assert_eq!(b.chars().filter(|c| *c == '█' || *c == '░').count(), 24);
    }
}

#[test]
fn ladder_lists_the_eight_tiers() {
    let rows = ladder_rows();
    assert_eq!(rows.len(), LADDER_ROWS);
    let badges: Vec<&str> = rows.iter().map(|r| r.badge.as_str()).collect();
    assert_eq!(badges, vec!["S+", "S", "A", "B", "C", "D", "E", "F"]);
    assert_eq!(rows[1].icon, "\u{f04c5}");
    assert_eq!(rows[3].name, "Gaming Rig");
    assert_eq!(rows[6].rank_span, "#10609-#12105");
    assert_eq!(rows[7].share, "Potato");
    for (i, r) in rows.iter().enumerate() {
        let score = [98u32, 92, 80, 70, 50, 40, 20, 5][i];
        assert_eq!(r.name, get_rank_tier(score).0);
    }
}

#[test]
fn own_tier_is_marked() {
    let rows = ladder_rows();
    for score in 0..=100u32 {
        let own = get_rank_tier(score).0;
        let marked: Vec<&str> = rows.iter().filter(|r| is_my_tier(score, &r.badge)).map(|r| r.name.as_str()).collect();
        assert_eq!(marked, vec![own.as_str()], "score {}", score);
    }
    assert!(!is_my_tier(97, "A"));
    assert!(!is_my_tier(90, "A"));
    assert!(is_my_tier(88, "A"));
    assert!(is_my_tier(97, "S+"));
    assert!(!is_my_tier(97, "S"));
    assert!(is_my_tier(15, "F"));
    assert!(!is_my_tier(16, "F"));
}

#[test]
fn numbers_are_written_as_formatting_writes_them() {
    for t in [0u64, 5, 15, 25, 595, 600, 605, 615, 1449, 1445, 1435, 1650, 2399, 12345] {
        let x = t as f64 / 10.0;
        let mut s = String::new();
        push_tenths(&mut s, t);
        assert_eq!(s, format!("{:.1}", x), "tenths {}", t);
        assert_eq!(rounded_tenths(t).to_string(), format!("{:.0}", x), "whole {}", t);
    }
}

fn hw(monitors: Vec<MonitorInfo>) -> HardwareInfo {
    HardwareInfo {
        cpu_name: "Intel Core i7-12700H".to_string(),
        cpu_cores: 14,
        cpu_threads: 20,
        cpu_mhz: 4700,
        cpu_mhz_bits: (4700.0f64).to_bits(),
        ram_total_mb: 15726,
        ram_total_gb_tenths: 154,
        ram_type: "DDR5".to_string(),
        ram_speed_mts: 4800,
        ram_modules: 2,
        ram_slots: 2,
        mobo_vendor: "Dell".to_string(),
        mobo_name: "0XYZ".to_string(),
        mobo_bios: "1.2".to_string(),
        chipset: "Mainstream Chipset".to_string(),
        gpu_name: "Intel Iris Xe Graphics".to_string(),
        gpu_driver: "xe".to_string(),
        monitors,
        storage_type: "NVMe PCIe Gen4/5 SSD".to_string(),
        storage_model: "PM9A1".to_string(),
        os_name: "Arch Linux".to_string(),
    }
}

#[test]
fn status_bar_text_and_tooltip() {
    let m = MonitorInfo { name: "eDP-1".to_string(), width: 1920, height: 1200, refresh_rate_tenths: 1645, scale_bits: 1.25f64.to_bits() };
    let r = calculate_score(&hw(vec![m]));
    assert_eq!(bar_status_text(&r), format!("{} {} {}", r.tier_icon, r.total_score, r.tier_name));
    let expected = format!(
        "🏆 OmaRank: {} / 100 ({})\n• {}\n\n• CPU: {} ({} threads)\n• GPU: {}\n• RAM: {:.1} GB\n• Display: {} @ {:.0}Hz\n\n[Left Click] View Hardware Breakdown & Survey",
        r.total_score, r.tier_name, r.tier_quote, "Intel Core i7-12700H", 20, "Intel Iris Xe Graphics", 15.4f64, "1920x1200", 164.5f64
    );
    assert_eq!(bar_status_tooltip(&r), expected);
    let r = calculate_score(&hw(vec![]));
    assert!(bar_status_tooltip(&r).contains("• Display: 1080p @ 60Hz"));
}

#[test]
fn json_output_limit() {
    assert!(json_output_allowed(65536));
    assert!(!json_output_allowed(65537));
}
