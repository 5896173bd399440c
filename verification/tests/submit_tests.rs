use omarank::hardware::{HardwareInfo, MonitorInfo};
use omarank::score::calculate_score;
use omarank::submit::{
    create_survey_payload, curl_request, primary_display, SubmitAction, Submission, REPLY_LIMIT,
    SCHEMA_VERSION,
};

fn monitor(w: u32, h: u32, tenths: u32) -> MonitorInfo {
    MonitorInfo { name: "DP-1".to_string(), width: w, height: h, refresh_rate_tenths: tenths, scale_bits: 1.0f64.to_bits() }
}

fn hw() -> HardwareInfo {
    HardwareInfo {
        cpu_name: "AMD Ryzen 5 5600X 6-Core Processor".to_string(),
        cpu_cores: 6,
        cpu_threads: 12,
        cpu_mhz: 4650,
        cpu_mhz_bits: (4650.0f64).to_bits(),
        ram_total_mb: 32000,
        ram_total_gb_tenths: 313,
        ram_type: "DDR4".to_string(),
        ram_speed_mts: 3600,
        ram_modules: 2,
        ram_slots: 4,
        mobo_vendor: "Gigabyte".to_string(),
        mobo_name: "B550 AORUS ELITE".to_string(),
        mobo_bios: "F15".to_string(),
        chipset: "Intel B550".to_string(),
        gpu_name: "AMD Radeon RX 6600".to_string(),
        gpu_driver: "amdgpu".to_string(),
        monitors: vec![monitor(2560, 1440, 1445), monitor(1920, 1080, 600)],
        storage_type: "NVMe PCIe Gen4/5 SSD".to_string(),
        storage_model: "WD Blue SN570".to_string(),
        os_name: "Arch Linux".to_string(),
    }
}

#[test]
fn payload_carries_the_profile() {
    let r = calculate_score(&hw());
    let p = create_survey_payload(&r, 1700000000);
    assert_eq!(p.schema_version, SCHEMA_VERSION);
    assert_eq!(p.schema_version, 2);
    assert_eq!(p.timestamp_epoch, 1700000000);
    assert_eq!(p.omarank_score, r.total_score);
    assert_eq!(p.tier_name, r.tier_name);
    assert_eq!(p.cpu_model, "AMD Ryzen 5 5600X 6-Core Processor");
    assert_eq!((p.cpu_cores, p.cpu_threads), (6, 12));
    assert_eq!(p.ram_gb_tenths, 313);
    assert_eq!(p.primary_display, "2560x1440 @ 144Hz");
    assert_eq!(p.display_count, 2);
    assert_eq!(p.chipset, "Intel B550");
    assert_eq!(p.os_name, "Arch Linux");
}

#[test]
fn primary_display_text() {
    assert_eq!(primary_display(&vec![]), "1920x1080 @ 60Hz");
    assert_eq!(primary_display(&vec![monitor(3440, 1440, 1749)]), "3440x1440 @ 175Hz");
    assert_eq!(primary_display(&vec![monitor(1920, 1080, 1435)]), "1920x1080 @ 144Hz");
    assert_eq!(primary_display(&vec![monitor(1920, 1080, 1445)]), format!("1920x1080 @ {:.0}Hz", 144.5f64));
}

#[test]
fn requests_post_the_profile() {
    let r = curl_request("{\"a\":1}", false);
    assert_eq!(
        r.args,
        vec![
            "-s", "-S", "--max-time", "2", "-X", "POST", "-H", "Content-Type: application/json", "-H",
            "User-Agent: OmaRank-Engine/1.0", "-d", "{\"a\":1}", "https://omastat.omarchy.org/api/survey/v1",
        ]
    );
    assert_eq!((r.deadline_secs, r.output_limit), (3, REPLY_LIMIT));
    let r = curl_request("{}", true);
    assert_eq!(r.args[3], "3");
    assert_eq!(r.args[12], "https://omastat.ozan-zdil.workers.dev/api/survey/v1");
    assert_eq!((r.deadline_secs, r.output_limit), (4, 4096));
}

#[test]
fn official_endpoint_first_then_community() {
    let (mut s, first) = Submission::start("{}".to_string());
    assert!(matches!(&first, SubmitAction::Send(r) if r.args[12] == "https://omastat.omarchy.org/api/survey/v1"));
    let next = s.on_reply(false);
    assert!(matches!(&next, SubmitAction::Send(r) if r.args[12] == "https://omastat.ozan-zdil.workers.dev/api/survey/v1"));
    assert!(matches!(s.on_reply(false), SubmitAction::Record { delivered: false }));

    let (mut s, _) = Submission::start("{}".to_string());
    assert!(matches!(s.on_reply(true), SubmitAction::Record { delivered: true }));

    let (mut s, _) = Submission::start("{}".to_string());
    let _ = s.on_reply(false);
    assert!(matches!(s.on_reply(true), SubmitAction::Record { delivered: true }));
}
