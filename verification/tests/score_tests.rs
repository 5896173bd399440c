use omarank::hardware::{HardwareInfo, MonitorInfo};
use omarank::score::{
    calculate_score, get_rank_tier, score_components, score_cpu, score_display, score_gpu,
    score_gpu_lowercased, score_mobo, score_ram, score_storage, total_from_weighted, SubScores,
};

fn monitor(w: u32, h: u32, tenths: u32) -> MonitorInfo {
    MonitorInfo { name: "DP-1".to_string(), width: w, height: h, refresh_rate_tenths: tenths, scale_bits: 1.0f64.to_bits() }
}

fn machine() -> HardwareInfo {
    HardwareInfo {
        cpu_name: "AMD Ryzen 9 7950X 16-Core Processor".to_string(),
        cpu_cores: 16,
        cpu_threads: 32,
        cpu_mhz: 5881,
        cpu_mhz_bits: (5881.0f64).to_bits(),
        ram_total_mb: 63945,
        ram_total_gb_tenths: 624,
        ram_type: "DDR5".to_string(),
        ram_speed_mts: 6000,
        ram_modules: 2,
        ram_slots: 4,
        mobo_vendor: "ASUSTeK COMPUTER INC.".to_string(),
        mobo_name: "ROG CROSSHAIR X670E HERO".to_string(),
        mobo_bios: "1904".to_string(),
        chipset: "AMD X670E".to_string(),
        gpu_name: "NVIDIA GeForce RTX 4090".to_string(),
        gpu_driver: "nvidia 550.67".to_string(),
        monitors: vec![monitor(3840, 2160, 1440)],
        storage_type: "NVMe PCIe Gen4/5 SSD".to_string(),
        storage_model: "Samsung SSD 990 PRO 2TB".to_string(),
        os_name: "Arch Linux".to_string(),
    }
}

#[test]
fn cpu_scores() {
    assert_eq!(score_cpu(16, 32, 5881), 100);
    assert_eq!(score_cpu(8, 16, 4700), 75);
    assert_eq!(score_cpu(4, 8, 3000), 43);
    assert_eq!(score_cpu(2, 2, 1800), 7);
    assert_eq!(score_cpu(1, 1, 0), 15);
    assert_eq!(score_cpu(0, 0, 2599), 7);
    assert_eq!(score_cpu(6, 12, 4000), 58);
}

#[test]
fn ram_scores() {
    assert_eq!(score_ram(1280), 100);
    assert_eq!(score_ram(624), 96);
    assert_eq!(score_ram(313), 85);
    assert_eq!(score_ram(157), 62);
    assert_eq!(score_ram(110), 45);
    assert_eq!(score_ram(78), 28);
    assert_eq!(score_ram(35), 15);
    assert_eq!(score_ram(34), 5);
}

#[test]
fn gpu_scores() {
    assert_eq!(score_gpu("NVIDIA GeForce RTX 4090", "nvidia"), 100);
    assert_eq!(score_gpu("AMD Radeon RX 7900 XTX", "amdgpu"), 95);
    assert_eq!(score_gpu("AMD Radeon RX 7900 XT", "amdgpu"), 90);
    assert_eq!(score_gpu("Intel Arc B580", "xe"), 82);
    assert_eq!(score_gpu("Intel UHD Graphics 770", "i915"), 28);
    assert_eq!(score_gpu("Generic GPU", "I915"), 28);
    assert_eq!(score_gpu("Generic GPU", "NVIDIA"), 70);
    assert_eq!(score_gpu("Generic GPU", "amdgpu"), 65);
    assert_eq!(score_gpu("Generic GPU", "xe"), 78);
    assert_eq!(score_gpu("Generic GPU", "drm"), 35);
    assert_eq!(score_gpu("AMD Radeon 780M", "amdgpu"), 48);
    assert_eq!(score_gpu_lowercased("GEFORCE GTX 970", "nvidia"), 70);
    assert_eq!(score_gpu("GEFORCE GTX 970", "nvidia"), 40);
}

#[test]
fn display_scores() {
    assert_eq!(score_display(&[]), 40);
    assert_eq!(score_display(&[monitor(3840, 2160, 1440)]), 88);
    assert_eq!(score_display(&[monitor(1920, 1080, 600)]), 48);
    assert_eq!(score_display(&[monitor(1920, 1080, 600), monitor(2560, 1440, 2400)]), 92);
    assert_eq!(score_display(&[monitor(1366, 768, 600)]), 38);
    assert_eq!(score_display(&[monitor(5120, 1440, 2400), monitor(100, 100, 0), monitor(100, 100, 0)]), 100);
    assert_eq!(score_display(&[monitor(1920, 1080, 1649)]), 64);
    assert_eq!(score_display(&[monitor(1920, 1080, 1650)]), 68);
}

#[test]
fn storage_scores() {
    assert_eq!(score_storage("NVMe PCIe Gen4/5 SSD"), 92);
    assert_eq!(score_storage("SATA SSD"), 70);
    assert_eq!(score_storage("SATA SSD / HDD"), 70);
    assert_eq!(score_storage("HDD"), 30);
}

#[test]
fn rank_tiers() {
    let cases = [
        (100u32, "Cosmic Reality Simulator"),
        (96, "Cosmic Reality Simulator"),
        (95, "NASA Supercomputer"),
        (89, "NASA Supercomputer"),
        (88, "Cyberpunk Beast"),
        (76, "Cyberpunk Beast"),
        (75, "Gaming Rig"),
        (61, "Gaming Rig"),
        (60, "Honest Daily Driver"),
        (46, "Honest Daily Driver"),
        (45, "Budget Warrior"),
        (31, "Budget Warrior"),
        (30, "Study Mode Only"),
        (16, "Study Mode Only"),
        (15, "Minimal Hardware"),
        (0, "Minimal Hardware"),
        (101, "Minimal Hardware"),
    ];
    for (score, name) in cases {
        assert_eq!(get_rank_tier(score).0, name, "score {}", score);
    }
    let t = get_rank_tier(70);
    assert_eq!(t.1, "🏎️");
    assert_eq!(t.3, "#22c55e");
    assert_eq!(t.4, "Upper 35% competitive gaming & dev segment.");
}

#[test]
fn mobo_scores() {
    assert_eq!(score_mobo("AMD X870E"), 95);
    assert_eq!(score_mobo("Intel Z790"), 95);
    assert_eq!(score_mobo("AMD X870"), 88);
    assert_eq!(score_mobo("Intel Z690"), 88);
    assert_eq!(score_mobo("AMD B650E"), 72);
    assert_eq!(score_mobo("Intel B650"), 72);
    assert_eq!(score_mobo("Intel H610"), 55);
    assert_eq!(score_mobo("AMD B450"), 55);
    assert_eq!(score_mobo("Mainstream Chipset"), 45);
}

#[test]
fn total_rounding() {
    assert_eq!(total_from_weighted(8449), 84);
    assert_eq!(total_from_weighted(8450), 85);
    assert_eq!(total_from_weighted(8451), 85);
    assert_eq!(total_from_weighted(0), 1);
    assert_eq!(total_from_weighted(20000), 100);
}

fn weighted(s: &SubScores) -> u32 {
    24 * s.cpu + 32 * s.gpu + 16 * s.ram + 8 * s.mobo + 15 * s.display + 5 * s.storage
}

#[test]
fn weighted_total_matches_the_percentages() {
    for cpu in [5u32, 43, 75, 100] {
        for gpu in [28u32, 35, 50, 82, 100] {
            for ram in [5u32, 15, 62, 96] {
                for mobo in [45u32, 55, 72, 88, 95] {
                    for display in [10u32, 40, 48, 88] {
                        for storage in [30u32, 70, 92] {
                            let s = SubScores { cpu, gpu, ram, mobo, display, storage };
                            let n = weighted(&s);
                            let exact = (n as f64 / 100.0).round() as u32;
                            assert_eq!(total_from_weighted(n), exact.min(100).max(1));
                        }
                    }
                }
            }
        }
    }
}

#[test]
fn better_components_never_lower_the_total() {
    let a = SubScores { cpu: 43, gpu: 50, ram: 62, mobo: 45, display: 48, storage: 70 };
    let b = SubScores { cpu: 43, gpu: 82, ram: 62, mobo: 72, display: 48, storage: 92 };
    assert!(total_from_weighted(weighted(&b)) >= total_from_weighted(weighted(&a)));
    assert_eq!(total_from_weighted(weighted(&a)), 51);
    assert_eq!(total_from_weighted(weighted(&b)), 64);
}

#[test]
fn display_score_ignores_monitor_order() {
    let a = [monitor(1920, 1080, 600), monitor(2560, 1440, 2400), monitor(1366, 768, 600)];
    let b = [monitor(2560, 1440, 2400), monitor(1366, 768, 600), monitor(1920, 1080, 600)];
    assert_eq!(score_display(&a), score_display(&b));
}

#[test]
fn machine_score_card() {
    let hw = machine();
    let sub = score_components(&hw);
    assert_eq!(sub, SubScores { cpu: 100, gpu: 100, ram: 96, mobo: 95, display: 88, storage: 92 });
    let r = calculate_score(&hw);
    assert_eq!(r.total_score, 97);
    assert_eq!(r.tier_name, "Cosmic Reality Simulator");
    assert_eq!(r.tier_icon, "🌌");
    assert_eq!(r.percentile_text, "Top 1% ultra-enthusiast tier in the Omarchy community.");
    assert_eq!(r.hardware.cpu_name, hw.cpu_name);
    assert_eq!(r.hardware.monitors.len(), 1);
}

#[test]
fn weakest_machine_scores_at_least_one_point() {
    let mut hw = machine();
    hw.cpu_cores = 1;
    hw.cpu_threads = 1;
    hw.cpu_mhz = 800;
    hw.ram_total_gb_tenths = 20;
    hw.gpu_name = "Generic GPU".to_string();
    hw.gpu_driver = "drm".to_string();
    hw.monitors = vec![monitor(800, 600, 300)];
    hw.storage_type = "HDD".to_string();
    hw.chipset = "Mainstream Chipset".to_string();
    let sub = score_components(&hw);
    assert_eq!(sub, SubScores { cpu: 7, gpu: 35, ram: 5, mobo: 45, display: 38, storage: 30 });
    let r = calculate_score(&hw);
    assert_eq!(r.total_score, 24);
    assert_eq!(r.tier_name, "Study Mode Only");
}
