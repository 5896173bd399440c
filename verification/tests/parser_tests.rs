use omarank::board::{board_chipset, board_vendor, lspci_chipset, motherboard, motherboard_fits};
use omarank::gpu::{
    clean_gpu_names, drm_fallback_step, drm_uevent_path, fallback_gpu, gpu_candidate,
    lspci_gpu_listings, parse_nvidia_smi, pci_uevent_paths, pick_gpu, uevent_driver, GpuAction,
    GpuCandidate, GpuProbe, DRM_CARDS,
};
use omarank::system::{
    cpu_facts, cpuinfo_fits_check, mem_total_kb, os_name, os_release_fits_check, pretty_name,
    ram_sizes, storage_model_fits, StorageScan,
};

#[test]
fn uevent_names_the_first_driver() {
    let text = "PCI_CLASS=30000\nDRIVER=amdgpu\nDRIVER=other\n";
    assert_eq!(uevent_driver(text), Some("amdgpu".to_string()));
    assert_eq!(uevent_driver("DRIVER= i915 \r\n"), Some("i915".to_string()));
    assert_eq!(uevent_driver("MODALIAS=pci:v1\n"), None);
    assert_eq!(uevent_driver(""), None);
}

#[test]
fn nvidia_smi_first_line() {
    let out = "NVIDIA GeForce RTX 4090, 550.67\nNVIDIA GeForce RTX 3060, 550.67\n";
    assert_eq!(
        parse_nvidia_smi(out),
        Some(("NVIDIA GeForce RTX 4090".to_string(), "nvidia 550.67".to_string()))
    );
    assert_eq!(parse_nvidia_smi("Quadro P400\n"), Some(("Quadro P400".to_string(), "nvidia".to_string())));
    assert_eq!(parse_nvidia_smi(" , 550\n"), None);
    assert_eq!(parse_nvidia_smi(""), None);
}

#[test]
fn lspci_lists_display_controllers() {
    let out = [
        "00:02.0 \"VGA compatible controller\" \"Intel Corporation\" \"Raptor Lake-S GT1 [UHD Graphics 770]\" -r04 \"Dell\" \"Device 0c1a\"\n",
        "01:00.0 \"VGA compatible controller\" \"Advanced Micro Devices, Inc. [AMD/ATI]\" \"Navi 31 [Radeon RX 7900 XT/7900 XTX]\" -rc8 \"\" \"\"\n",
        "00:1f.3 \"Audio device\" \"Intel Corporation\" \"Raptor Lake High Definition Audio Controller\"\n",
        "03:00.0 \"3D controller\" \"NVIDIA Corporation\"\n",
        "broken line\n",
    ]
    .join("");
    let out = out.as_str();
    let ls = lspci_gpu_listings(out);
    assert_eq!(ls.len(), 3);
    assert_eq!(ls[0].slot, "00:02.0");
    assert_eq!(ls[0].name, "Intel Corporation Raptor Lake-S GT1 [UHD Graphics 770]");
    assert!(!ls[0].is_discrete);
    assert_eq!(ls[1].name, "Advanced Micro Devices, Inc. [AMD/ATI] Navi 31 [Radeon RX 7900 XT/7900 XTX]");
    assert!(ls[1].is_discrete);
    assert_eq!(ls[2].name, "NVIDIA Corporation");
    assert!(ls[2].is_discrete);
}

#[test]
fn lspci_slot_without_colon_is_dropped() {
    let ls = lspci_gpu_listings("slot \"Display controller\" \"Intel Corporation\" \"Arc B580\"\n");
    assert_eq!(ls.len(), 1);
    assert_eq!(ls[0].slot, "");
    assert!(ls[0].is_discrete);
}

#[test]
fn pci_paths_and_candidates() {
    let (a, b) = pci_uevent_paths("01:00.0");
    assert_eq!(a, "/sys/bus/pci/devices/0000:01:00.0/uevent");
    assert_eq!(b, "/sys/bus/pci/devices/01:00.0/uevent");
    let ls = lspci_gpu_listings("01:00.0 \"VGA compatible controller\" \"NVIDIA Corporation\" \"AD102 [GeForce RTX 4090]\"\n");
    let mut ls = ls;
    let g = gpu_candidate(ls.remove(0), Some("DRIVER=nvidia\n"));
    assert_eq!(g.driver, "nvidia");
    assert_eq!(g.name, "NVIDIA Corporation AD102 [GeForce RTX 4090]");
    let ls2 = lspci_gpu_listings("00:02.0 \"VGA compatible controller\" \"Intel Corporation\" \"UHD\"\n");
    let g2 = gpu_candidate(ls2.into_iter().next().unwrap(), None);
    assert_eq!(g2.driver, "drm");
}

fn cand(name: &str, d: bool) -> GpuCandidate {
    GpuCandidate { name: name.to_string(), driver: "drm".to_string(), is_discrete: d }
}

#[test]
fn discrete_card_is_picked_first() {
    assert_eq!(pick_gpu(&[]), None);
    assert_eq!(pick_gpu(&[cand("igpu", false), cand("dgpu", true), cand("dgpu2", true)]), Some(1));
    assert_eq!(pick_gpu(&[cand("a", false), cand("b", false)]), Some(0));
}

#[test]
fn gpu_names_are_cleaned() {
    let long = "X".repeat(70);
    let (n, d) = clean_gpu_names(&long, "  nvidia 550.67 ");
    assert_eq!(n.len(), 55);
    assert_eq!(d, "nvidia 550.67");
    assert_eq!(fallback_gpu("i915".to_string()), ("Generic GPU".to_string(), "i915".to_string()));
}

#[test]
fn drm_fallback_stops_at_a_real_driver() {
    assert_eq!(DRM_CARDS, 5);
    assert_eq!(drm_uevent_path(3), "/sys/class/drm/card3/device/uevent");
    assert_eq!(drm_fallback_step("drm", None), ("drm".to_string(), false));
    assert_eq!(drm_fallback_step("drm", Some("DEVTYPE=drm_minor\n")), ("drm".to_string(), false));
    assert_eq!(drm_fallback_step("drm", Some("DRIVER=drm\n")), ("drm".to_string(), false));
    assert_eq!(drm_fallback_step("drm", Some("DRIVER=xe\n")), ("xe".to_string(), true));
}

#[test]
fn board_vendor_is_shortened() {
    assert_eq!(board_vendor("Gigabyte Technology Co., Ltd.\n"), "Gigabyte");
    assert_eq!(board_vendor("ASUSTeK COMPUTER INC.\n"), "ASUSTeK COMPUTER INC.");
    assert_eq!(board_vendor("Micro-Star International Co., Ltd.\n"), "Micro-Star International Co., Ltd.");
    assert_eq!(board_vendor("Dell Inc.\n"), "Dell");
}

#[test]
fn chipset_from_lspci() {
    let intel = "00:1f.0 ISA bridge: Intel Corporation Z790 Chipset LPC/eSPI Controller (rev 11)\n";
    assert_eq!(lspci_chipset(intel), Some("Intel Z790".to_string()));
    let amd = "00:14.3 ISA bridge: Advanced Micro Devices, Inc. [AMD] FCH LPC Bridge (rev 51)\n\
               02:00.0 Host bridge: Advanced Micro Devices, Inc. [AMD] 600 Series Chipset B650E\n";
    assert_eq!(lspci_chipset(amd), Some("AMD B650E".to_string()));
    let none = "00:00.0 Host bridge: Intel Corporation Device a700 (rev 01)\n";
    assert_eq!(lspci_chipset(none), None);
    let other = "00:02.0 VGA compatible controller: Intel Corporation Z790 Chipset\n";
    assert_eq!(lspci_chipset(other), None);
}

#[test]
fn chipset_falls_back_to_the_board_name() {
    assert_eq!(board_chipset("ROG STRIX Z790-E GAMING WIFI", None), "Intel Z790");
    assert_eq!(board_chipset("MAG X670E TOMAHAWK WIFI", Some("")), "AMD X670E");
    assert_eq!(board_chipset("B650 AORUS ELITE AX", None), "Intel B650");
    assert_eq!(board_chipset("A620M-E", None), "AMD A620");
    assert_eq!(board_chipset("Custom Board", None), "Mainstream Chipset");
    let lspci = "00:1f.0 ISA bridge: Intel Corporation B760 Chipset LPC\n";
    assert_eq!(board_chipset("X670E board", Some(lspci)), "Intel B760");
}

#[test]
fn motherboard_summary() {
    assert!(motherboard_fits(None, None, None, None));
    let (v, n, b, c) = motherboard(None, None, None, None);
    assert_eq!((v.as_str(), n.as_str(), b.as_str(), c.as_str()), ("Generic", "Motherboard", "Unknown", "Mainstream Chipset"));
    let args = (Some("ASRock Inc.\n"), Some("  X870E Taichi\n"), Some("3.10\n"), None);
    assert!(motherboard_fits(args.0, args.1, args.2, args.3));
    let (v, n, b, c) = motherboard(args.0, args.1, args.2, args.3);
    assert_eq!((v.as_str(), n.as_str(), b.as_str(), c.as_str()), ("ASRock", "X870E Taichi", "3.10", "AMD X870E"));
    let long_bios = "1.2.3.4.5.6.78é";
    assert!(!motherboard_fits(None, None, Some(long_bios), None));
}

#[test]
fn cpuinfo_facts() {
    let text = "processor\t: 0\nmodel name\t: AMD Ryzen 7 7800X3D 8-Core Processor\ncpu MHz\t\t: 4200.000\ncpu cores\t: 8\n\n\
                processor\t: 1\nmodel name\t: other\ncpu MHz\t\t: 5050.125\ncpu cores\t: 6\n";
    assert!(cpuinfo_fits_check(Some(text)));
    let f = cpu_facts(Some(text));
    assert_eq!(f.name, "AMD Ryzen 7 7800X3D 8-Core Processor");
    assert_eq!(f.cores, 8);
    assert_eq!(f.threads, 2);
    assert_eq!(f.mhz_values, vec!["4200.000".to_string(), "5050.125".to_string()]);
}

#[test]
fn cpuinfo_defaults() {
    let f = cpu_facts(None);
    assert_eq!((f.name.as_str(), f.cores, f.threads), ("Generic CPU", 1, 1));
    let f = cpu_facts(Some("processor : 0\nprocessor : 1\nprocessor : 2\n"));
    assert_eq!((f.cores, f.threads), (3, 3));
    let f = cpu_facts(Some("cpu cores : 4\n"));
    assert_eq!((f.cores, f.threads), (4, 4));
    let f = cpu_facts(Some("cpu cores : x\nmodel name : <Generic CPU>\nmodel name : Next\n"));
    // the first name cleans to the placeholder, so the next one replaces it
    assert_eq!(f.name, "Next");
    assert_eq!(f.cores, 1);
    let too_long = format!("model name : {}é\n", "a".repeat(49));
    assert!(!cpuinfo_fits_check(Some(&too_long)));
    let fits = format!("model name : {}é\n", "a".repeat(48));
    assert!(cpuinfo_fits_check(Some(&fits)));
}

#[test]
fn meminfo_total() {
    let text = "MemTotal:       32768000 kB\nMemFree:  100 kB\n";
    assert_eq!(mem_total_kb(Some(text)), 32768000);
    assert_eq!(mem_total_kb(Some("MemTotal:\nMemTotal: 2048 kB\n")), 2048);
    assert_eq!(mem_total_kb(Some("MemTotal: x kB\nMemTotal: 2048 kB\n")), 0);
    assert_eq!(mem_total_kb(None), 0);
    assert_eq!(ram_sizes(32768000), (32000, 313));
    assert_eq!(ram_sizes(16 * 1024 * 1024), (16384, 160));
    assert_eq!(ram_sizes(0), (0, 0));
}

#[test]
fn ram_tenths_round_like_the_float_formula() {
    for mb in [0u64, 1, 51, 52, 153, 154, 1000, 7782, 15872, 31900, 65536, 123456] {
        let kb = mb * 1024;
        let expected = ((mb as f64 / 1024.0) * 10.0).round() as u64;
        assert_eq!(ram_sizes(kb).1, expected, "{} MiB", mb);
    }
}

#[test]
fn os_release_name() {
    let text = "NAME=\"Arch Linux\"\nPRETTY_NAME=\"Arch Linux\"\nID=arch\n";
    assert_eq!(pretty_name(Some(text)), Some("Arch Linux".to_string()));
    assert!(os_release_fits_check(Some(text)));
    assert_eq!(os_name(Some(text)), "Arch Linux");
    assert_eq!(os_name(Some("ID=arch\n")), "Omarchy Linux");
    assert_eq!(os_name(None), "Omarchy Linux");
    assert_eq!(os_name(Some("PRETTY_NAME=\"A very long distribution name that goes on\"\n")), "A very long distribution name ");
}

#[test]
fn storage_scan_prefers_nvme() {
    let mut s = StorageScan::new();
    assert_eq!((s.storage_type.as_str(), s.storage_model.as_str()), ("SATA SSD / HDD", "Solid State Drive"));
    assert_eq!(s.visit("loop0"), None);
    assert_eq!(s.visit("sda"), Some("/sys/block/sda/device/model".to_string()));
    assert!(storage_model_fits("Samsung SSD 870 \n"));
    assert!(!s.model_read("sda", Some("Samsung SSD 870 \n")));
    assert_eq!((s.storage_type.as_str(), s.storage_model.as_str()), ("SATA SSD", "Samsung SSD 870"));
    assert_eq!(s.visit("sdb"), None);
    assert_eq!(s.visit("nvme0n1"), Some("/sys/block/nvme0n1/device/model".to_string()));
    assert_eq!(s.storage_type, "NVMe PCIe Gen4/5 SSD");
    assert!(s.model_read("nvme0n1", Some("WD_BLACK SN850X 2000GB\n")));
    assert_eq!(s.storage_model, "WD_BLACK SN850X 2000GB");
}

#[test]
fn storage_scan_without_model_file() {
    let mut s = StorageScan::new();
    assert_eq!(s.visit("nvme0n1"), Some("/sys/block/nvme0n1/device/model".to_string()));
    assert!(!s.model_read("nvme0n1", None));
    assert_eq!((s.storage_type.as_str(), s.storage_model.as_str()), ("NVMe PCIe Gen4/5 SSD", "Solid State Drive"));
    assert_eq!(s.visit("nvme0n1p1"), None);
}

fn read_path(a: &GpuAction) -> String {
    match a {
        GpuAction::ReadFile(p) => p.clone(),
        _ => panic!("expected a file read"),
    }
}

fn reported(a: &GpuAction) -> (bool, String, String) {
    match a {
        GpuAction::CleanAndReport { name, driver } => (true, name.clone(), driver.clone()),
        GpuAction::Report { name, driver } => (false, name.clone(), driver.clone()),
        _ => panic!("expected a report"),
    }
}

#[test]
fn gpu_probe_asks_nvidia_smi_first() {
    let (mut p, first) = GpuProbe::start();
    match &first {
        GpuAction::Run(r) => {
            assert_eq!(r.program, "/usr/bin/nvidia-smi");
            assert_eq!(r.args, vec!["--query-gpu=gpu_name,driver_version", "--format=csv,noheader"]);
            assert_eq!(r.output_limit, 4096);
        }
        _ => panic!("nvidia-smi comes first"),
    }
    let a = p.step(Some("NVIDIA GeForce RTX 4090, 550.67\n".to_string()));
    assert_eq!(reported(&a), (true, "NVIDIA GeForce RTX 4090".to_string(), "nvidia 550.67".to_string()));
    assert!(matches!(p.step(None), GpuAction::Finished));
}

#[test]
fn gpu_probe_reads_each_listed_card() {
    let (mut p, _) = GpuProbe::start();
    match p.step(None) {
        GpuAction::Run(r) => {
            assert_eq!(r.program, "/usr/bin/lspci");
            assert_eq!(r.args, vec!["-mm"]);
            assert_eq!(r.output_limit, 65536);
        }
        _ => panic!("lspci comes second"),
    }
    let out = "00:02.0 \"VGA compatible controller\" \"Intel Corporation\" \"UHD Graphics 770\"\n\
               01:00.0 \"VGA compatible controller\" \"NVIDIA Corporation\" \"AD104 [GeForce RTX 4070]\"\n";
    let a = p.step(Some(out.to_string()));
    assert_eq!(read_path(&a), "/sys/bus/pci/devices/0000:00:02.0/uevent");
    let a = p.step(None);
    assert_eq!(read_path(&a), "/sys/bus/pci/devices/00:02.0/uevent");
    let a = p.step(Some("DRIVER=i915\n".to_string()));
    assert_eq!(read_path(&a), "/sys/bus/pci/devices/0000:01:00.0/uevent");
    let a = p.step(Some("DRIVER=nvidia\n".to_string()));
    assert_eq!(
        reported(&a),
        (true, "NVIDIA Corporation AD104 [GeForce RTX 4070]".to_string(), "nvidia".to_string())
    );
}

#[test]
fn gpu_probe_reports_first_card_when_none_is_discrete() {
    let (mut p, _) = GpuProbe::start();
    let _ = p.step(None);
    let a = p.step(Some("00:02.0 \"VGA compatible controller\" \"Intel Corporation\" \"UHD Graphics 770\"\n".to_string()));
    assert_eq!(read_path(&a), "/sys/bus/pci/devices/0000:00:02.0/uevent");
    let _ = p.step(None);
    let a = p.step(None);
    assert_eq!(reported(&a), (true, "Intel Corporation UHD Graphics 770".to_string(), "drm".to_string()));
}

#[test]
fn gpu_probe_falls_back_to_drm_cards() {
    let (mut p, _) = GpuProbe::start();
    let _ = p.step(None);
    let a = p.step(None);
    assert_eq!(read_path(&a), "/sys/class/drm/card0/device/uevent");
    let a = p.step(None);
    assert_eq!(read_path(&a), "/sys/class/drm/card1/device/uevent");
    let a = p.step(Some("DRIVER=drm\n".to_string()));
    assert_eq!(read_path(&a), "/sys/class/drm/card2/device/uevent");
    let a = p.step(Some("DRIVER=amdgpu\n".to_string()));
    assert_eq!(reported(&a), (false, "Generic GPU".to_string(), "amdgpu".to_string()));

    let (mut p, _) = GpuProbe::start();
    let _ = p.step(None);
    let _ = p.step(Some(String::new()));
    for card in 1..5 {
        let a = p.step(None);
        assert_eq!(read_path(&a), format!("/sys/class/drm/card{}/device/uevent", card));
    }
    let a = p.step(None);
    assert_eq!(reported(&a), (false, "Generic GPU".to_string(), "drm".to_string()));
}
