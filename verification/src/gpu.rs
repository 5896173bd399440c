//! Identifying the graphics card from what `nvidia-smi`, `lspci -mm` and the kernel's
//! `uevent` files report.
use vstd::prelude::*;
use crate::text::{
    chars_of, contains_str, starts_with_str, string_of, trim_chars, push_str, push_decimal,
    clean_string, clean_fits, is_clean_result, seq_contains, seq_starts_with, trim, decimal,
};
use crate::fields::{
    lines, split_char, split_lines, split_at_char, views, trim_start_matches,
    trim_start_matches_chars,
};
use crate::system::string_views;

verus! {

broadcast use vstd::string::group_string_axioms;

/// The driver named by the first `DRIVER=` line among `ls`.
pub open spec fn driver_in_lines(ls: Seq<Seq<char>>) -> Option<Seq<char>>
    decreases ls.len(),
{
    if ls.len() == 0 {
        None
    } else if seq_starts_with(ls[0], "DRIVER="@) {
        Some(trim(trim_start_matches(ls[0], "DRIVER="@)))
    } else {
        driver_in_lines(ls.drop_first())
    }
}

/// The driver that a kernel `uevent` file names, if it names one.
pub open spec fn uevent_driver_of(text: Seq<char>) -> Option<Seq<char>> {
    driver_in_lines(lines(text))
}

/// The kernel driver named in the text of a `uevent` file.
pub fn uevent_driver(text: &str) -> (r: Option<String>)
    ensures
        match uevent_driver_of(text@) {
            Some(d) => r matches Some(s) && s@ == d,
            None => r is None,
        },
{
    let v = chars_of(text);
    let ls = split_lines(&v);
    let prefix = chars_of("DRIVER=");
    let mut i: usize = 0;
    assert(views(ls@).skip(0) =~= views(ls@));
    while i < ls.len()
        invariant
            0 <= i <= ls@.len(),
            views(ls@) == lines(text@),
            prefix@ == "DRIVER="@,
            driver_in_lines(lines(text@)) == driver_in_lines(views(ls@).skip(i as int)),
        decreases ls@.len() - i,
    {
        let ghost rest = views(ls@).skip(i as int);
        assert(rest[0] == ls@[i as int]@);
        assert(rest.drop_first() =~= views(ls@).skip(i + 1));
        if starts_with_str(&ls[i], "DRIVER=") {
            let stripped = trim_start_matches_chars(&ls[i], &prefix);
            let t = trim_chars(&stripped);
            return Some(string_of(&t));
        }
        i += 1;
    }
    None
}

/// What `nvidia-smi --query-gpu=gpu_name,driver_version --format=csv,noheader` reports of
/// the first card: its trimmed name, and `nvidia ` followed by the trimmed driver version
/// (`nvidia` alone when no version follows); `None` when there is no line or the name is
/// empty.
pub open spec fn nvidia_smi_gpu(text: Seq<char>) -> Option<(Seq<char>, Seq<char>)> {
    let ls = lines(text);
    if ls.len() == 0 {
        None
    } else {
        let parts = split_char(ls[0], ',');
        let name = trim(parts[0]);
        let driver = if parts.len() > 1 {
            "nvidia "@ + trim(parts[1])
        } else {
            "nvidia"@
        };
        if name.len() > 0 {
            Some((name, driver))
        } else {
            None
        }
    }
}

/// The model name and driver that `nvidia-smi` reports, before they are cleaned.
pub fn parse_nvidia_smi(text: &str) -> (r: Option<(String, String)>)
    ensures
        match nvidia_smi_gpu(text@) {
            Some((n, d)) => r matches Some((rn, rd)) && rn@ == n && rd@ == d,
            None => r is None,
        },
{
    let v = chars_of(text);
    let ls = split_lines(&v);
    if ls.len() == 0 {
        return None;
    }
    assert(views(ls@)[0] == ls@[0]@);
    let parts = split_at_char(&ls[0], ',');
    proof {
        reveal_with_fuel(split_char, 2);
    }
    assert(views(parts@).len() >= 1);
    assert(views(parts@)[0] == parts@[0]@);
    let name = trim_chars(&parts[0]);
    let mut driver = String::new();
    if parts.len() > 1 {
        assert(views(parts@)[1] == parts@[1]@);
        push_str(&mut driver, "nvidia ");
        let ver = trim_chars(&parts[1]);
        let ver_s = string_of(&ver);
        push_str(&mut driver, ver_s.as_str());
    } else {
        push_str(&mut driver, "nvidia");
    }
    if name.len() > 0 {
        Some((string_of(&name), driver))
    } else {
        None
    }
}

/// Whether an `lspci` device class names a display controller.
pub open spec fn display_class(class: Seq<char>) -> bool {
    seq_contains(class, "VGA"@) || seq_contains(class, "3D"@) || seq_contains(class, "Display"@)
}

/// Whether a card from `vendor` named `device` counts as a discrete card: any NVIDIA
/// card, an AMD Radeon RX or Radeon Pro, or an Intel Arc A/B series or Battlemage.
pub open spec fn discrete_gpu(vendor: Seq<char>, device: Seq<char>) -> bool {
    ||| seq_contains(vendor, "NVIDIA"@)
    ||| seq_contains(vendor, "Advanced Micro"@) && (seq_contains(device, "RX "@) || seq_contains(
        device,
        "Radeon Pro"@,
    ))
    ||| seq_contains(vendor, "Intel"@) && (seq_contains(device, "Arc A"@) || seq_contains(
        device,
        "Arc B"@,
    ) || seq_contains(device, "Battlemage"@))
}

/// A display controller listed by `lspci -mm`.
pub struct GpuListing {
    /// The PCI slot, or empty when the first field holds no `:`.
    pub slot: String,
    /// Vendor and device name, joined by a space and trimmed.
    pub name: String,
    pub is_discrete: bool,
}

/// The abstract value of a listing: slot, name, and whether it is discrete.
pub open spec fn listing_view(g: GpuListing) -> (Seq<char>, Seq<char>, bool) {
    (g.slot@, g.name@, g.is_discrete)
}

/// The abstract values of a list of listings.
pub open spec fn listing_views(s: Seq<GpuListing>) -> Seq<(Seq<char>, Seq<char>, bool)> {
    s.map_values(|g: GpuListing| listing_view(g))
}

/// The display controller that an `lspci -mm` line lists, if it lists one: the line is
/// split at `"`, the second field is the class, the first the slot, the fourth the
/// vendor and the sixth (when there is one) the device.
pub open spec fn listing_of(line: Seq<char>) -> Option<(Seq<char>, Seq<char>, bool)> {
    let parts = split_char(line, '"');
    if parts.len() >= 4 && display_class(trim(parts[1])) {
        let slot_raw = trim(parts[0]);
        let slot = if seq_contains(slot_raw, ":"@) {
            slot_raw
        } else {
            Seq::<char>::empty()
        };
        let vendor = trim(parts[3]);
        let device = if parts.len() >= 6 {
            trim(parts[5])
        } else {
            Seq::<char>::empty()
        };
        Some((slot, trim(vendor + " "@ + device), discrete_gpu(vendor, device)))
    } else {
        None
    }
}

/// The display controllers listed among `ls`, in order.
pub open spec fn listings_in(ls: Seq<Seq<char>>) -> Seq<(Seq<char>, Seq<char>, bool)>
    decreases ls.len(),
{
    if ls.len() == 0 {
        seq![]
    } else {
        match listing_of(ls[0]) {
            Some(g) => seq![g] + listings_in(ls.drop_first()),
            None => listings_in(ls.drop_first()),
        }
    }
}

/// The display controller listed on one line of `lspci -mm` output, if any.
pub fn lspci_listing(line: &Vec<char>) -> (r: Option<GpuListing>)
    ensures
        match listing_of(line@) {
            Some(g) => r matches Some(x) && listing_view(x) == g,
            None => r is None,
        },
{
    let parts = split_at_char(line, '"');
    if parts.len() < 4 {
        return None;
    }
    assert(views(parts@)[0] == parts@[0]@);
    assert(views(parts@)[1] == parts@[1]@);
    assert(views(parts@)[3] == parts@[3]@);
    let class = trim_chars(&parts[1]);
    if !(contains_str(&class, "VGA") || contains_str(&class, "3D") || contains_str(
        &class,
        "Display",
    )) {
        return None;
    }
    let slot_raw = trim_chars(&parts[0]);
    let slot = if contains_str(&slot_raw, ":") {
        string_of(&slot_raw)
    } else {
        String::new()
    };
    let vendor = trim_chars(&parts[3]);
    let device = if parts.len() >= 6 {
        assert(views(parts@)[5] == parts@[5]@);
        trim_chars(&parts[5])
    } else {
        Vec::new()
    };
    let mut joined = vendor.clone();
    joined.push(' ');
    let mut k: usize = 0;
    while k < device.len()
        invariant
            0 <= k <= device@.len(),
            joined@ == vendor@ + seq![' '] + device@.take(k as int),
        decreases device@.len() - k,
    {
        joined.push(device[k]);
        assert(vendor@ + seq![' '] + device@.take(k + 1) =~= (vendor@ + seq![' '] + device@.take(
            k as int,
        )).push(device@[k as int]));
        k += 1;
    }
    proof {
        reveal_strlit(" ");
        assert(device@.take(device@.len() as int) =~= device@);
        assert(vendor@ + seq![' '] + device@ =~= vendor@ + " "@ + device@);
    }
    let name = string_of(&trim_chars(&joined));
    let is_discrete = contains_str(&vendor, "NVIDIA") || (contains_str(&vendor, "Advanced Micro")
        && (contains_str(&device, "RX ") || contains_str(&device, "Radeon Pro"))) || (
    contains_str(&vendor, "Intel") && (contains_str(&device, "Arc A") || contains_str(
        &device,
        "Arc B",
    ) || contains_str(&device, "Battlemage")));
    Some(GpuListing { slot, name, is_discrete })
}

/// The display controllers listed in the output of `lspci -mm`, in order.
pub fn lspci_gpu_listings(text: &str) -> (r: Vec<GpuListing>)
    ensures
        listing_views(r@) == listings_in(lines(text@)),
{
    let v = chars_of(text);
    let ls = split_lines(&v);
    let mut r: Vec<GpuListing> = Vec::new();
    let mut i: usize = 0;
    assert(views(ls@).skip(0) =~= views(ls@));
    assert(listing_views(r@) + listings_in(views(ls@)) =~= listings_in(views(ls@)));
    while i < ls.len()
        invariant
            0 <= i <= ls@.len(),
            views(ls@) == lines(text@),
            listings_in(lines(text@)) == listing_views(r@)
                + listings_in(views(ls@).skip(i as int)),
        decreases ls@.len() - i,
    {
        let ghost rest = views(ls@).skip(i as int);
        let ghost old_r = r@;
        assert(rest[0] == ls@[i as int]@);
        assert(rest.drop_first() =~= views(ls@).skip(i + 1));
        match lspci_listing(&ls[i]) {
            Some(g) => {
                let ghost gv = listing_view(g);
                r.push(g);
                assert(listing_views(r@) =~= listing_views(old_r).push(gv));
            },
            None => {},
        }
        i += 1;
    }
    assert(views(ls@).skip(ls@.len() as int) =~= Seq::<Seq<char>>::empty());
    assert(listing_views(r@) + Seq::<(Seq<char>, Seq<char>, bool)>::empty() =~= listing_views(
        r@,
    ));
    r
}


/// The two `uevent` files that may describe the PCI device in `slot`: under the
/// `0000:` domain, and under the slot name as given.
pub open spec fn pci_uevent_paths_of(slot: Seq<char>) -> (Seq<char>, Seq<char>) {
    (
        "/sys/bus/pci/devices/0000:"@ + slot + "/uevent"@,
        "/sys/bus/pci/devices/"@ + slot + "/uevent"@,
    )
}

/// The paths of the `uevent` files to read for the PCI device in `slot`, the first one
/// first.
pub fn pci_uevent_paths(slot: &str) -> (r: (String, String))
    ensures
        (r.0@, r.1@) == pci_uevent_paths_of(slot@),
{
    let mut a = String::new();
    push_str(&mut a, "/sys/bus/pci/devices/0000:");
    push_str(&mut a, slot);
    push_str(&mut a, "/uevent");
    let mut b = String::new();
    push_str(&mut b, "/sys/bus/pci/devices/");
    push_str(&mut b, slot);
    push_str(&mut b, "/uevent");
    (a, b)
}

/// A graphics card found by `lspci`, with the driver its `uevent` file names.
pub struct GpuCandidate {
    pub name: String,
    pub driver: String,
    pub is_discrete: bool,
}

/// The driver of a card whose `uevent` file read as `uevent` (`None` when neither file
/// could be read): the one it names, else `drm`.
pub open spec fn candidate_driver(uevent: Option<Seq<char>>) -> Seq<char> {
    match uevent {
        Some(t) => match uevent_driver_of(t) {
            Some(d) => d,
            None => "drm"@,
        },
        None => "drm"@,
    }
}

/// The candidate for a listed card, given what its `uevent` file held.
pub fn gpu_candidate(listing: GpuListing, uevent: Option<&str>) -> (r: GpuCandidate)
    ensures
        r.name@ == listing.name@,
        r.is_discrete == listing.is_discrete,
        r.driver@ == candidate_driver(
            match uevent {
                Some(t) => Some(t@),
                None => None,
            },
        ),
{
    let driver = match uevent {
        Some(t) => match uevent_driver(t) {
            Some(d) => d,
            None => "drm".to_owned(),
        },
        None => "drm".to_owned(),
    };
    GpuCandidate { name: listing.name, driver, is_discrete: listing.is_discrete }
}

/// Which candidate is reported: the first discrete card, else the first card.
pub fn pick_gpu(cands: &[GpuCandidate]) -> (r: Option<usize>)
    ensures
        r is None <==> cands@.len() == 0,
        r matches Some(i) ==> i < cands@.len() && ({
            ||| cands@[i as int].is_discrete && forall|j: int|
                0 <= j < i ==> !(#[trigger] cands@[j]).is_discrete
            ||| i == 0 && forall|j: int| 0 <= j < cands@.len() ==> !(#[trigger] cands@[j]).is_discrete
        }),
{
    let mut i: usize = 0;
    while i < cands.len()
        invariant
            0 <= i <= cands@.len(),
            forall|j: int| 0 <= j < i ==> !(#[trigger] cands@[j]).is_discrete,
        decreases cands@.len() - i,
    {
        if cands[i].is_discrete {
            return Some(i);
        }
        i += 1;
    }
    if cands.len() > 0 {
        Some(0)
    } else {
        None
    }
}

/// Cleans the reported model name (to 55 bytes) and driver (to 30 bytes).
pub fn clean_gpu_names(name: &str, driver: &str) -> (r: (String, String))
    requires
        clean_fits(name@, 55),
        clean_fits(driver@, 30),
    ensures
        is_clean_result(name@, 55, r.0@),
        is_clean_result(driver@, 30, r.1@),
{
    (clean_string(name, 55), clean_string(driver, 30))
}

/// The name reported when no card could be identified, with the driver found under
/// `/sys/class/drm`.
pub fn fallback_gpu(driver: String) -> (r: (String, String))
    ensures
        r.0@ == "Generic GPU"@,
        r.1 == driver,
{
    ("Generic GPU".to_owned(), driver)
}

/// The number of DRM cards (`card0` onwards) looked at when no card was identified.
pub const DRM_CARDS: u32 = 5;

/// The `uevent` file of DRM card number `card`.
pub open spec fn drm_uevent_path_of(card: nat) -> Seq<char> {
    "/sys/class/drm/card"@ + decimal(card) + "/device/uevent"@
}

/// The path of the `uevent` file of DRM card number `card`.
pub fn drm_uevent_path(card: u32) -> (r: String)
    ensures
        r@ == drm_uevent_path_of(card as nat),
{
    let mut r = String::new();
    push_str(&mut r, "/sys/class/drm/card");
    push_decimal(&mut r, card as u128);
    push_str(&mut r, "/device/uevent");
    r
}

/// One step of the DRM fallback: the driver known so far is replaced by the one the next
/// card's `uevent` file names, if it could be read and names one; the search stops once
/// the driver is something other than `drm`.
pub open spec fn drm_step(driver: Seq<char>, content: Option<Seq<char>>) -> (Seq<char>, bool) {
    match content {
        None => (driver, false),
        Some(t) => {
            let d = match uevent_driver_of(t) {
                Some(x) => x,
                None => driver,
            };
            (d, d != "drm"@)
        },
    }
}

/// The driver after looking at the next DRM card, and whether the search is over.
pub fn drm_fallback_step(driver: &str, content: Option<&str>) -> (r: (String, bool))
    ensures
        (r.0@, r.1) == drm_step(
            driver@,
            match content {
                Some(t) => Some(t@),
                None => None,
            },
        ),
{
    match content {
        None => (driver.to_owned(), false),
        Some(t) => {
            let d = match uevent_driver(t) {
                Some(x) => x,
                None => driver.to_owned(),
            };
            let dv = chars_of(d.as_str());
            let is_drm = crate::text::eq_str(&dv, "drm");
            (d, !is_drm)
        },
    }
}


// ---------------------------------------------------------------- Probing, step by step

/// A program to run, with its arguments and the most bytes of its output kept.
pub struct CommandRequest {
    pub program: String,
    pub args: Vec<String>,
    pub output_limit: usize,
}

/// Whether `r` runs `program` with `args`, keeping at most `limit` bytes of output.
pub open spec fn is_command(r: CommandRequest, program: Seq<char>, args: Seq<Seq<char>>, limit: usize) -> bool {
    r.program@ == program && string_views(r.args@) == args && r.output_limit == limit
}

/// `nvidia-smi` asked for the name and driver version of each card, as CSV.
pub open spec fn is_nvidia_smi_request(r: CommandRequest) -> bool {
    is_command(
        r,
        "/usr/bin/nvidia-smi"@,
        seq!["--query-gpu=gpu_name,driver_version"@, "--format=csv,noheader"@],
        4096,
    )
}

/// `lspci -mm`.
pub open spec fn is_lspci_request(r: CommandRequest) -> bool {
    is_command(r, "/usr/bin/lspci"@, seq!["-mm"@], 65536)
}

/// What the probe asks the caller to do.
pub enum GpuAction {
    /// Run this command and report its output (`None` when it failed).
    Run(CommandRequest),
    /// Read this file and report its contents (`None` when it could not be read).
    ReadFile(String),
    /// The card is identified: report its name and driver cleaned to 55 and 30 bytes.
    CleanAndReport { name: String, driver: String },
    /// No card was identified: report this name and driver as they are.
    Report { name: String, driver: String },
    /// The probe is over.
    Finished,
}

/// Where the probe stands.
pub enum GpuPhase {
    /// Waiting for the output of `nvidia-smi`.
    AwaitNvidia,
    /// Waiting for the output of `lspci -mm`.
    AwaitLspci,
    /// Reading the `uevent` files of the listed cards, one after another: of card `next`,
    /// the one under the `0000:` domain first and, when that cannot be read, the
    /// `alternate` one.
    PciUevent {
        listings: Vec<GpuListing>,
        next: usize,
        alternate: bool,
        candidates: Vec<GpuCandidate>,
    },
    /// Reading the `uevent` file of DRM card `card`, with the driver found so far.
    Drm { card: u32, driver: String },
    Done,
}

/// The graphics-card probe: `nvidia-smi` first, then the display controllers `lspci`
/// lists, then the drivers of the DRM cards.
pub struct GpuProbe {
    pub phase: GpuPhase,
}

/// The abstract value of a candidate.
pub open spec fn candidate_view(c: GpuCandidate) -> (Seq<char>, Seq<char>, bool) {
    (c.name@, c.driver@, c.is_discrete)
}

/// The abstract values of a list of candidates.
pub open spec fn candidate_views(s: Seq<GpuCandidate>) -> Seq<(Seq<char>, Seq<char>, bool)> {
    s.map_values(|c: GpuCandidate| candidate_view(c))
}

/// Whether `i` is the candidate reported: the first discrete card, else the first card.
pub open spec fn is_pick(cs: Seq<(Seq<char>, Seq<char>, bool)>, i: int) -> bool {
    &&& 0 <= i < cs.len()
    &&& {
        ||| cs[i].2 && forall|j: int| 0 <= j < i ==> !(#[trigger] cs[j]).2
        ||| i == 0 && forall|j: int| 0 <= j < cs.len() ==> !(#[trigger] cs[j]).2
    }
}

/// The phases the probe can be in: while reading `uevent` files there is a card left to
/// read, and a candidate for each card read so far.
pub open spec fn gpu_phase_ok(p: GpuPhase) -> bool {
    match p {
        GpuPhase::PciUevent { listings, next, candidates, .. } => next < listings@.len()
            && candidates@.len() == next,
        GpuPhase::Drm { card, .. } => card < DRM_CARDS,
        _ => true,
    }
}

/// What `nvidia-smi` reported, given its output.
pub open spec fn nvidia_result(o: Option<Seq<char>>) -> Option<(Seq<char>, Seq<char>)> {
    match o {
        Some(t) => nvidia_smi_gpu(t),
        None => None,
    }
}

/// The display controllers `lspci -mm` listed, given its output.
pub open spec fn lspci_result(o: Option<Seq<char>>) -> Seq<(Seq<char>, Seq<char>, bool)> {
    match o {
        Some(t) => listings_in(lines(t)),
        None => seq![],
    }
}

/// One step of the probe: the next phase `new` and action `a` after the last action had
/// the outcome `o`.
///
/// A card named by `nvidia-smi` is reported. Otherwise the cards `lspci` lists are looked
/// at in order: each `uevent` file is read (the alternate one when the first cannot be),
/// and once all are read, the first discrete card, else the first card, is reported with
/// its driver. When `lspci` lists none, the `uevent` files of DRM cards 0 to 4 are read
/// until one names a driver other than `drm`, and `Generic GPU` is reported with the
/// driver found.
pub open spec fn gpu_next(old: GpuPhase, o: Option<Seq<char>>, new: GpuPhase, a: GpuAction) -> bool {
    match old {
        GpuPhase::AwaitNvidia => match nvidia_result(o) {
            Some((n, d)) => new is Done && (a matches GpuAction::CleanAndReport { name, driver }
                && name@ == n && driver@ == d),
            None => new is AwaitLspci && (a matches GpuAction::Run(r) && is_lspci_request(r)),
        },
        GpuPhase::AwaitLspci => {
            let ls = lspci_result(o);
            if ls.len() == 0 {
                &&& new matches GpuPhase::Drm { card, driver } && card == 0 && driver@ == "drm"@
                &&& a matches GpuAction::ReadFile(p) && p@ == drm_uevent_path_of(0)
            } else {
                &&& new matches GpuPhase::PciUevent { listings, next, alternate, candidates }
                    && listing_views(listings@) == ls && next == 0 && !alternate
                    && candidates@.len() == 0
                &&& a matches GpuAction::ReadFile(p) && p@ == pci_uevent_paths_of(ls[0].0).0
            }
        },
        GpuPhase::PciUevent { listings, next, alternate, candidates } => {
            let lv = listing_views(listings@);
            if o is None && !alternate {
                &&& new matches GpuPhase::PciUevent {
                    listings: l2,
                    next: n2,
                    alternate: a2,
                    candidates: c2,
                } && listing_views(l2@) == lv && n2 == next && a2 && candidate_views(c2@)
                    == candidate_views(candidates@)
                &&& a matches GpuAction::ReadFile(p) && p@ == pci_uevent_paths_of(lv[next as int].0).1
            } else {
                let cs = candidate_views(candidates@).push(
                    (lv[next as int].1, candidate_driver(o), lv[next as int].2),
                );
                if next + 1 < lv.len() {
                    &&& new matches GpuPhase::PciUevent {
                        listings: l2,
                        next: n2,
                        alternate: a2,
                        candidates: c2,
                    } && listing_views(l2@) == lv && n2 == next + 1 && !a2 && candidate_views(c2@)
                        == cs
                    &&& a matches GpuAction::ReadFile(p) && p@ == pci_uevent_paths_of(
                        lv[next + 1].0,
                    ).0
                } else {
                    &&& new is Done
                    &&& a matches GpuAction::CleanAndReport { name, driver } && exists|i: int|
                        is_pick(cs, i) && name@ == cs[i].0 && driver@ == cs[i].1
                }
            }
        },
        GpuPhase::Drm { card, driver } => {
            let (d, stop) = drm_step(driver@, o);
            if stop || card + 1 >= DRM_CARDS {
                new is Done && (a matches GpuAction::Report { name, driver: dr } && name@
                    == "Generic GPU"@ && dr@ == d)
            } else {
                &&& new matches GpuPhase::Drm { card: c2, driver: d2 } && c2 == card + 1 && d2@ == d
                &&& a matches GpuAction::ReadFile(p) && p@ == drm_uevent_path_of((card + 1) as nat)
            }
        },
        GpuPhase::Done => new is Done && a is Finished,
    }
}

fn command(program: &str, args: Vec<String>, output_limit: usize) -> (r: CommandRequest)
    ensures
        r.program@ == program@,
        r.args == args,
        r.output_limit == output_limit,
{
    CommandRequest { program: program.to_owned(), args, output_limit }
}

fn driver_from(uevent: Option<&str>) -> (r: String)
    ensures
        r@ == candidate_driver(
            match uevent {
                Some(t) => Some(t@),
                None => None,
            },
        ),
{
    match uevent {
        Some(t) => match uevent_driver(t) {
            Some(d) => d,
            None => "drm".to_owned(),
        },
        None => "drm".to_owned(),
    }
}

impl GpuProbe {
    /// Starts probing: `nvidia-smi` is run first.
    pub fn start() -> (r: (GpuProbe, GpuAction))
        ensures
            r.0.phase is AwaitNvidia,
            r.1 matches GpuAction::Run(req) && is_nvidia_smi_request(req),
    {
        let mut args: Vec<String> = Vec::new();
        args.push("--query-gpu=gpu_name,driver_version".to_owned());
        args.push("--format=csv,noheader".to_owned());
        let req = command("/usr/bin/nvidia-smi", args, 4096);
        assert(string_views(req.args@) =~= seq![
            "--query-gpu=gpu_name,driver_version"@,
            "--format=csv,noheader"@,
        ]);
        (GpuProbe { phase: GpuPhase::AwaitNvidia }, GpuAction::Run(req))
    }

    /// Takes the outcome of the last action (a command's output or a file's contents,
    /// `None` when it failed) and says what to do next.
    pub fn step(&mut self, outcome: Option<String>) -> (a: GpuAction)
        requires
            gpu_phase_ok(old(self).phase),
        ensures
            gpu_phase_ok(final(self).phase),
            gpu_next(
                old(self).phase,
                match outcome {
                    Some(t) => Some(t@),
                    None => None,
                },
                final(self).phase,
                a,
            ),
    {
        let o: Option<&str> = match &outcome {
            Some(t) => Some(t.as_str()),
            None => None,
        };
        let mut phase = GpuPhase::Done;
        std::mem::swap(&mut phase, &mut self.phase);
        match phase {
            GpuPhase::AwaitNvidia => {
                let found = match o {
                    Some(t) => parse_nvidia_smi(t),
                    None => None,
                };
                match found {
                    Some((name, driver)) => GpuAction::CleanAndReport { name, driver },
                    None => {
                        self.phase = GpuPhase::AwaitLspci;
                        let mut args: Vec<String> = Vec::new();
                        args.push("-mm".to_owned());
                        let req = command("/usr/bin/lspci", args, 65536);
                        assert(string_views(req.args@) =~= seq!["-mm"@]);
                        GpuAction::Run(req)
                    },
                }
            },
            GpuPhase::AwaitLspci => {
                let listings = match o {
                    Some(t) => lspci_gpu_listings(t),
                    None => {
                        let v: Vec<GpuListing> = Vec::new();
                        assert(listing_views(v@) =~= Seq::<(Seq<char>, Seq<char>, bool)>::empty());
                        v
                    },
                };
                if listings.len() == 0 {
                    self.phase = GpuPhase::Drm { card: 0, driver: "drm".to_owned() };
                    GpuAction::ReadFile(drm_uevent_path(0))
                } else {
                    assert(listing_views(listings@)[0] == listing_view(listings@[0]));
                    let (primary, _) = pci_uevent_paths(listings[0].slot.as_str());
                    self.phase = GpuPhase::PciUevent {
                        listings,
                        next: 0,
                        alternate: false,
                        candidates: Vec::new(),
                    };
                    GpuAction::ReadFile(primary)
                }
            },
            GpuPhase::PciUevent { listings, next, alternate, mut candidates } => {
                let count = listings.len();
                assert(next < count);
                assert(listing_views(listings@)[next as int] == listing_view(listings@[next as int]));
                if o.is_none() && !alternate {
                    let (_, alt) = pci_uevent_paths(listings[next].slot.as_str());
                    self.phase = GpuPhase::PciUevent { listings, next, alternate: true, candidates };
                    return GpuAction::ReadFile(alt);
                }
                let ghost old_c = candidates@;
                let c = GpuCandidate {
                    name: listings[next].name.clone(),
                    driver: driver_from(o),
                    is_discrete: listings[next].is_discrete,
                };
                candidates.push(c);
                assert(candidate_views(candidates@) =~= candidate_views(old_c).push(
                    candidate_view(c),
                ));
                if next + 1 < count {
                    assert(listing_views(listings@)[next + 1] == listing_view(
                        listings@[next + 1],
                    ));
                    let (primary, _) = pci_uevent_paths(listings[next + 1].slot.as_str());
                    self.phase = GpuPhase::PciUevent {
                        listings,
                        next: next + 1,
                        alternate: false,
                        candidates,
                    };
                    GpuAction::ReadFile(primary)
                } else {
                    let i = match pick_gpu(candidates.as_slice()) {
                        Some(i) => i,
                        None => 0,
                    };
                    let ghost cs = candidate_views(candidates@);
                    proof {
                        assert forall|j: int| 0 <= j < cs.len() implies (#[trigger] cs[j]).2
                            == candidates@[j].is_discrete by {}
                        assert(is_pick(cs, i as int));
                    }
                    let name = candidates[i].name.clone();
                    let driver = candidates[i].driver.clone();
                    GpuAction::CleanAndReport { name, driver }
                }
            },
            GpuPhase::Drm { card, driver } => {
                let (d, stop) = drm_fallback_step(driver.as_str(), o);
                if stop || card + 1 >= DRM_CARDS {
                    GpuAction::Report { name: "Generic GPU".to_owned(), driver: d }
                } else {
                    self.phase = GpuPhase::Drm { card: card + 1, driver: d };
                    GpuAction::ReadFile(drm_uevent_path(card + 1))
                }
            },
            GpuPhase::Done => GpuAction::Finished,
        }
    }
}


/// Which lines of `lspci -mm` output list a display controller, and what is taken from
/// them. The line is split at `"`; it lists one when it has at least four fields and the
/// second (the class, trimmed) contains `VGA`, `3D` or `Display`. The slot is the first
/// field when it holds a `:` (else empty), the name is the vendor (fourth field) and
/// device (sixth field, if any) joined by a space, and the card counts as discrete exactly
/// when the vendor is NVIDIA, or AMD with an `RX ` or `Radeon Pro` device, or Intel with an
/// `Arc A`, `Arc B` or `Battlemage` device.
pub proof fn law_lspci_listing(line: Seq<char>)
    ensures
        ({
            let parts = split_char(line, '"');
            let class = trim(parts[1]);
            let listed = parts.len() >= 4 && (seq_contains(class, "VGA"@) || seq_contains(
                class,
                "3D"@,
            ) || seq_contains(class, "Display"@));
            let slot = trim(parts[0]);
            let vendor = trim(parts[3]);
            let device = if parts.len() >= 6 {
                trim(parts[5])
            } else {
                Seq::<char>::empty()
            };
            let g = listing_of(line)->0;
            &&& listing_of(line) is Some <==> listed
            &&& listed ==> (seq_contains(slot, ":"@) ==> g.0 == slot)
            &&& listed ==> (!seq_contains(slot, ":"@) ==> g.0.len() == 0)
            &&& listed ==> g.1 == trim(vendor + " "@ + device)
            &&& listed ==> (seq_contains(vendor, "NVIDIA"@) ==> g.2)
            &&& listed ==> (seq_contains(vendor, "Advanced Micro"@) && (seq_contains(device, "RX "@)
                || seq_contains(device, "Radeon Pro"@)) ==> g.2)
            &&& listed ==> (seq_contains(vendor, "Intel"@) && (seq_contains(device, "Arc A"@)
                || seq_contains(device, "Arc B"@) || seq_contains(device, "Battlemage"@)) ==> g.2)
            &&& listed ==> (g.2 ==> (seq_contains(vendor, "NVIDIA"@) || (seq_contains(
                vendor,
                "Advanced Micro"@,
            ) && (seq_contains(device, "RX "@) || seq_contains(device, "Radeon Pro"@))) || (
            seq_contains(vendor, "Intel"@) && (seq_contains(device, "Arc A"@) || seq_contains(
                device,
                "Arc B"@,
            ) || seq_contains(device, "Battlemage"@)))))
        }),
{
}


/// A `uevent` file names the driver of its first `DRIVER=` line, the prefix removed and
/// the value trimmed; a card whose file names none (or cannot be read) has the driver
/// `drm`.
pub proof fn law_uevent_driver(ls: Seq<Seq<char>>, o: Option<Seq<char>>)
    ensures
        ls.len() == 0 ==> driver_in_lines(ls) is None,
        ls.len() > 0 && seq_starts_with(ls[0], "DRIVER="@) ==> driver_in_lines(ls) == Some(
            trim(trim_start_matches(ls[0], "DRIVER="@)),
        ),
        ls.len() > 0 && !seq_starts_with(ls[0], "DRIVER="@) ==> driver_in_lines(ls)
            == driver_in_lines(ls.drop_first()),
        o is None ==> candidate_driver(o) == "drm"@,
        o matches Some(t) ==> (uevent_driver_of(t) matches Some(d) ==> candidate_driver(o) == d),
        o matches Some(t) ==> (uevent_driver_of(t) is None ==> candidate_driver(o) == "drm"@),
{
}

/// `nvidia-smi` reports the card of its first line: the trimmed text before the first
/// comma is the name, and the driver is `nvidia ` followed by the trimmed text between the
/// first and second comma (`nvidia` alone without a comma); an empty name or no line at
/// all reports no card.
pub proof fn law_nvidia_smi(text: Seq<char>)
    ensures
        lines(text).len() == 0 ==> nvidia_smi_gpu(text) is None,
        lines(text).len() > 0 ==> ({
            let parts = split_char(lines(text)[0], ',');
            &&& trim(parts[0]).len() == 0 ==> nvidia_smi_gpu(text) is None
            &&& trim(parts[0]).len() > 0 && parts.len() > 1 ==> nvidia_smi_gpu(text) == Some(
                (trim(parts[0]), "nvidia "@ + trim(parts[1])),
            )
            &&& trim(parts[0]).len() > 0 && parts.len() <= 1 ==> nvidia_smi_gpu(text) == Some(
                (trim(parts[0]), "nvidia"@),
            )
        }),
{
}

/// The DRM fallback keeps the driver when a card's file cannot be read or names none,
/// takes the one named otherwise, and stops once the driver is anything but `drm`.
pub proof fn law_drm_step(driver: Seq<char>, o: Option<Seq<char>>)
    ensures
        o is None ==> drm_step(driver, o) == (driver, false),
        o matches Some(t) ==> (uevent_driver_of(t) matches Some(d) ==> drm_step(driver, o) == (
            d,
            d != "drm"@,
        )),
        o matches Some(t) ==> (uevent_driver_of(t) is None ==> drm_step(driver, o) == (
            driver,
            driver != "drm"@,
        )),
{
}

}
