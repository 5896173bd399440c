//! What `/proc/cpuinfo`, `/proc/meminfo`, `/etc/os-release` and `/sys/block` tell of the
//! machine.
use vstd::prelude::*;
use crate::text::{
    chars_of, string_of, string_of_range, trim_chars, eq_str, starts_with_str, ends_with_str,
    push_str, clean_string, clean_string_fits, clean_fits, cleaned, trim, seq_starts_with,
    seq_ends_with, opt_view,
};
use crate::fields::{
    lines, split_lines, views, first_index_of, words, split_words, parse_unsigned, parse_u64,
    parse_usize, trim_start_matches, trim_start_matches_chars, trim_char, trim_char_chars,
};

verus! {

broadcast use vstd::string::group_string_axioms;

/// The views of a list of strings.
pub open spec fn string_views(v: Seq<String>) -> Seq<Seq<char>> {
    v.map_values(|s: String| s@)
}

// ---------------------------------------------------------------- Processor

/// A `key: value` line split at its first `:`, both sides trimmed; `None` when the line
/// has no `:`.
pub open spec fn key_value(line: Seq<char>) -> Option<(Seq<char>, Seq<char>)> {
    let i = first_index_of(line, ':');
    if i < line.len() {
        Some((trim(line.take(i)), trim(line.skip(i + 1))))
    } else {
        None
    }
}

/// The split of one line at its first `:`.
pub fn split_key_value(line: &[char]) -> (r: Option<(Vec<char>, Vec<char>)>)
    ensures
        match key_value(line@) {
            Some((k, v)) => r matches Some((rk, rv)) && rk@ == k && rv@ == v,
            None => r is None,
        },
{
    let n = line.len();
    let mut i: usize = 0;
    while i < n && line[i] != ':'
        invariant
            n == line@.len(),
            0 <= i <= n,
            forall|m: int| 0 <= m < i ==> line@[m] != ':',
        decreases n - i,
    {
        i += 1;
    }
    proof {
        crate::fields::lemma_first_index_of_is(line@, ':', i as int);
    }
    if i == n {
        return None;
    }
    let k = string_of_range(line, 0, i);
    let v = string_of_range(line, i + 1, n);
    assert(line@.subrange(0, i as int) =~= line@.take(i as int));
    assert(line@.subrange(i + 1, n as int) =~= line@.skip(i + 1));
    Some((trim_chars(&chars_of(k.as_str())), trim_chars(&chars_of(v.as_str()))))
}

/// What has been read of `/proc/cpuinfo` so far: the model name (`Generic CPU` until one
/// is read), the number of `processor` lines, the first `cpu cores` value (0 until one
/// is read, or when it does not read as a number), and the `cpu MHz` values in order.
pub type CpuScan = (Seq<char>, nat, usize, Seq<Seq<char>>);

/// Nothing read yet.
pub open spec fn cpu_start() -> CpuScan {
    ("Generic CPU"@, 0, 0, seq![])
}

/// The effect of one line of `/proc/cpuinfo`. The first `model name` is kept, cleaned to
/// 50 bytes (a later one replaces it only while the name still reads `Generic CPU`).
pub open spec fn cpu_line(st: CpuScan, line: Seq<char>) -> CpuScan {
    match key_value(line) {
        Some((k, v)) => if k == "model name"@ && st.0 == "Generic CPU"@ {
            (cleaned(v, 50), st.1, st.2, st.3)
        } else if k == "processor"@ {
            (st.0, st.1 + 1, st.2, st.3)
        } else if k == "cpu cores"@ && st.2 == 0 {
            (
                st.0,
                st.1,
                match parse_unsigned(v, usize::MAX as nat) {
                    Some(n) => n as usize,
                    None => 0,
                },
                st.3,
            )
        } else if k == "cpu MHz"@ {
            (st.0, st.1, st.2, st.3.push(v))
        } else {
            st
        },
        None => st,
    }
}

/// Whether the line can be taken without cleaning a model name that cannot be cut.
pub open spec fn cpu_line_fits(st: CpuScan, line: Seq<char>) -> bool {
    match key_value(line) {
        Some((k, v)) => (k == "model name"@ && st.0 == "Generic CPU"@) ==> clean_fits(v, 50),
        None => true,
    }
}

/// The lines taken in order.
pub open spec fn cpu_lines(st: CpuScan, ls: Seq<Seq<char>>) -> CpuScan
    decreases ls.len(),
{
    if ls.len() == 0 {
        st
    } else {
        cpu_lines(cpu_line(st, ls[0]), ls.drop_first())
    }
}

/// Whether every line can be taken.
pub open spec fn cpu_lines_fit(st: CpuScan, ls: Seq<Seq<char>>) -> bool
    decreases ls.len(),
{
    if ls.len() == 0 {
        true
    } else {
        cpu_line_fits(st, ls[0]) && cpu_lines_fit(cpu_line(st, ls[0]), ls.drop_first())
    }
}

/// The processor as `/proc/cpuinfo` describes it (`None` when it could not be read): the
/// model name, the cores (the threads when no core count was read, and at least 1), the
/// threads (the cores when no `processor` line was read), and the `cpu MHz` values.
pub open spec fn cpu_facts_of(text: Option<Seq<char>>) -> (Seq<char>, nat, nat, Seq<Seq<char>>) {
    let st = match text {
        Some(t) => cpu_lines(cpu_start(), lines(t)),
        None => cpu_start(),
    };
    let cores: nat = if st.2 == 0 {
        if st.1 > 0 {
            st.1
        } else {
            1
        }
    } else {
        st.2 as nat
    };
    let threads: nat = if st.1 == 0 {
        cores
    } else {
        st.1
    };
    (st.0, cores, threads, st.3)
}

/// Whether `/proc/cpuinfo` can be taken (every model name that is cleaned can be cut).
pub open spec fn cpuinfo_fits(text: Option<Seq<char>>) -> bool {
    match text {
        Some(t) => cpu_lines_fit(cpu_start(), lines(t)),
        None => true,
    }
}

/// The processor facts read from `/proc/cpuinfo`.
pub struct CpuFacts {
    pub name: String,
    pub cores: usize,
    pub threads: usize,
    /// The text of each `cpu MHz` value, in order; the highest of them that reads as a
    /// number is the clock.
    pub mhz_values: Vec<String>,
}

fn cpu_scan(t: &str) -> (r: (bool, CpuFacts))
    ensures
        r.0 == cpu_lines_fit(cpu_start(), lines(t@)),
        r.0 ==> ({
            let st = cpu_lines(cpu_start(), lines(t@));
            &&& r.1.name@ == st.0
            &&& r.1.threads == st.1
            &&& r.1.cores == st.2
            &&& string_views(r.1.mhz_values@) == st.3
        }),
{
    let v = chars_of(t);
    let ls = split_lines(&v);
    let mut name = "Generic CPU".to_owned();
    let mut threads: usize = 0;
    let mut cores: usize = 0;
    let mut mhz: Vec<String> = Vec::new();
    let mut fits = true;
    let mut i: usize = 0;
    assert(views(ls@).skip(0) =~= views(ls@));
    assert(string_views(mhz@) =~= Seq::<Seq<char>>::empty());
    while i < ls.len()
        invariant
            0 <= i <= ls@.len(),
            views(ls@) == lines(t@),
            threads <= i,
            fits ==> (cpu_lines(cpu_start(), lines(t@)) == cpu_lines(
                (name@, threads as nat, cores, string_views(mhz@)),
                views(ls@).skip(i as int),
            ) && cpu_lines_fit(cpu_start(), lines(t@)) == cpu_lines_fit(
                (name@, threads as nat, cores, string_views(mhz@)),
                views(ls@).skip(i as int),
            )),
            !fits ==> !cpu_lines_fit(cpu_start(), lines(t@)),
        decreases ls@.len() - i,
    {
        let ghost st = (name@, threads as nat, cores, string_views(mhz@));
        let ghost rest = views(ls@).skip(i as int);
        assert(rest[0] == ls@[i as int]@);
        assert(rest.drop_first() =~= views(ls@).skip(i + 1));
        if fits {
            if let Some((k, val)) = split_key_value(&ls[i]) {
                if eq_str(&k, "model name") && eq_str(&chars_of(name.as_str()), "Generic CPU") {
                    let vs = string_of(&val);
                    if clean_string_fits(vs.as_str(), 50) {
                        name = clean_string(vs.as_str(), 50);
                    } else {
                        fits = false;
                    }
                } else if eq_str(&k, "processor") {
                    threads = threads + 1;
                } else if eq_str(&k, "cpu cores") && cores == 0 {
                    cores = match parse_usize(&val) {
                        Some(n) => n,
                        None => 0,
                    };
                } else if eq_str(&k, "cpu MHz") {
                    let ghost old_mhz = mhz@;
                    mhz.push(string_of(&val));
                    assert(string_views(mhz@) =~= string_views(old_mhz).push(val@));
                }
            }
        }
        i += 1;
    }
    assert(views(ls@).skip(ls@.len() as int) =~= Seq::<Seq<char>>::empty());
    (fits, CpuFacts { name, cores, threads, mhz_values: mhz })
}

/// Whether `cpu_facts` can take the contents of `/proc/cpuinfo`.
pub fn cpuinfo_fits_check(text: Option<&str>) -> (b: bool)
    ensures
        b == cpuinfo_fits(opt_view(text)),
{
    match text {
        Some(t) => cpu_scan(t).0,
        None => true,
    }
}

/// The processor facts in the contents of `/proc/cpuinfo` (`None` when it could not be
/// read).
pub fn cpu_facts(text: Option<&str>) -> (r: CpuFacts)
    requires
        cpuinfo_fits(opt_view(text)),
    ensures
        (r.name@, r.cores as nat, r.threads as nat, string_views(r.mhz_values@)) == cpu_facts_of(
            opt_view(text),
        ),
        r.cores >= 1,
        r.threads >= 1,
{
    let mut f = match text {
        Some(t) => cpu_scan(t).1,
        None => {
            let f = CpuFacts { name: "Generic CPU".to_owned(), cores: 0, threads: 0, mhz_values: Vec::new() };
            assert(string_views(f.mhz_values@) =~= Seq::<Seq<char>>::empty());
            f
        },
    };
    if f.cores == 0 {
        f.cores = if f.threads > 0 {
            f.threads
        } else {
            1
        };
    }
    if f.threads == 0 {
        f.threads = f.cores;
    }
    f
}


// ---------------------------------------------------------------- Memory size

/// The `MemTotal` value in kB: the second word of the first `MemTotal:` line that has
/// two words, 0 when it does not read as a number or there is no such line.
pub open spec fn mem_total_kb_in(ls: Seq<Seq<char>>) -> u64
    decreases ls.len(),
{
    if ls.len() == 0 {
        0
    } else if seq_starts_with(ls[0], "MemTotal:"@) && words(ls[0]).len() >= 2 {
        match parse_unsigned(words(ls[0])[1], u64::MAX as nat) {
            Some(n) => n as u64,
            None => 0,
        }
    } else {
        mem_total_kb_in(ls.drop_first())
    }
}

/// The memory size in kB that the contents of `/proc/meminfo` give (`None` when it could
/// not be read).
pub open spec fn mem_total_kb_of(text: Option<Seq<char>>) -> u64 {
    match text {
        Some(t) => mem_total_kb_in(lines(t)),
        None => 0,
    }
}

/// The memory size in kB in the contents of `/proc/meminfo`.
pub fn mem_total_kb(text: Option<&str>) -> (r: u64)
    ensures
        r == mem_total_kb_of(opt_view(text)),
{
    let t = match text {
        Some(t) => t,
        None => {
            return 0;
        },
    };
    let v = chars_of(t);
    let ls = split_lines(&v);
    let mut i: usize = 0;
    assert(views(ls@).skip(0) =~= views(ls@));
    while i < ls.len()
        invariant
            0 <= i <= ls@.len(),
            views(ls@) == lines(t@),
            opt_view(text) == Some(t@),
            mem_total_kb_in(lines(t@)) == mem_total_kb_in(views(ls@).skip(i as int)),
        decreases ls@.len() - i,
    {
        assert(views(ls@).skip(i as int)[0] == ls@[i as int]@);
        assert(views(ls@).skip(i as int).drop_first() =~= views(ls@).skip(i + 1));
        if starts_with_str(&ls[i], "MemTotal:") {
            let ws = split_words(&ls[i]);
            if ws.len() >= 2 {
                assert(views(ws@)[1] == ws@[1]@);
                return match parse_u64(&ws[1]) {
                    Some(n) => n,
                    None => 0,
                };
            }
        }
        i += 1;
    }
    0
}

/// The memory size in MiB (whole MiB, rounded down) and in tenths of a GiB (rounded
/// half up) for `kb` kB.
pub open spec fn ram_sizes_of(kb: u64) -> (u64, u64) {
    let mb = kb / 1024;
    (mb, ((mb * 10 + 512) / 1024) as u64)
}

/// The memory size in MiB and in tenths of a GiB.
pub fn ram_sizes(kb: u64) -> (r: (u64, u64))
    ensures
        r == ram_sizes_of(kb),
{
    let mb = kb / 1024;
    (mb, (mb * 10 + 512) / 1024)
}

// ---------------------------------------------------------------- Distribution

/// The value of the first `PRETTY_NAME=` line, with that prefix (repeated) removed and
/// double quotes removed from both ends.
pub open spec fn pretty_name_in(ls: Seq<Seq<char>>) -> Option<Seq<char>>
    decreases ls.len(),
{
    if ls.len() == 0 {
        None
    } else if seq_starts_with(ls[0], "PRETTY_NAME="@) {
        Some(trim_char(trim_start_matches(ls[0], "PRETTY_NAME="@), '"'))
    } else {
        pretty_name_in(ls.drop_first())
    }
}

/// The `PRETTY_NAME` in the contents of `/etc/os-release` (`None` when it could not be
/// read or names none).
pub open spec fn pretty_name_of(text: Option<Seq<char>>) -> Option<Seq<char>> {
    match text {
        Some(t) => pretty_name_in(lines(t)),
        None => None,
    }
}

/// The `PRETTY_NAME` in the contents of `/etc/os-release`, before cleaning.
pub fn pretty_name(text: Option<&str>) -> (r: Option<String>)
    ensures
        match pretty_name_of(opt_view(text)) {
            Some(p) => r matches Some(s) && s@ == p,
            None => r is None,
        },
{
    let t = match text {
        Some(t) => t,
        None => {
            return None;
        },
    };
    let v = chars_of(t);
    let ls = split_lines(&v);
    let prefix = chars_of("PRETTY_NAME=");
    let mut i: usize = 0;
    assert(views(ls@).skip(0) =~= views(ls@));
    while i < ls.len()
        invariant
            0 <= i <= ls@.len(),
            views(ls@) == lines(t@),
            prefix@ == "PRETTY_NAME="@,
            opt_view(text) == Some(t@),
            pretty_name_in(lines(t@)) == pretty_name_in(views(ls@).skip(i as int)),
        decreases ls@.len() - i,
    {
        assert(views(ls@).skip(i as int)[0] == ls@[i as int]@);
        assert(views(ls@).skip(i as int).drop_first() =~= views(ls@).skip(i + 1));
        if starts_with_str(&ls[i], "PRETTY_NAME=") {
            let stripped = trim_start_matches_chars(&ls[i], &prefix);
            return Some(string_of(&trim_char_chars(&stripped, '"')));
        }
        i += 1;
    }
    None
}

/// The distribution name: the `PRETTY_NAME` cleaned to 30 bytes, else `Omarchy Linux`.
pub open spec fn os_name_of(text: Option<Seq<char>>) -> Seq<char> {
    match pretty_name_of(text) {
        Some(p) => cleaned(p, 30),
        None => "Omarchy Linux"@,
    }
}

/// Whether `os_name` can take the contents of `/etc/os-release`.
pub open spec fn os_release_fits(text: Option<Seq<char>>) -> bool {
    match pretty_name_of(text) {
        Some(p) => clean_fits(p, 30),
        None => true,
    }
}

/// Whether `os_name` can take the contents of `/etc/os-release`.
pub fn os_release_fits_check(text: Option<&str>) -> (b: bool)
    ensures
        b == os_release_fits(opt_view(text)),
{
    match pretty_name(text) {
        Some(p) => clean_string_fits(p.as_str(), 30),
        None => true,
    }
}

/// The distribution name from the contents of `/etc/os-release`.
pub fn os_name(text: Option<&str>) -> (r: String)
    requires
        os_release_fits(opt_view(text)),
    ensures
        r@ == os_name_of(opt_view(text)),
{
    match pretty_name(text) {
        Some(p) => clean_string(p.as_str(), 30),
        None => "Omarchy Linux".to_owned(),
    }
}


// ---------------------------------------------------------------- Storage

/// The storage type and model found so far while looking through `/sys/block`.
pub struct StorageScan {
    pub storage_type: String,
    pub storage_model: String,
}

/// The abstract value of a storage scan.
pub open spec fn storage_view(s: StorageScan) -> (Seq<char>, Seq<char>) {
    (s.storage_type@, s.storage_model@)
}

/// Before any device is looked at: a SATA SSD or hard disk, model unknown.
pub open spec fn storage_start() -> (Seq<char>, Seq<char>) {
    ("SATA SSD / HDD"@, "Solid State Drive"@)
}

/// Whether the block device `name` is an NVMe namespace (`nvme…n1`).
pub open spec fn is_nvme_device(name: Seq<char>) -> bool {
    seq_starts_with(name, "nvme"@) && seq_ends_with(name, "n1"@)
}

/// Whether the block device `name` is a SCSI/SATA or virtio disk.
pub open spec fn is_disk_device(name: Seq<char>) -> bool {
    seq_starts_with(name, "sd"@) || seq_starts_with(name, "vd"@)
}

/// The model file of the block device `name`.
pub open spec fn model_path_of(name: Seq<char>) -> Seq<char> {
    "/sys/block/"@ + name + "/device/model"@
}

/// Looking at the block device `name`: an NVMe namespace makes the type NVMe and has its
/// model file read; a disk has its model file read while no model is known yet; other
/// devices are passed over.
pub open spec fn storage_visit(st: (Seq<char>, Seq<char>), name: Seq<char>) -> (
    (Seq<char>, Seq<char>),
    Option<Seq<char>>,
) {
    if is_nvme_device(name) {
        (("NVMe PCIe Gen4/5 SSD"@, st.1), Some(model_path_of(name)))
    } else if is_disk_device(name) && st.1 == "Solid State Drive"@ {
        (st, Some(model_path_of(name)))
    } else {
        (st, None)
    }
}

/// After the model file of `name` was read as `model` (`None` when it could not be
/// read): the model becomes its trimmed contents cleaned to 40 bytes; an NVMe model ends
/// the search, a disk model makes the type SATA SSD.
pub open spec fn storage_read(st: (Seq<char>, Seq<char>), name: Seq<char>, model: Option<
    Seq<char>,
>) -> ((Seq<char>, Seq<char>), bool) {
    match model {
        None => (st, false),
        Some(m) => if is_nvme_device(name) {
            ((st.0, cleaned(trim(m), 40)), true)
        } else {
            (("SATA SSD"@, cleaned(trim(m), 40)), false)
        },
    }
}

/// Whether the contents of a model file can be cleaned.
pub fn storage_model_fits(model: &str) -> (b: bool)
    ensures
        b == clean_fits(trim(model@), 40),
{
    let t = string_of(&trim_chars(&chars_of(model)));
    clean_string_fits(t.as_str(), 40)
}

impl StorageScan {
    /// A scan that has looked at no device yet.
    pub fn new() -> (r: StorageScan)
        ensures
            storage_view(r) == storage_start(),
    {
        StorageScan {
            storage_type: "SATA SSD / HDD".to_owned(),
            storage_model: "Solid State Drive".to_owned(),
        }
    }

    /// Looks at the block device `name`; returns the model file to read, if any.
    pub fn visit(&mut self, name: &str) -> (r: Option<String>)
        ensures
            (storage_view(*final(self)), match r {
                Some(p) => Some(p@),
                None => None,
            }) == storage_visit(storage_view(*old(self)), name@),
    {
        let nv = chars_of(name);
        let nvme = starts_with_str(&nv, "nvme") && ends_with_str(&nv, "n1");
        let disk = starts_with_str(&nv, "sd") || starts_with_str(&nv, "vd");
        let unknown = eq_str(&chars_of(self.storage_model.as_str()), "Solid State Drive");
        if nvme || (disk && unknown) {
            if nvme {
                self.storage_type = "NVMe PCIe Gen4/5 SSD".to_owned();
            }
            let mut p = String::new();
            push_str(&mut p, "/sys/block/");
            push_str(&mut p, name);
            push_str(&mut p, "/device/model");
            Some(p)
        } else {
            None
        }
    }

    /// Takes what the model file of `name` held; returns whether the search is over.
    pub fn model_read(&mut self, name: &str, model: Option<&str>) -> (stop: bool)
        requires
            model matches Some(m) ==> clean_fits(trim(m@), 40),
        ensures
            (storage_view(*final(self)), stop) == storage_read(
                storage_view(*old(self)),
                name@,
                opt_view(model),
            ),
    {
        match model {
            None => false,
            Some(m) => {
                let t = string_of(&trim_chars(&chars_of(m)));
                let c = clean_string(t.as_str(), 40);
                let nv = chars_of(name);
                if starts_with_str(&nv, "nvme") && ends_with_str(&nv, "n1") {
                    self.storage_model = c;
                    true
                } else {
                    self.storage_model = c;
                    self.storage_type = "SATA SSD".to_owned();
                    false
                }
            },
        }
    }
}


// ---------------------------------------------------------------- Laws

/// A `key: value` line is split at its first `:`, both sides trimmed; a line without
/// `:` has no key.
pub proof fn law_key_value_splits_at_first_colon(k: Seq<char>, v: Seq<char>, other: Seq<char>)
    requires
        forall|i: int| 0 <= i < k.len() ==> k[i] != ':',
    ensures
        key_value(k + ":"@ + v) == Some((trim(k), trim(v))),
        (forall|i: int| 0 <= i < other.len() ==> other[i] != ':') ==> key_value(other) is None,
{
    reveal_strlit(":");
    let line = k + ":"@ + v;
    assert forall|m: int| 0 <= m < k.len() implies line[m] != ':' by {
        assert(line[m] == k[m]);
    }
    assert(line[k.len() as int] == ':');
    crate::fields::lemma_first_index_of_is(line, ':', k.len() as int);
    assert(line.take(k.len() as int) =~= k);
    assert(line.skip(k.len() as int + 1) =~= v);
    if forall|i: int| 0 <= i < other.len() ==> other[i] != ':' {
        crate::fields::lemma_first_index_of_is(other, ':', other.len() as int);
    }
}

/// How a line of `/proc/cpuinfo` counts: a `processor` line adds a thread; the first
/// `model name` gives the name, cleaned to 50 bytes (later ones only while the name
/// still reads `Generic CPU`); the first `cpu cores` gives the core count (0 when it does
/// not read as a number); every `cpu MHz` value is kept in order; any other line changes
/// nothing.
pub proof fn law_cpuinfo_line(st: CpuScan, line: Seq<char>)
    ensures
        key_value(line) is None ==> cpu_line(st, line) == st,
        key_value(line) matches Some((k, v)) ==> {
            &&& k == "processor"@ ==> cpu_line(st, line) == (st.0, st.1 + 1, st.2, st.3)
            &&& (k == "model name"@ && st.0 == "Generic CPU"@) ==> cpu_line(st, line) == (
                cleaned(v, 50),
                st.1,
                st.2,
                st.3,
            )
            &&& (k == "model name"@ && st.0 != "Generic CPU"@) ==> cpu_line(st, line) == st
            &&& (k == "cpu cores"@ && st.2 == 0) ==> cpu_line(st, line) == (
                st.0,
                st.1,
                match parse_unsigned(v, usize::MAX as nat) {
                    Some(n) => n as usize,
                    None => 0,
                },
                st.3,
            )
            &&& (k == "cpu cores"@ && st.2 != 0) ==> cpu_line(st, line) == st
            &&& k == "cpu MHz"@ ==> cpu_line(st, line) == (st.0, st.1, st.2, st.3.push(v))
            &&& (k != "processor"@ && k != "model name"@ && k != "cpu cores"@ && k != "cpu MHz"@)
                ==> cpu_line(st, line) == st
        },
{
    reveal_strlit("processor");
    reveal_strlit("model name");
    reveal_strlit("cpu cores");
    reveal_strlit("cpu MHz");
    assert("processor"@[0] != "cpu cores"@[0]);
    assert("processor"@.len() != "model name"@.len());
    assert("processor"@.len() != "cpu MHz"@.len());
    assert("model name"@.len() != "cpu cores"@.len());
    assert("model name"@.len() != "cpu MHz"@.len());
    assert("cpu cores"@.len() != "cpu MHz"@.len());
}

/// The memory size comes from the first `MemTotal:` line with at least two words: its
/// second word read as a number of kB (0 when it does not read as one); other lines are
/// passed over, and without such a line the size is 0.
pub proof fn law_meminfo_total(ls: Seq<Seq<char>>)
    ensures
        ls.len() == 0 ==> mem_total_kb_in(ls) == 0,
        ls.len() > 0 && seq_starts_with(ls[0], "MemTotal:"@) && words(ls[0]).len() >= 2
            ==> mem_total_kb_in(ls) == match parse_unsigned(words(ls[0])[1], u64::MAX as nat) {
            Some(n) => n as u64,
            None => 0u64,
        },
        ls.len() > 0 && !(seq_starts_with(ls[0], "MemTotal:"@) && words(ls[0]).len() >= 2)
            ==> mem_total_kb_in(ls) == mem_total_kb_in(ls.drop_first()),
{
}

/// The memory sizes: whole MiB, rounded down, and tenths of a GiB, rounded half up.
pub proof fn law_ram_sizes_round(kb: u64)
    ensures
        ram_sizes_of(kb).0 * 1024 <= kb < (ram_sizes_of(kb).0 + 1) * 1024,
        ram_sizes_of(kb).1 * 1024 <= ram_sizes_of(kb).0 * 10 + 512 < (ram_sizes_of(kb).1 + 1)
            * 1024,
{
}

/// The distribution name is the value of the first `PRETTY_NAME=` line, without that
/// prefix and without double quotes at either end, cleaned to 30 bytes; without such a
/// line (or without the file) it is `Omarchy Linux`.
pub proof fn law_os_release(ls: Seq<Seq<char>>, text: Option<Seq<char>>)
    ensures
        ls.len() == 0 ==> pretty_name_in(ls) is None,
        ls.len() > 0 && seq_starts_with(ls[0], "PRETTY_NAME="@) ==> pretty_name_in(ls) == Some(
            trim_char(trim_start_matches(ls[0], "PRETTY_NAME="@), '"'),
        ),
        ls.len() > 0 && !seq_starts_with(ls[0], "PRETTY_NAME="@) ==> pretty_name_in(ls)
            == pretty_name_in(ls.drop_first()),
        pretty_name_of(text) is None ==> os_name_of(text) == "Omarchy Linux"@,
        pretty_name_of(text) matches Some(p) ==> os_name_of(text) == cleaned(p, 30),
        text is None ==> os_name_of(text) == "Omarchy Linux"@,
{
}

}
