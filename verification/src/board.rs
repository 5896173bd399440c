//! The motherboard: vendor, board name, BIOS version, and the chipset, found in `lspci`
//! output or guessed from the board name.
use vstd::prelude::*;
use crate::text::{
    chars_of, contains_str, find_chars, string_of, string_of_range, trim_chars, push_str,
    clean_string, clean_string_fits, clean_fits, is_clean_result, seq_contains, occurs_at,
    first_occurrence, trim, opt_view,
};
use crate::fields::{lines, split_lines, views, remove_all, remove_all_chars};

verus! {

broadcast use vstd::string::group_string_axioms;

/// Where `p` first occurs in `h` (meaningful when it occurs).
pub open spec fn find_in(h: Seq<char>, p: Seq<char>) -> int {
    choose|i: int| first_occurrence(h, p, i)
}

proof fn lemma_find_in(h: Seq<char>, p: Seq<char>, i: int)
    requires
        first_occurrence(h, p, i),
    ensures
        find_in(h, p) == i,
{
    let j = find_in(h, p);
    assert(first_occurrence(h, p, j));
    if j < i {
        assert(!occurs_at(h, p, j));
    } else if i < j {
        assert(!occurs_at(h, p, i));
    }
}

/// The vendor as the board reports it, with ` Technology Co., Ltd.` and then ` Inc.`
/// removed wherever they occur, and trimmed.
pub open spec fn board_vendor_of(raw: Seq<char>) -> Seq<char> {
    trim(remove_all(remove_all(raw, " Technology Co., Ltd."@), " Inc."@))
}

/// The vendor name, shortened as `board_vendor_of` says.
pub fn board_vendor(raw: &str) -> (r: String)
    ensures
        r@ == board_vendor_of(raw@),
{
    let v = chars_of(raw);
    let a = remove_all_chars(&v, &chars_of(" Technology Co., Ltd."));
    let b = remove_all_chars(&a, &chars_of(" Inc."));
    string_of(&trim_chars(&b))
}

/// The first of `pats` that occurs in `h`.
pub open spec fn first_match(h: Seq<char>, pats: Seq<&str>) -> Option<Seq<char>>
    decreases pats.len(),
{
    if pats.len() == 0 {
        None
    } else if seq_contains(h, pats[0]@) {
        Some(pats[0]@)
    } else {
        first_match(h, pats.drop_first())
    }
}

fn first_match_of(h: &[char], pats: &Vec<&str>) -> (r: Option<String>)
    ensures
        match first_match(h@, pats@) {
            Some(p) => r matches Some(s) && s@ == p,
            None => r is None,
        },
{
    let mut i: usize = 0;
    assert(pats@.skip(0) =~= pats@);
    while i < pats.len()
        invariant
            0 <= i <= pats@.len(),
            first_match(h@, pats@) == first_match(h@, pats@.skip(i as int)),
        decreases pats@.len() - i,
    {
        assert(pats@.skip(i as int)[0] == pats@[i as int]);
        assert(pats@.skip(i as int).drop_first() =~= pats@.skip(i + 1));
        if contains_str(h, pats[i]) {
            return Some(pats[i].to_owned());
        }
        i += 1;
    }
    None
}

/// The AMD chipsets recognised in `lspci` output, most specific first.
pub open spec fn amd_lspci_chipsets() -> Seq<&'static str> {
    seq!["X870E", "X870", "X670E", "X670", "B850", "B650E", "B650", "A620", "X570", "B550", "B450"]
}

/// The chipsets recognised in a board name, most specific first.
pub open spec fn board_name_chipsets() -> Seq<&'static str> {
    seq![
        "Z890",
        "Z790",
        "B760",
        "H770",
        "H610",
        "X870E",
        "X870",
        "X670E",
        "X670",
        "B850",
        "B650",
        "A620",
        "Z690",
        "B660",
    ]
}

/// The chipset that one line of `lspci` output names, if any. Only ISA bridge, host
/// bridge and SMBus lines count. On a line with `Intel Corporation `, it is `Intel `
/// followed by what comes after that up to ` Chipset` (no chipset when ` Chipset` does
/// not follow); otherwise, on a line with `AMD`, it is `AMD ` followed by the first
/// recognised AMD chipset on the line.
pub open spec fn line_chipset(line: Seq<char>) -> Option<Seq<char>> {
    if !(seq_contains(line, "ISA bridge:"@) || seq_contains(line, "Host bridge:"@) || seq_contains(
        line,
        "SMBus:"@,
    )) {
        None
    } else if seq_contains(line, "Intel Corporation "@) {
        let rest = line.skip(find_in(line, "Intel Corporation "@) + "Intel Corporation "@.len());
        if seq_contains(rest, " Chipset"@) {
            Some("Intel "@ + rest.take(find_in(rest, " Chipset"@)))
        } else {
            None
        }
    } else if seq_contains(line, "AMD"@) {
        match first_match(line, amd_lspci_chipsets()) {
            Some(p) => Some("AMD "@ + p),
            None => None,
        }
    } else {
        None
    }
}

/// The chipset named by the first line of `ls` that names one.
pub open spec fn lines_chipset(ls: Seq<Seq<char>>) -> Option<Seq<char>>
    decreases ls.len(),
{
    if ls.len() == 0 {
        None
    } else {
        match line_chipset(ls[0]) {
            Some(c) => Some(c),
            None => lines_chipset(ls.drop_first()),
        }
    }
}

/// The chipset guessed from a board name: the first recognised chipset in the name,
/// labelled `Intel` when it begins with `Z`, `B` or `H` and `AMD` otherwise.
pub open spec fn name_chipset(name: Seq<char>) -> Option<Seq<char>> {
    match first_match(name, board_name_chipsets()) {
        Some(p) => if p.len() > 0 && (p[0] == 'Z' || p[0] == 'B' || p[0] == 'H') {
            Some("Intel "@ + p)
        } else {
            Some("AMD "@ + p)
        },
        None => None,
    }
}

/// The chipset of a board named `name` (already trimmed), given the output of `lspci`
/// (`None` when it could not be run): the one `lspci` names, else `Mainstream Chipset`,
/// which the board name may then replace.
pub open spec fn board_chipset_of(name: Seq<char>, lspci: Option<Seq<char>>) -> Seq<char> {
    let from_lspci = match lspci {
        Some(t) => match lines_chipset(lines(t)) {
            Some(c) => c,
            None => "Mainstream Chipset"@,
        },
        None => "Mainstream Chipset"@,
    };
    if from_lspci == "Mainstream Chipset"@ {
        match name_chipset(name) {
            Some(c) => c,
            None => from_lspci,
        }
    } else {
        from_lspci
    }
}

fn intel_chipset_of(line: &[char]) -> (r: Option<String>)
    requires
        seq_contains(line@, "Intel Corporation "@),
    ensures
        ({
            let rest = line@.skip(
                find_in(line@, "Intel Corporation "@) + "Intel Corporation "@.len(),
            );
            if seq_contains(rest, " Chipset"@) {
                r matches Some(s) && s@ == "Intel "@ + rest.take(find_in(rest, " Chipset"@))
            } else {
                r is None
            }
        }),
{
    let n = line.len();
    let marker = chars_of("Intel Corporation ");
    let idx = match find_chars(line, &marker) {
        Some(i) => i,
        None => {
            return None;
        },
    };
    proof {
        lemma_find_in(line@, marker@, idx as int);
        assert(occurs_at(line@, marker@, idx as int));
    }
    let start = idx + marker.len();
    let rest = string_of_range(line, start, n);
    let rv = chars_of(rest.as_str());
    assert(rv@ =~= line@.skip(start as int));
    let tail = chars_of(" Chipset");
    match find_chars(&rv, &tail) {
        Some(c) => {
            proof {
                lemma_find_in(rv@, tail@, c as int);
            }
            let mut s = String::new();
            push_str(&mut s, "Intel ");
            let model = string_of_range(&rv, 0, c);
            assert(rv@.subrange(0, c as int) =~= rv@.take(c as int));
            push_str(&mut s, model.as_str());
            Some(s)
        },
        None => None,
    }
}

fn line_chipset_of(line: &[char]) -> (r: Option<String>)
    ensures
        match line_chipset(line@) {
            Some(c) => r matches Some(s) && s@ == c,
            None => r is None,
        },
{
    if !(contains_str(line, "ISA bridge:") || contains_str(line, "Host bridge:") || contains_str(
        line,
        "SMBus:",
    )) {
        return None;
    }
    if contains_str(line, "Intel Corporation ") {
        intel_chipset_of(line)
    } else if contains_str(line, "AMD") {
        let pats: Vec<&str> = vec![
            "X870E",
            "X870",
            "X670E",
            "X670",
            "B850",
            "B650E",
            "B650",
            "A620",
            "X570",
            "B550",
            "B450",
        ];
        assert(pats@ == amd_lspci_chipsets());
        match first_match_of(line, &pats) {
            Some(p) => {
                let mut s = String::new();
                push_str(&mut s, "AMD ");
                push_str(&mut s, p.as_str());
                Some(s)
            },
            None => None,
        }
    } else {
        None
    }
}

fn name_chipset_of(name: &[char]) -> (r: Option<String>)
    ensures
        match name_chipset(name@) {
            Some(c) => r matches Some(s) && s@ == c,
            None => r is None,
        },
{
    let pats: Vec<&str> = vec![
        "Z890",
        "Z790",
        "B760",
        "H770",
        "H610",
        "X870E",
        "X870",
        "X670E",
        "X670",
        "B850",
        "B650",
        "A620",
        "Z690",
        "B660",
    ];
    assert(pats@ == board_name_chipsets());
    match first_match_of(name, &pats) {
        Some(p) => {
            let pv = chars_of(p.as_str());
            let mut s = String::new();
            if pv.len() > 0 && (pv[0] == 'Z' || pv[0] == 'B' || pv[0] == 'H') {
                push_str(&mut s, "Intel ");
            } else {
                push_str(&mut s, "AMD ");
            }
            push_str(&mut s, p.as_str());
            Some(s)
        },
        None => None,
    }
}

/// The chipset that `lspci` output names, if any.
pub fn lspci_chipset(t: &str) -> (r: Option<String>)
    ensures
        match lines_chipset(lines(t@)) {
            Some(c) => r matches Some(s) && s@ == c,
            None => r is None,
        },
{
    let tv = chars_of(t);
    let ls = split_lines(&tv);
    let mut i: usize = 0;
    assert(views(ls@).skip(0) =~= views(ls@));
    while i < ls.len()
        invariant
            0 <= i <= ls@.len(),
            views(ls@) == lines(t@),
            lines_chipset(lines(t@)) == lines_chipset(views(ls@).skip(i as int)),
        decreases ls@.len() - i,
    {
        assert(views(ls@).skip(i as int)[0] == ls@[i as int]@);
        assert(views(ls@).skip(i as int).drop_first() =~= views(ls@).skip(i + 1));
        if let Some(c) = line_chipset_of(&ls[i]) {
            return Some(c);
        }
        i += 1;
    }
    None
}

/// The chipset of the board named `name` (trimmed), given the output of `lspci`.
pub fn board_chipset(name: &str, lspci: Option<&str>) -> (r: String)
    ensures
        r@ == board_chipset_of(
            name@,
            match lspci {
                Some(t) => Some(t@),
                None => None,
            },
        ),
{
    let found = match lspci {
        Some(t) => lspci_chipset(t),
        None => None,
    };
    let from_lspci = match found {
        Some(c) => c,
        None => "Mainstream Chipset".to_owned(),
    };
    let fv = chars_of(from_lspci.as_str());
    if crate::text::eq_str(&fv, "Mainstream Chipset") {
        let nv = chars_of(name);
        match name_chipset_of(&nv) {
            Some(c) => c,
            None => from_lspci,
        }
    } else {
        from_lspci
    }
}


/// `o`, or `d` when it is `None`.
pub open spec fn or_default(o: Option<Seq<char>>, d: Seq<char>) -> Seq<char> {
    match o {
        Some(s) => s,
        None => d,
    }
}

/// Vendor, board name, BIOS version and chipset before they are cleaned, from the
/// contents of the DMI vendor, board-name and BIOS-version files (`None` when none of the
/// files for it could be read) and the output of `lspci`. An unreadable vendor reads as
/// `Generic`, an unreadable name as `Motherboard`, an unreadable BIOS version as
/// `Unknown`.
pub open spec fn board_parts(
    vendor: Option<Seq<char>>,
    name: Option<Seq<char>>,
    bios: Option<Seq<char>>,
    lspci: Option<Seq<char>>,
) -> (Seq<char>, Seq<char>, Seq<char>, Seq<char>) {
    let n = trim(or_default(name, "Motherboard"@));
    (
        board_vendor_of(or_default(vendor, "Generic"@)),
        n,
        trim(or_default(bios, "Unknown"@)),
        board_chipset_of(n, lspci),
    )
}

/// Whether the four parts can be cleaned to 25, 35, 15 and 25 bytes.
pub open spec fn board_fits(p: (Seq<char>, Seq<char>, Seq<char>, Seq<char>)) -> bool {
    clean_fits(p.0, 25) && clean_fits(p.1, 35) && clean_fits(p.2, 15) && clean_fits(p.3, 25)
}

fn board_parts_of(
    vendor: Option<&str>,
    name: Option<&str>,
    bios: Option<&str>,
    lspci: Option<&str>,
) -> (r: (String, String, String, String))
    ensures
        (r.0@, r.1@, r.2@, r.3@) == board_parts(
            opt_view(vendor),
            opt_view(name),
            opt_view(bios),
            opt_view(lspci),
        ),
{
    let v = board_vendor(vendor.unwrap_or("Generic"));
    let n = string_of(&trim_chars(&chars_of(name.unwrap_or("Motherboard"))));
    let b = string_of(&trim_chars(&chars_of(bios.unwrap_or("Unknown"))));
    let c = board_chipset(n.as_str(), lspci);
    (v, n, b, c)
}

/// Whether `motherboard` can clean what it is given.
pub fn motherboard_fits(
    vendor: Option<&str>,
    name: Option<&str>,
    bios: Option<&str>,
    lspci: Option<&str>,
) -> (b: bool)
    ensures
        b == board_fits(board_parts(opt_view(vendor), opt_view(name), opt_view(bios), opt_view(lspci))),
{
    let (v, n, bi, c) = board_parts_of(vendor, name, bios, lspci);
    clean_string_fits(v.as_str(), 25) && clean_string_fits(n.as_str(), 35) && clean_string_fits(
        bi.as_str(),
        15,
    ) && clean_string_fits(c.as_str(), 25)
}

/// Vendor, board name, BIOS version and chipset, cleaned to 25, 35, 15 and 25 bytes.
pub fn motherboard(
    vendor: Option<&str>,
    name: Option<&str>,
    bios: Option<&str>,
    lspci: Option<&str>,
) -> (r: (String, String, String, String))
    requires
        board_fits(board_parts(opt_view(vendor), opt_view(name), opt_view(bios), opt_view(lspci))),
    ensures
        ({
            let p = board_parts(opt_view(vendor), opt_view(name), opt_view(bios), opt_view(lspci));
            &&& is_clean_result(p.0, 25, r.0@)
            &&& is_clean_result(p.1, 35, r.1@)
            &&& is_clean_result(p.2, 15, r.2@)
            &&& is_clean_result(p.3, 25, r.3@)
        }),
{
    let (v, n, bi, c) = board_parts_of(vendor, name, bios, lspci);
    (
        clean_string(v.as_str(), 25),
        clean_string(n.as_str(), 35),
        clean_string(bi.as_str(), 15),
        clean_string(c.as_str(), 25),
    )
}



proof fn lemma_first_match_at(h: Seq<char>, pats: Seq<&str>, k: int)
    requires
        0 <= k < pats.len(),
        seq_contains(h, pats[k]@),
        forall|j: int| 0 <= j < k ==> !seq_contains(h, (#[trigger] pats[j])@),
    ensures
        first_match(h, pats) == Some(pats[k]@),
    decreases k,
{
    if k > 0 {
        assert(!seq_contains(h, pats[0]@));
        let rest = pats.drop_first();
        assert forall|j: int| 0 <= j < k - 1 implies !seq_contains(h, (#[trigger] rest[j])@) by {
            assert(rest[j] == pats[j + 1]);
        }
        assert(rest[k - 1] == pats[k]);
        lemma_first_match_at(h, rest, k - 1);
    }
}

proof fn lemma_first_match_none(h: Seq<char>, pats: Seq<&str>)
    requires
        forall|j: int| 0 <= j < pats.len() ==> !seq_contains(h, (#[trigger] pats[j])@),
    ensures
        first_match(h, pats) is None,
    decreases pats.len(),
{
    if pats.len() > 0 {
        assert(!seq_contains(h, pats[0]@));
        let rest = pats.drop_first();
        assert forall|j: int| 0 <= j < rest.len() implies !seq_contains(h, (#[trigger] rest[j])@) by {
            assert(rest[j] == pats[j + 1]);
        }
        lemma_first_match_none(h, rest);
    }
}

/// The AMD chipset named on a line, as `line_chipset` reads it on an AMD line.
pub open spec fn amd_chipset(line: Seq<char>) -> Option<Seq<char>> {
    match first_match(line, amd_lspci_chipsets()) {
        Some(p) => Some("AMD "@ + p),
        None => None,
    }
}

/// The chipset guessed from a board name: the first of Z890, Z790, B760, H770, H610,
/// X870E, X870, X670E, X670, B850, B650, A620, Z690, B660 found in it, labelled Intel when
/// it begins with Z, B or H and AMD otherwise; none when the name holds none of them.
pub proof fn law_name_chipset(name: Seq<char>)
    ensures
        (seq_contains(name, "Z890"@)) ==> name_chipset(name) == Some("Intel "@ + "Z890"@),
        (seq_contains(name, "Z790"@) && !seq_contains(name, "Z890"@)) ==> name_chipset(name) == Some("Intel "@ + "Z790"@),
        (seq_contains(name, "B760"@) && !seq_contains(name, "Z890"@) && !seq_contains(name, "Z790"@)) ==> name_chipset(name) == Some("Intel "@ + "B760"@),
        (seq_contains(name, "H770"@) && !seq_contains(name, "Z890"@) && !seq_contains(name, "Z790"@) && !seq_contains(name, "B760"@)) ==> name_chipset(name) == Some("Intel "@ + "H770"@),
        (seq_contains(name, "H610"@) && !seq_contains(name, "Z890"@) && !seq_contains(name, "Z790"@) && !seq_contains(name, "B760"@) && !seq_contains(name, "H770"@)) ==> name_chipset(name) == Some("Intel "@ + "H610"@),
        (seq_contains(name, "X870E"@) && !seq_contains(name, "Z890"@) && !seq_contains(name, "Z790"@) && !seq_contains(name, "B760"@) && !seq_contains(name, "H770"@) && !seq_contains(name, "H610"@)) ==> name_chipset(name) == Some("AMD "@ + "X870E"@),
        (seq_contains(name, "X870"@) && !seq_contains(name, "Z890"@) && !seq_contains(name, "Z790"@) && !seq_contains(name, "B760"@) && !seq_contains(name, "H770"@) && !seq_contains(name, "H610"@) && !seq_contains(name, "X870E"@)) ==> name_chipset(name) == Some("AMD "@ + "X870"@),
        (seq_contains(name, "X670E"@) && !seq_contains(name, "Z890"@) && !seq_contains(name, "Z790"@) && !seq_contains(name, "B760"@) && !seq_contains(name, "H770"@) && !seq_contains(name, "H610"@) && !seq_contains(name, "X870E"@) && !seq_contains(name, "X870"@)) ==> name_chipset(name) == Some("AMD "@ + "X670E"@),
        (seq_contains(name, "X670"@) && !seq_contains(name, "Z890"@) && !seq_contains(name, "Z790"@) && !seq_contains(name, "B760"@) && !seq_contains(name, "H770"@) && !seq_contains(name, "H610"@) && !seq_contains(name, "X870E"@) && !seq_contains(name, "X870"@) && !seq_contains(name, "X670E"@)) ==> name_chipset(name) == Some("AMD "@ + "X670"@),
        (seq_contains(name, "B850"@) && !seq_contains(name, "Z890"@) && !seq_contains(name, "Z790"@) && !seq_contains(name, "B760"@) && !seq_contains(name, "H770"@) && !seq_contains(name, "H610"@) && !seq_contains(name, "X870E"@) && !seq_contains(name, "X870"@) && !seq_contains(name, "X670E"@) && !seq_contains(name, "X670"@)) ==> name_chipset(name) == Some("Intel "@ + "B850"@),
        (seq_contains(name, "B650"@) && !seq_contains(name, "Z890"@) && !seq_contains(name, "Z790"@) && !seq_contains(name, "B760"@) && !seq_contains(name, "H770"@) && !seq_contains(name, "H610"@) && !seq_contains(name, "X870E"@) && !seq_contains(name, "X870"@) && !seq_contains(name, "X670E"@) && !seq_contains(name, "X670"@) && !seq_contains(name, "B850"@)) ==> name_chipset(name) == Some("Intel "@ + "B650"@),
        (seq_contains(name, "A620"@) && !seq_contains(name, "Z890"@) && !seq_contains(name, "Z790"@) && !seq_contains(name, "B760"@) && !seq_contains(name, "H770"@) && !seq_contains(name, "H610"@) && !seq_contains(name, "X870E"@) && !seq_contains(name, "X870"@) && !seq_contains(name, "X670E"@) && !seq_contains(name, "X670"@) && !seq_contains(name, "B850"@) && !seq_contains(name, "B650"@)) ==> name_chipset(name) == Some("AMD "@ + "A620"@),
        (seq_contains(name, "Z690"@) && !seq_contains(name, "Z890"@) && !seq_contains(name, "Z790"@) && !seq_contains(name, "B760"@) && !seq_contains(name, "H770"@) && !seq_contains(name, "H610"@) && !seq_contains(name, "X870E"@) && !seq_contains(name, "X870"@) && !seq_contains(name, "X670E"@) && !seq_contains(name, "X670"@) && !seq_contains(name, "B850"@) && !seq_contains(name, "B650"@) && !seq_contains(name, "A620"@)) ==> name_chipset(name) == Some("Intel "@ + "Z690"@),
        (seq_contains(name, "B660"@) && !seq_contains(name, "Z890"@) && !seq_contains(name, "Z790"@) && !seq_contains(name, "B760"@) && !seq_contains(name, "H770"@) && !seq_contains(name, "H610"@) && !seq_contains(name, "X870E"@) && !seq_contains(name, "X870"@) && !seq_contains(name, "X670E"@) && !seq_contains(name, "X670"@) && !seq_contains(name, "B850"@) && !seq_contains(name, "B650"@) && !seq_contains(name, "A620"@) && !seq_contains(name, "Z690"@)) ==> name_chipset(name) == Some("Intel "@ + "B660"@),
        (!seq_contains(name, "Z890"@) && !seq_contains(name, "Z790"@) && !seq_contains(name, "B760"@) && !seq_contains(name, "H770"@) && !seq_contains(name, "H610"@) && !seq_contains(name, "X870E"@) && !seq_contains(name, "X870"@) && !seq_contains(name, "X670E"@) && !seq_contains(name, "X670"@) && !seq_contains(name, "B850"@) && !seq_contains(name, "B650"@) && !seq_contains(name, "A620"@) && !seq_contains(name, "Z690"@) && !seq_contains(name, "B660"@)) ==> name_chipset(name) is None,
{
    let pats = board_name_chipsets();
    assert(pats[0] == "Z890");
    assert(pats[1] == "Z790");
    assert(pats[2] == "B760");
    assert(pats[3] == "H770");
    assert(pats[4] == "H610");
    assert(pats[5] == "X870E");
    assert(pats[6] == "X870");
    assert(pats[7] == "X670E");
    assert(pats[8] == "X670");
    assert(pats[9] == "B850");
    assert(pats[10] == "B650");
    assert(pats[11] == "A620");
    assert(pats[12] == "Z690");
    assert(pats[13] == "B660");
    if exists|k: int| 0 <= k < pats.len() && seq_contains(name, (#[trigger] pats[k])@) {
        let k = choose|k: int| 0 <= k < pats.len() && seq_contains(name, (#[trigger] pats[k])@) && forall|j: int| 0 <= j < k ==> !seq_contains(name, (#[trigger] pats[j])@);
        lemma_first_match_at(name, pats, k);
    } else {
        lemma_first_match_none(name, pats);
    }
    reveal_strlit("Z890");
    reveal_strlit("Z790");
    reveal_strlit("B760");
    reveal_strlit("H770");
    reveal_strlit("H610");
    reveal_strlit("X870E");
    reveal_strlit("X870");
    reveal_strlit("X670E");
    reveal_strlit("X670");
    reveal_strlit("B850");
    reveal_strlit("B650");
    reveal_strlit("A620");
    reveal_strlit("Z690");
    reveal_strlit("B660");
}

/// On an `lspci` line naming AMD, the chipset is the first of X870E, X870, X670E, X670,
/// B850, B650E, B650, A620, X570, B550, B450 on the line; and a line counts only when it is
/// an ISA bridge, host bridge or SMBus line.
pub proof fn law_amd_line_chipset(line: Seq<char>)
    ensures
        (seq_contains(line, "X870E"@)) ==> amd_chipset(line) == Some("AMD "@ + "X870E"@),
        (seq_contains(line, "X870"@) && !seq_contains(line, "X870E"@)) ==> amd_chipset(line) == Some("AMD "@ + "X870"@),
        (seq_contains(line, "X670E"@) && !seq_contains(line, "X870E"@) && !seq_contains(line, "X870"@)) ==> amd_chipset(line) == Some("AMD "@ + "X670E"@),
        (seq_contains(line, "X670"@) && !seq_contains(line, "X870E"@) && !seq_contains(line, "X870"@) && !seq_contains(line, "X670E"@)) ==> amd_chipset(line) == Some("AMD "@ + "X670"@),
        (seq_contains(line, "B850"@) && !seq_contains(line, "X870E"@) && !seq_contains(line, "X870"@) && !seq_contains(line, "X670E"@) && !seq_contains(line, "X670"@)) ==> amd_chipset(line) == Some("AMD "@ + "B850"@),
        (seq_contains(line, "B650E"@) && !seq_contains(line, "X870E"@) && !seq_contains(line, "X870"@) && !seq_contains(line, "X670E"@) && !seq_contains(line, "X670"@) && !seq_contains(line, "B850"@)) ==> amd_chipset(line) == Some("AMD "@ + "B650E"@),
        (seq_contains(line, "B650"@) && !seq_contains(line, "X870E"@) && !seq_contains(line, "X870"@) && !seq_contains(line, "X670E"@) && !seq_contains(line, "X670"@) && !seq_contains(line, "B850"@) && !seq_contains(line, "B650E"@)) ==> amd_chipset(line) == Some("AMD "@ + "B650"@),
        (seq_contains(line, "A620"@) && !seq_contains(line, "X870E"@) && !seq_contains(line, "X870"@) && !seq_contains(line, "X670E"@) && !seq_contains(line, "X670"@) && !seq_contains(line, "B850"@) && !seq_contains(line, "B650E"@) && !seq_contains(line, "B650"@)) ==> amd_chipset(line) == Some("AMD "@ + "A620"@),
        (seq_contains(line, "X570"@) && !seq_contains(line, "X870E"@) && !seq_contains(line, "X870"@) && !seq_contains(line, "X670E"@) && !seq_contains(line, "X670"@) && !seq_contains(line, "B850"@) && !seq_contains(line, "B650E"@) && !seq_contains(line, "B650"@) && !seq_contains(line, "A620"@)) ==> amd_chipset(line) == Some("AMD "@ + "X570"@),
        (seq_contains(line, "B550"@) && !seq_contains(line, "X870E"@) && !seq_contains(line, "X870"@) && !seq_contains(line, "X670E"@) && !seq_contains(line, "X670"@) && !seq_contains(line, "B850"@) && !seq_contains(line, "B650E"@) && !seq_contains(line, "B650"@) && !seq_contains(line, "A620"@) && !seq_contains(line, "X570"@)) ==> amd_chipset(line) == Some("AMD "@ + "B550"@),
        (seq_contains(line, "B450"@) && !seq_contains(line, "X870E"@) && !seq_contains(line, "X870"@) && !seq_contains(line, "X670E"@) && !seq_contains(line, "X670"@) && !seq_contains(line, "B850"@) && !seq_contains(line, "B650E"@) && !seq_contains(line, "B650"@) && !seq_contains(line, "A620"@) && !seq_contains(line, "X570"@) && !seq_contains(line, "B550"@)) ==> amd_chipset(line) == Some("AMD "@ + "B450"@),
        (!seq_contains(line, "X870E"@) && !seq_contains(line, "X870"@) && !seq_contains(line, "X670E"@) && !seq_contains(line, "X670"@) && !seq_contains(line, "B850"@) && !seq_contains(line, "B650E"@) && !seq_contains(line, "B650"@) && !seq_contains(line, "A620"@) && !seq_contains(line, "X570"@) && !seq_contains(line, "B550"@) && !seq_contains(line, "B450"@)) ==> amd_chipset(line) is None,
        !(seq_contains(line, "ISA bridge:"@) || seq_contains(line, "Host bridge:"@) || seq_contains(
            line,
            "SMBus:"@,
        )) ==> line_chipset(line) is None,
        (seq_contains(line, "ISA bridge:"@) || seq_contains(line, "Host bridge:"@) || seq_contains(
            line,
            "SMBus:"@,
        )) && !seq_contains(line, "Intel Corporation "@) && seq_contains(line, "AMD"@)
            ==> line_chipset(line) == amd_chipset(line),
{
    let pats = amd_lspci_chipsets();
    assert(pats[0] == "X870E");
    assert(pats[1] == "X870");
    assert(pats[2] == "X670E");
    assert(pats[3] == "X670");
    assert(pats[4] == "B850");
    assert(pats[5] == "B650E");
    assert(pats[6] == "B650");
    assert(pats[7] == "A620");
    assert(pats[8] == "X570");
    assert(pats[9] == "B550");
    assert(pats[10] == "B450");
    if exists|k: int| 0 <= k < pats.len() && seq_contains(line, (#[trigger] pats[k])@) {
        let k = choose|k: int| 0 <= k < pats.len() && seq_contains(line, (#[trigger] pats[k])@) && forall|j: int| 0 <= j < k ==> !seq_contains(line, (#[trigger] pats[j])@);
        lemma_first_match_at(line, pats, k);
    } else {
        lemma_first_match_none(line, pats);
    }
}

}
