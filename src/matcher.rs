//! Deciding whether an input device is a configured keyboard, and which one.
use vstd::prelude::*;
use crate::config::{Config, KeyboardConfig};
use crate::text::{chars_contain, contains_seq, lower_of, lowercase, str_contains, to_chars};

verus! {

/// A device name matches a pattern when the lowercased pattern occurs in the
/// lowercased name.
pub open spec fn name_matches(name: Seq<char>, pattern: Seq<char>) -> bool {
    contains_seq(lower_of(name), lower_of(pattern))
}

/// Entry `i` is the earliest configured keyboard whose pattern matches `name`.
pub open spec fn is_first_match(name: Seq<char>, kbs: Seq<KeyboardConfig>, i: int) -> bool {
    &&& 0 <= i < kbs.len()
    &&& name_matches(name, kbs[i].name@)
    &&& forall|j: int| 0 <= j < i ==> !name_matches(name, #[trigger] kbs[j].name@)
}

/// The configuration entry selected for a device with the given name and key
/// capability: none without key events, else the first matching entry.
pub open spec fn matched_config(name: Seq<char>, supports_key: bool, kbs: Seq<KeyboardConfig>) -> Option<KeyboardConfig> {
    if supports_key && exists|i: int| is_first_match(name, kbs, i) {
        Some(kbs[choose|i: int| is_first_match(name, kbs, i)])
    } else {
        None
    }
}

/// At most one entry is the first match.
pub proof fn lemma_first_match_unique(name: Seq<char>, kbs: Seq<KeyboardConfig>, i: int, k: int)
    requires
        is_first_match(name, kbs, i),
        is_first_match(name, kbs, k),
    ensures
        i == k,
{
    if i < k {
        assert(!name_matches(name, kbs[i].name@));
    } else if k < i {
        assert(!name_matches(name, kbs[k].name@));
    }
}

/// Matching ignores case: names with the same lowercase form, matched
/// against patterns with the same lowercase forms, select the same entry.
pub proof fn lemma_match_ignores_case(
    n1: Seq<char>,
    n2: Seq<char>,
    supports_key: bool,
    kbs1: Seq<KeyboardConfig>,
    kbs2: Seq<KeyboardConfig>,
)
    requires
        lower_of(n1) == lower_of(n2),
        kbs1.len() == kbs2.len(),
        forall|i: int| 0 <= i < kbs1.len() ==> lower_of(#[trigger] kbs1[i].name@) == lower_of(kbs2[i].name@),
    ensures
        matched_config(n1, supports_key, kbs1) is Some <==> matched_config(n2, supports_key, kbs2) is Some,
        forall|i: int| is_first_match(n1, kbs1, i) <==> is_first_match(n2, kbs2, i),
        kbs1 == kbs2 ==> matched_config(n1, supports_key, kbs1) == matched_config(n2, supports_key, kbs2),
{
    assert forall|i: int| is_first_match(n1, kbs1, i) <==> is_first_match(n2, kbs2, i) by {
        if 0 <= i < kbs1.len() {
            assert(lower_of(kbs1[i].name@) == lower_of(kbs2[i].name@));
            if is_first_match(n1, kbs1, i) {
                assert forall|j: int| 0 <= j < i implies !name_matches(n2, #[trigger] kbs2[j].name@) by {
                    assert(lower_of(kbs1[j].name@) == lower_of(kbs2[j].name@));
                    assert(!name_matches(n1, kbs1[j].name@));
                }
            }
            if is_first_match(n2, kbs2, i) {
                assert forall|j: int| 0 <= j < i implies !name_matches(n1, #[trigger] kbs1[j].name@) by {
                    assert(lower_of(kbs1[j].name@) == lower_of(kbs2[j].name@));
                    assert(!name_matches(n2, kbs2[j].name@));
                }
            }
        }
    }
    if exists|i: int| is_first_match(n1, kbs1, i) {
        let i = choose|i: int| is_first_match(n1, kbs1, i);
        assert(is_first_match(n2, kbs2, i));
        let k = choose|k: int| is_first_match(n2, kbs2, k);
        lemma_first_match_unique(n2, kbs2, i, k);
    }
    if exists|i: int| is_first_match(n2, kbs2, i) {
        let i = choose|i: int| is_first_match(n2, kbs2, i);
        assert(is_first_match(n1, kbs1, i));
    }
}

/// Earlier entries win: when entry `i` matches a key-capable device, the
/// entry selected is the first match, at or before `i`.
pub proof fn lemma_first_configured_match_wins(name: Seq<char>, kbs: Seq<KeyboardConfig>, i: int)
    requires
        0 <= i < kbs.len(),
        name_matches(name, kbs[i].name@),
    ensures
        exists|m: int| 0 <= m <= i && is_first_match(name, kbs, m) && matched_config(name, true, kbs) == Some(kbs[m]),
    decreases i,
{
    if exists|j: int| 0 <= j < i && name_matches(name, #[trigger] kbs[j].name@) {
        let j = choose|j: int| 0 <= j < i && name_matches(name, #[trigger] kbs[j].name@);
        lemma_first_configured_match_wins(name, kbs, j);
    } else {
        assert(is_first_match(name, kbs, i));
        let c = choose|c: int| is_first_match(name, kbs, c);
        lemma_first_match_unique(name, kbs, i, c);
    }
}

/// Whether a device name matches a configured pattern, ignoring case.
pub fn pattern_matches(device_name: &str, pattern: &str) -> (r: bool)
    ensures
        r == name_matches(device_name@, pattern@),
{
    let name = lowercase(device_name);
    let pat = lowercase(pattern);
    str_contains(name.as_str(), pat.as_str())
}

/// The configured keyboard that a device corresponds to: none unless the
/// device reports key events; otherwise the first entry, in configuration
/// order, whose pattern occurs in the device name ignoring case.
pub fn match_keyboard_config<'a>(device_name: &str, supports_key: bool, config: &'a Config) -> (r: Option<&'a KeyboardConfig>)
    ensures
        r is None <==> matched_config(device_name@, supports_key, config.keyboards@) is None,
        r is Some ==> *r->0 == matched_config(device_name@, supports_key, config.keyboards@)->0,
{
    if !supports_key {
        return None;
    }
    let lname = lowercase(device_name);
    let name_chars = to_chars(lname.as_str());
    let kbs = &config.keyboards;
    let mut i: usize = 0;
    while i < kbs.len()
        invariant
            name_chars@ == lower_of(device_name@),
            supports_key,
            kbs == &config.keyboards,
            i <= kbs@.len(),
            forall|j: int| 0 <= j < i ==> !name_matches(device_name@, #[trigger] kbs@[j].name@),
        decreases kbs@.len() - i,
    {
        let kb = &kbs[i];
        let lpat = lowercase(kb.name.as_str());
        let pat_chars = to_chars(lpat.as_str());
        if chars_contain(&name_chars, &pat_chars) {
            proof {
                let name = device_name@;
                assert(is_first_match(name, kbs@, i as int));
                let c = choose|c: int| is_first_match(name, kbs@, c);
                lemma_first_match_unique(name, kbs@, i as int, c);
            }
            return Some(kb);
        }
        i = i + 1;
    }
    proof {
        assert forall|c: int| !is_first_match(device_name@, kbs@, c) by {
            if 0 <= c < kbs@.len() {
                assert(!name_matches(device_name@, kbs@[c].name@));
            }
        }
    }
    None
}

/// What a scan of the input directory reports for one device node.
pub struct ProbedDevice {
    pub path: String,
    pub name: String,
    pub supports_key: bool,
}

/// A configured keyboard found at a device node.
pub struct FoundKeyboard {
    pub path: String,
    pub name: String,
    pub layout_index: u32,
    pub layout_name: String,
}

/// Only event-device nodes are considered.
pub open spec fn is_event_path(path: Seq<char>) -> bool {
    contains_seq(path, "event"@)
}

/// What one probed device contributes to the startup scan.
pub open spec fn probe_result(d: ProbedDevice, kbs: Seq<KeyboardConfig>) -> Option<FoundKeyboard> {
    if is_event_path(d.path@) && matched_config(d.name@, d.supports_key, kbs) is Some {
        let kb = matched_config(d.name@, d.supports_key, kbs)->0;
        Some(FoundKeyboard { path: d.path, name: d.name, layout_index: kb.layout_index, layout_name: kb.layout_name })
    } else {
        None
    }
}

/// The keyboards a startup scan finds, in the order the devices were listed.
pub open spec fn found_keyboards(devs: Seq<ProbedDevice>, kbs: Seq<KeyboardConfig>) -> Seq<FoundKeyboard>
    decreases devs.len(),
{
    if devs.len() == 0 {
        Seq::empty()
    } else {
        let prev = found_keyboards(devs.drop_last(), kbs);
        match probe_result(devs.last(), kbs) {
            Some(f) => prev.push(f),
            None => prev,
        }
    }
}

/// The startup scan: each listed event-device node that matches a
/// configured keyboard, with that keyboard's layout.
pub fn find_keyboards(devices: &Vec<ProbedDevice>, config: &Config) -> (r: Vec<FoundKeyboard>)
    ensures
        r@ == found_keyboards(devices@, config.keyboards@),
{
    let mut out: Vec<FoundKeyboard> = Vec::new();
    let mut i: usize = 0;
    while i < devices.len()
        invariant
            i <= devices@.len(),
            out@ == found_keyboards(devices@.subrange(0, i as int), config.keyboards@),
        decreases devices@.len() - i,
    {
        let d = &devices[i];
        proof {
            assert(devices@.subrange(0, i + 1).drop_last() =~= devices@.subrange(0, i as int));
            assert(devices@.subrange(0, i + 1).last() == devices@[i as int]);
        }
        if str_contains(d.path.as_str(), "event") {
            match match_keyboard_config(d.name.as_str(), d.supports_key, config) {
                Some(kb) => {
                    out.push(FoundKeyboard {
                        path: d.path.clone(),
                        name: d.name.clone(),
                        layout_index: kb.layout_index,
                        layout_name: kb.layout_name.clone(),
                    });
                },
                None => {},
            }
        }
        i = i + 1;
    }
    assert(devices@.subrange(0, devices@.len() as int) =~= devices@);
    out
}

} // verus!
