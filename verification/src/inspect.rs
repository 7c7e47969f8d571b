//! Building an inspection snapshot of the video-loopback module from the
//! observed system state, and scanning the kernel-module listing.

use vstd::prelude::*;
use crate::config::{dec_of, dec_string, device_path, device_path_of};
use crate::text::{find_token, position_of, split_on, split_plain, starts_with_of, str_eq,
    str_starts_with};
use crate::tokens::{parse_bool_token, parse_bool_token_of, split_param_csv, split_param_csv_of};

verus! {

/// What the surrounding program observed of the system, handed in as plain
/// values: module presence, device-node existence, the raw busy-probe
/// answer, and the raw contents of the module's three parameter files
/// (absent when a file could not be read). The parameter files are only
/// meaningful when the module is loaded.
pub struct SysProbe {
    pub module_loaded: bool,
    pub device_exists: bool,
    pub busy_probe: bool,
    pub video_nr_param: Option<String>,
    pub card_label_param: Option<String>,
    pub exclusive_caps_param: Option<String>,
}

/// The mathematical image of an observation.
#[verifier::ext_equal]
pub ghost struct SysProbeView {
    pub module_loaded: bool,
    pub device_exists: bool,
    pub busy_probe: bool,
    pub video_nr_param: Option<Seq<char>>,
    pub card_label_param: Option<Seq<char>>,
    pub exclusive_caps_param: Option<Seq<char>>,
}

impl View for SysProbe {
    type V = SysProbeView;

    open spec fn view(&self) -> SysProbeView {
        SysProbeView {
            module_loaded: self.module_loaded,
            device_exists: self.device_exists,
            busy_probe: self.busy_probe,
            video_nr_param: match self.video_nr_param {
                Some(s) => Some(s@),
                None => None,
            },
            card_label_param: match self.card_label_param {
                Some(s) => Some(s@),
                None => None,
            },
            exclusive_caps_param: match self.exclusive_caps_param {
                Some(s) => Some(s@),
                None => None,
            },
        }
    }
}

/// A fresh inspection snapshot for one (device number, label, exclusive
/// flag) target, produced per request and never cached.
pub struct V4l2Inspect {
    pub module_loaded: bool,
    pub device: String,
    pub device_exists: bool,
    pub device_busy: bool,
    pub config_matches: bool,
    pub requires_reload: bool,
    pub slot_index: Option<usize>,
    pub reasons: Vec<String>,
}

/// The mathematical image of a snapshot.
#[verifier::ext_equal]
pub ghost struct InspectView {
    pub module_loaded: bool,
    pub device: Seq<char>,
    pub device_exists: bool,
    pub device_busy: bool,
    pub config_matches: bool,
    pub requires_reload: bool,
    pub slot_index: Option<int>,
    pub reasons: Seq<Seq<char>>,
}

impl View for V4l2Inspect {
    type V = InspectView;

    open spec fn view(&self) -> InspectView {
        InspectView {
            module_loaded: self.module_loaded,
            device: self.device@,
            device_exists: self.device_exists,
            device_busy: self.device_busy,
            config_matches: self.config_matches,
            requires_reload: self.requires_reload,
            slot_index: match self.slot_index {
                Some(i) => Some(i as int),
                None => None,
            },
            reasons: self.reasons.deep_view(),
        }
    }
}

/// The token list read from one raw parameter file; an unreadable file
/// contributes no tokens.
pub open spec fn tokens_of(p: Option<Seq<char>>) -> Seq<Seq<char>> {
    match p {
        Some(r) => split_param_csv_of(r),
        None => Seq::empty(),
    }
}

/// The slot index of the target device number: the position of its decimal
/// form in the configured device-number list, defined only when the module
/// is loaded.
pub open spec fn slot_of(sys: SysProbeView, nr: int) -> Option<int> {
    if sys.module_loaded {
        find_token(tokens_of(sys.video_nr_param), dec_of(nr))
    } else {
        None
    }
}

/// Whether the label list agrees with the desired label at the slot; a
/// list too short to reach the slot is treated as agreement.
pub open spec fn label_ok_at(labels: Seq<Seq<char>>, i: int, label: Seq<char>) -> bool {
    i >= labels.len() || labels[i] == label
}

/// Whether the exclusive-caps list agrees with the desired flag at the
/// slot, read with loose boolean semantics; an unparsable token is a
/// mismatch, a list too short to reach the slot is agreement.
pub open spec fn excl_ok_at(excls: Seq<Seq<char>>, i: int, excl: bool) -> bool {
    i >= excls.len() || parse_bool_token_of(excls[i]) == Some(excl)
}

/// Whether the effective configuration matches the desired one: a slot was
/// found and both the label and the exclusive flag agree there.
pub open spec fn config_matches_of(sys: SysProbeView, nr: int, label: Seq<char>, excl: bool) -> bool {
    match slot_of(sys, nr) {
        Some(i) => label_ok_at(tokens_of(sys.card_label_param), i, label) && excl_ok_at(
            tokens_of(sys.exclusive_caps_param),
            i,
            excl,
        ),
        None => false,
    }
}

/// The ordered mismatch reasons, in detection order: the device check
/// first, then the module and parameter checks.
pub open spec fn reasons_of(sys: SysProbeView, nr: int, label: Seq<char>, excl: bool) -> Seq<
    Seq<char>,
> {
    (if !sys.device_exists {
        seq!["device_missing"@]
    } else {
        Seq::empty()
    }) + (if !sys.module_loaded {
        seq!["module_not_loaded"@]
    } else {
        (if sys.video_nr_param is None {
            seq!["video_nr_param_unavailable"@]
        } else {
            Seq::empty()
        }) + match slot_of(sys, nr) {
            None => seq!["video_nr_not_configured"@],
            Some(i) => (if !label_ok_at(tokens_of(sys.card_label_param), i, label) {
                seq!["label_mismatch"@]
            } else {
                Seq::empty()
            }) + (if !excl_ok_at(tokens_of(sys.exclusive_caps_param), i, excl) {
                seq!["exclusive_caps_mismatch"@]
            } else {
                Seq::empty()
            }),
        }
    })
}

/// The full snapshot as a function of the target parameters and the
/// observed system state alone.
pub open spec fn inspect_model(nr: int, label: Seq<char>, excl: bool, sys: SysProbeView) -> InspectView {
    InspectView {
        module_loaded: sys.module_loaded,
        device: device_path_of(nr),
        device_exists: sys.device_exists,
        device_busy: sys.device_exists && sys.busy_probe,
        config_matches: config_matches_of(sys, nr, label, excl),
        requires_reload: !sys.module_loaded || !sys.device_exists || !config_matches_of(
            sys,
            nr,
            label,
            excl,
        ),
        slot_index: slot_of(sys, nr),
        reasons: reasons_of(sys, nr, label, excl),
    }
}

/// Builds the inspection snapshot for the target parameters from the
/// observed system state. The result is exactly [`inspect_model`], so two
/// inspections of the same observation are identical.
pub fn inspect_v4l2(video_nr: i64, label: &str, exclusive_caps: bool, sys: &SysProbe) -> (r:
    V4l2Inspect)
    requires
        0 <= video_nr <= 255,
    ensures
        r@ == inspect_model(video_nr as int, label@, exclusive_caps, sys@),
{
    let device = device_path(video_nr);
    let mut reasons: Vec<String> = Vec::new();
    if !sys.device_exists {
        reasons.push(String::from_str("device_missing"));
    }
    let ghost head = reasons.deep_view();
    proof {
        assert(head =~= (if !sys.device_exists {
            seq!["device_missing"@]
        } else {
            Seq::<Seq<char>>::empty()
        }));
    }
    let mut slot_index: Option<usize> = None;
    let mut config_matches = false;
    if !sys.module_loaded {
        reasons.push(String::from_str("module_not_loaded"));
        proof {
            assert(reasons.deep_view() =~= reasons_of(
                sys@,
                video_nr as int,
                label@,
                exclusive_caps,
            ));
        }
    } else {
        if sys.video_nr_param.is_none() {
            reasons.push(String::from_str("video_nr_param_unavailable"));
        }
        let nr_values = match &sys.video_nr_param {
            Some(v) => split_param_csv(v.as_str()),
            None => Vec::new(),
        };
        let label_values = match &sys.card_label_param {
            Some(v) => split_param_csv(v.as_str()),
            None => Vec::new(),
        };
        let excl_values = match &sys.exclusive_caps_param {
            Some(v) => split_param_csv(v.as_str()),
            None => Vec::new(),
        };
        proof {
            assert(nr_values.deep_view() =~= tokens_of(sys@.video_nr_param));
            assert(label_values.deep_view() =~= tokens_of(sys@.card_label_param));
            assert(excl_values.deep_view() =~= tokens_of(sys@.exclusive_caps_param));
        }
        let target = dec_string(video_nr);
        match position_of(&nr_values, target.as_str()) {
            None => {
                reasons.push(String::from_str("video_nr_not_configured"));
                proof {
                    assert(reasons.deep_view() =~= reasons_of(
                        sys@,
                        video_nr as int,
                        label@,
                        exclusive_caps,
                    ));
                }
            },
            Some(idx) => {
                slot_index = Some(idx);
                let mut label_ok = true;
                if idx < label_values.len() {
                    proof {
                        assert(label_values.deep_view()[idx as int] == label_values[idx as int]@);
                    }
                    if !str_eq(label_values[idx].as_str(), label) {
                        label_ok = false;
                        reasons.push(String::from_str("label_mismatch"));
                    }
                }
                proof {
                    assert(label_ok == label_ok_at(
                        tokens_of(sys@.card_label_param),
                        idx as int,
                        label@,
                    ));
                }
                let mut excl_ok = true;
                if idx < excl_values.len() {
                    proof {
                        assert(excl_values.deep_view()[idx as int] == excl_values[idx as int]@);
                    }
                    let parsed = parse_bool_token(excl_values[idx].as_str());
                    match parsed {
                        Some(p) => {
                            if p != exclusive_caps {
                                excl_ok = false;
                                reasons.push(String::from_str("exclusive_caps_mismatch"));
                            }
                        },
                        None => {
                            excl_ok = false;
                            reasons.push(String::from_str("exclusive_caps_mismatch"));
                        },
                    }
                }
                proof {
                    assert(excl_ok == excl_ok_at(
                        tokens_of(sys@.exclusive_caps_param),
                        idx as int,
                        exclusive_caps,
                    ));
                }
                config_matches = label_ok && excl_ok;
                proof {
                    assert(reasons.deep_view() =~= reasons_of(
                        sys@,
                        video_nr as int,
                        label@,
                        exclusive_caps,
                    ));
                }
            },
        }
    }
    let requires_reload = !sys.module_loaded || !sys.device_exists || !config_matches;
    let r = V4l2Inspect {
        module_loaded: sys.module_loaded,
        device,
        device_exists: sys.device_exists,
        device_busy: sys.device_exists && sys.busy_probe,
        config_matches,
        requires_reload,
        slot_index,
        reasons,
    };
    proof {
        assert(r@ =~= inspect_model(video_nr as int, label@, exclusive_caps, sys@));
    }
    r
}

/// Whether the kernel-module listing holds a line that begins with the
/// module name followed by a space: an exact-prefix match, so a module
/// whose name merely shares a prefix does not count.
pub open spec fn module_listed_of(listing: Seq<char>, module: Seq<char>) -> bool {
    exists|k: int|
        0 <= k < split_on(listing, '\n').len() && starts_with_of(
            split_on(listing, '\n')[k],
            module.push(' '),
        )
}

/// Scans a kernel-module listing for the module, line by line.
pub fn module_listed(listing: &str, module: &str) -> (r: bool)
    ensures
        r == module_listed_of(listing@, module@),
{
    let lines = split_plain(listing, '\n');
    let prefix = String::from_str(module).concat(" ");
    proof {
        reveal_strlit(" ");
        assert(prefix@ =~= module@.push(' '));
    }
    let ghost ls = lines.deep_view();
    let mut k: usize = 0;
    while k < lines.len()
        invariant
            k <= lines.len() == ls.len(),
            ls == lines.deep_view(),
            ls == split_on(listing@, '\n'),
            prefix@ == module@.push(' '),
            forall|j: int| 0 <= j < k ==> !starts_with_of(ls[j], module@.push(' ')),
        decreases lines.len() - k,
    {
        proof {
            assert(ls[k as int] == lines[k as int]@);
        }
        if str_starts_with(lines[k].as_str(), prefix.as_str()) {
            return true;
        }
        k += 1;
    }
    false
}

/// An inspection is deterministic: a snapshot is a function of the target
/// parameters and the observed system state alone, so two snapshots of the
/// same observation are equal.
pub proof fn lemma_inspect_deterministic(
    r1: InspectView,
    r2: InspectView,
    nr: int,
    label: Seq<char>,
    excl: bool,
    sys: SysProbeView,
)
    requires
        r1 == inspect_model(nr, label, excl, sys),
        r2 == inspect_model(nr, label, excl, sys),
    ensures
        r1 == r2,
{
}

/// A matching configuration presupposes a loaded module and a found slot,
/// and then nothing requires a reload but a missing device node.
pub proof fn lemma_config_matches_needs_slot(
    nr: int,
    label: Seq<char>,
    excl: bool,
    sys: SysProbeView,
)
    ensures
        inspect_model(nr, label, excl, sys).config_matches ==> sys.module_loaded && inspect_model(
            nr,
            label,
            excl,
            sys,
        ).slot_index is Some,
        inspect_model(nr, label, excl, sys).requires_reload == (!sys.module_loaded
            || !sys.device_exists || !inspect_model(nr, label, excl, sys).config_matches),
{
}

/// When the module is not loaded, no configuration can match and no slot
/// is found, whatever the desired label and flag.
pub proof fn lemma_not_loaded_never_matches(nr: int, label: Seq<char>, excl: bool, sys: SysProbeView)
    requires
        !sys.module_loaded,
    ensures
        !inspect_model(nr, label, excl, sys).config_matches,
        inspect_model(nr, label, excl, sys).slot_index is None,
        inspect_model(nr, label, excl, sys).requires_reload,
{
}

} // verus!
