use avream_helper::config::{dec_string, device_path, render_config};
use avream_helper::protocol::{outcome_code, outcome_ok, outcome_reason, outcome_reloaded, ErrorCode};
use avream_helper::reload::{
    decide_reload, reload_start, reload_step, CmdOutcome, ReloadDecision, ReloadEvent,
    ReloadOutcome, ReloadStep, POLL_ATTEMPTS,
};
use avream_helper::{inspect_v4l2, module_listed, modprobe_load, modprobe_unload, SysProbe, V4l2Inspect};

fn probe(
    module_loaded: bool,
    device_exists: bool,
    busy_probe: bool,
    nrs: Option<&str>,
    labels: Option<&str>,
    excls: Option<&str>,
) -> SysProbe {
    SysProbe {
        module_loaded,
        device_exists,
        busy_probe,
        video_nr_param: nrs.map(|s| s.to_string()),
        card_label_param: labels.map(|s| s.to_string()),
        exclusive_caps_param: excls.map(|s| s.to_string()),
    }
}

fn matching_probe(busy: bool) -> SysProbe {
    probe(
        true,
        true,
        busy,
        Some("10\n"),
        Some("AVream Camera\n"),
        Some("1\n"),
    )
}

fn snapshot(device_busy: bool, requires_reload: bool) -> V4l2Inspect {
    V4l2Inspect {
        module_loaded: true,
        device: "/dev/video10".to_string(),
        device_exists: true,
        device_busy,
        config_matches: !requires_reload,
        requires_reload,
        slot_index: Some(0),
        reasons: Vec::new(),
    }
}

#[test]
fn test_inspect_matching_config() {
    let before = inspect_v4l2(10, "AVream Camera", true, &matching_probe(false));
    assert!(before.module_loaded);
    assert_eq!(before.device, "/dev/video10");
    assert!(before.device_exists);
    assert!(!before.device_busy);
    assert!(before.config_matches);
    assert!(!before.requires_reload);
    assert_eq!(before.slot_index, Some(0));
    assert!(before.reasons.is_empty());
}

#[test]
fn test_inspect_is_deterministic() {
    let a = inspect_v4l2(7, "Cam", false, &probe(true, false, true, Some("3,7"), Some("X,Cam"), Some("0,0")));
    let b = inspect_v4l2(7, "Cam", false, &probe(true, false, true, Some("3,7"), Some("X,Cam"), Some("0,0")));
    assert_eq!(a.module_loaded, b.module_loaded);
    assert_eq!(a.device, b.device);
    assert_eq!(a.device_exists, b.device_exists);
    assert_eq!(a.device_busy, b.device_busy);
    assert_eq!(a.config_matches, b.config_matches);
    assert_eq!(a.requires_reload, b.requires_reload);
    assert_eq!(a.slot_index, b.slot_index);
    assert_eq!(a.reasons, b.reasons);
}

#[test]
fn test_inspect_module_not_loaded() {
    let snap = inspect_v4l2(10, "AVream Camera", true, &probe(false, false, false, None, None, None));
    assert!(!snap.module_loaded);
    assert!(!snap.config_matches);
    assert_eq!(snap.slot_index, None);
    assert!(snap.requires_reload);
    assert_eq!(snap.reasons, vec!["device_missing", "module_not_loaded"]);
}

#[test]
fn test_inspect_slot_alignment_and_mismatches() {
    let sys = probe(
        true,
        true,
        false,
        Some("2, 10 ,44"),
        Some("Other, \"Wrong Label\" ,Third"),
        Some("1,0,1"),
    );
    let snap = inspect_v4l2(10, "AVream Camera", true, &sys);
    assert_eq!(snap.slot_index, Some(1));
    assert!(!snap.config_matches);
    assert!(snap.requires_reload);
    assert_eq!(snap.reasons, vec!["label_mismatch", "exclusive_caps_mismatch"]);
}

#[test]
fn test_inspect_short_lists_are_tolerated() {
    let sys = probe(true, true, false, Some("10"), Some(""), Some(""));
    let snap = inspect_v4l2(10, "AVream Camera", true, &sys);
    assert_eq!(snap.slot_index, Some(0));
    assert!(snap.config_matches);
    assert!(!snap.requires_reload);
}

#[test]
fn test_inspect_unparsable_excl_is_mismatch() {
    let sys = probe(true, true, false, Some("10"), Some("AVream Camera"), Some("maybe"));
    let snap = inspect_v4l2(10, "AVream Camera", false, &sys);
    assert!(!snap.config_matches);
    assert_eq!(snap.reasons, vec!["exclusive_caps_mismatch"]);
}

#[test]
fn test_inspect_nr_param_unavailable() {
    let sys = probe(true, false, false, None, Some("AVream Camera"), Some("1"));
    let snap = inspect_v4l2(10, "AVream Camera", true, &sys);
    assert!(!snap.config_matches);
    assert_eq!(
        snap.reasons,
        vec!["device_missing", "video_nr_param_unavailable", "video_nr_not_configured"]
    );
}

#[test]
fn test_decide_reload_all_sixteen_combinations() {
    for &busy in &[false, true] {
        for &req in &[false, true] {
            for &force in &[false, true] {
                for &always in &[false, true] {
                    let got = decide_reload(&snapshot(busy, req), force, always);
                    let want = if busy && !force && !req && !always {
                        ReloadDecision::AlreadyReadyBusy
                    } else if busy && !force {
                        ReloadDecision::RejectBusy
                    } else if !req && !always {
                        ReloadDecision::AlreadyReady
                    } else {
                        ReloadDecision::Reload
                    };
                    assert_eq!(got, want, "busy={busy} req={req} force={force} always={always}");
                }
            }
        }
    }
}

#[test]
fn test_busy_but_already_ready_scenario() {
    let before = inspect_v4l2(10, "AVream Camera", true, &matching_probe(true));
    assert!(before.device_busy);
    assert!(before.config_matches);
    let decision = decide_reload(&before, false, false);
    assert_eq!(decision, ReloadDecision::AlreadyReadyBusy);
    let start = reload_start(&before, false, false);
    let outcome = match start {
        ReloadStep::Done { outcome } => outcome,
        other => panic!("expected a final state, got {:?}", other),
    };
    assert_eq!(outcome, ReloadOutcome::BusyButReady);
    assert!(outcome_ok(outcome));
    assert!(!outcome_reloaded(outcome));
    assert_eq!(outcome_reason(outcome), Some("busy_but_already_ready"));
    assert_eq!(outcome_code(outcome), None);
}

#[test]
fn test_busy_mismatch_rejected_scenario() {
    let sys = probe(true, true, true, Some("10"), Some("Other Label"), Some("1"));
    let before = inspect_v4l2(10, "AVream Camera", true, &sys);
    assert!(before.device_busy);
    assert!(!before.config_matches);
    let decision = decide_reload(&before, false, false);
    assert_eq!(decision, ReloadDecision::RejectBusy);
    let start = reload_start(&before, false, false);
    let outcome = match start {
        ReloadStep::Done { outcome } => outcome,
        other => panic!("expected a final state, got {:?}", other),
    };
    assert_eq!(outcome, ReloadOutcome::RejectedBusy);
    assert!(!outcome_ok(outcome));
    assert_eq!(outcome_code(outcome), Some(ErrorCode::BusyDevice));
    assert_eq!(outcome_code(outcome).unwrap().as_str(), "E_BUSY_DEVICE");
}

#[test]
fn test_force_overrides_busy_protection() {
    let sys = probe(true, true, true, Some("10"), Some("Other Label"), Some("1"));
    let before = inspect_v4l2(10, "AVream Camera", true, &sys);
    assert_eq!(decide_reload(&before, true, false), ReloadDecision::Reload);
    assert_eq!(
        reload_start(&before, true, false),
        ReloadStep::WriteConfig { unload_first: true }
    );
}

#[test]
fn test_always_reload_forces_reload() {
    let before = inspect_v4l2(10, "AVream Camera", true, &matching_probe(false));
    assert!(!before.requires_reload);
    assert_eq!(decide_reload(&before, false, true), ReloadDecision::Reload);
}

#[test]
fn test_reload_machine_success_run() {
    let sys = probe(false, false, false, None, None, None);
    let before = inspect_v4l2(10, "AVream Camera", true, &sys);
    let mut s = reload_start(&before, false, false);
    assert_eq!(s, ReloadStep::WriteConfig { unload_first: false });
    s = reload_step(s, ReloadEvent::ConfigWritten { ok: true });
    assert_eq!(s, ReloadStep::LoadModule);
    s = reload_step(s, ReloadEvent::LoadFinished { result: CmdOutcome::Success });
    assert_eq!(s, ReloadStep::AwaitDevice { probes_left: POLL_ATTEMPTS });
    s = reload_step(s, ReloadEvent::DeviceProbed { exists: false });
    assert_eq!(s, ReloadStep::AwaitDevice { probes_left: POLL_ATTEMPTS - 1 });
    s = reload_step(s, ReloadEvent::DeviceProbed { exists: true });
    assert_eq!(s, ReloadStep::VerifyConfig);
    s = reload_step(s, ReloadEvent::Inspected { config_matches: true });
    assert_eq!(s, ReloadStep::Done { outcome: ReloadOutcome::Reloaded });
    let outcome = ReloadOutcome::Reloaded;
    assert!(outcome_ok(outcome));
    assert!(outcome_reloaded(outcome));
    assert_eq!(outcome_reason(outcome), None);
}

#[test]
fn test_reload_machine_unloads_loaded_module_first() {
    let sys = probe(true, true, false, Some("3"), Some("Other"), Some("0"));
    let before = inspect_v4l2(10, "AVream Camera", true, &sys);
    let mut s = reload_start(&before, false, false);
    assert_eq!(s, ReloadStep::WriteConfig { unload_first: true });
    s = reload_step(s, ReloadEvent::ConfigWritten { ok: true });
    assert_eq!(s, ReloadStep::UnloadModule);
    s = reload_step(s, ReloadEvent::UnloadFinished);
    assert_eq!(s, ReloadStep::LoadModule);
}

#[test]
fn test_reload_machine_device_never_appears() {
    let mut s = ReloadStep::AwaitDevice { probes_left: POLL_ATTEMPTS };
    for _ in 0..POLL_ATTEMPTS {
        s = reload_step(s, ReloadEvent::DeviceProbed { exists: false });
    }
    assert_eq!(s, ReloadStep::Done { outcome: ReloadOutcome::DeviceMissing });
    assert_eq!(
        outcome_code(ReloadOutcome::DeviceMissing),
        Some(ErrorCode::DeviceMissing)
    );
    assert_eq!(ErrorCode::DeviceMissing.as_str(), "E_DEVICE_MISSING");
}

#[test]
fn test_reload_machine_verify_mismatch() {
    let s = reload_step(
        ReloadStep::VerifyConfig,
        ReloadEvent::Inspected { config_matches: false },
    );
    assert_eq!(s, ReloadStep::Done { outcome: ReloadOutcome::WrongConfig });
    assert_eq!(outcome_code(ReloadOutcome::WrongConfig), Some(ErrorCode::ConfigMismatch));
}

#[test]
fn test_reload_machine_tool_failures() {
    let missing = reload_step(
        ReloadStep::LoadModule,
        ReloadEvent::LoadFinished { result: CmdOutcome::NotFound },
    );
    assert_eq!(missing, ReloadStep::Done { outcome: ReloadOutcome::ToolMissing });
    assert_eq!(
        outcome_code(ReloadOutcome::ToolMissing),
        Some(ErrorCode::ModprobeNotFound)
    );
    let failed = reload_step(
        ReloadStep::LoadModule,
        ReloadEvent::LoadFinished { result: CmdOutcome::Failed },
    );
    assert_eq!(failed, ReloadStep::Done { outcome: ReloadOutcome::ToolFailed });
    assert_eq!(outcome_code(ReloadOutcome::ToolFailed), Some(ErrorCode::ModprobeFailed));
    let write_failed = reload_step(
        ReloadStep::WriteConfig { unload_first: false },
        ReloadEvent::ConfigWritten { ok: false },
    );
    assert_eq!(write_failed, ReloadStep::Done { outcome: ReloadOutcome::ConfigWriteFailed });
    assert_eq!(
        outcome_code(ReloadOutcome::ConfigWriteFailed),
        Some(ErrorCode::ConfigWrite)
    );
}

#[test]
fn test_second_reload_is_noop() {
    let after = inspect_v4l2(10, "AVream Camera", true, &matching_probe(false));
    assert!(after.config_matches);
    assert!(after.device_exists);
    assert_eq!(decide_reload(&after, false, false), ReloadDecision::AlreadyReady);
    assert_eq!(
        reload_start(&after, false, false),
        ReloadStep::Done { outcome: ReloadOutcome::AlreadyReady }
    );
    assert_eq!(outcome_reason(ReloadOutcome::AlreadyReady), Some("already_ready"));
    let busy_after = inspect_v4l2(10, "AVream Camera", true, &matching_probe(true));
    assert_eq!(
        reload_start(&busy_after, false, false),
        ReloadStep::Done { outcome: ReloadOutcome::BusyButReady }
    );
}

#[test]
fn test_render_config_exact_text() {
    let text = render_config(10, "AVream Camera", true).unwrap();
    assert_eq!(
        text,
        "# Managed by AVream\noptions v4l2loopback video_nr=10 card_label=\"AVream Camera\" exclusive_caps=1\n"
    );
    let text = render_config(0, "Cam", false).unwrap();
    assert_eq!(
        text,
        "# Managed by AVream\noptions v4l2loopback video_nr=0 card_label=\"Cam\" exclusive_caps=0\n"
    );
    let err = render_config(256, "Cam", false).err().unwrap();
    assert!(err.contains("range"));
}

#[test]
fn test_modprobe_argument_lists() {
    let args = modprobe_load(255, "AVream Camera", true);
    assert_eq!(
        args,
        vec!["v4l2loopback", "video_nr=255", "card_label=AVream Camera", "exclusive_caps=1"]
    );
    let args = modprobe_load(7, "Cam", false);
    assert_eq!(args, vec!["v4l2loopback", "video_nr=7", "card_label=Cam", "exclusive_caps=0"]);
    assert_eq!(modprobe_unload(), vec!["-r", "v4l2loopback"]);
}

#[test]
fn test_device_path_and_dec_string() {
    assert_eq!(device_path(0), "/dev/video0");
    assert_eq!(device_path(10), "/dev/video10");
    assert_eq!(device_path(255), "/dev/video255");
    assert_eq!(dec_string(100), "100");
    assert_eq!(dec_string(99), "99");
}

#[test]
fn test_module_listed_exact_prefix() {
    let listing = "v4l2loopback_dc 20480 0 - Live\nv4l2loopback 49152 2 - Live\n";
    assert!(module_listed(listing, "v4l2loopback"));
    assert!(module_listed(listing, "v4l2loopback_dc"));
    assert!(!module_listed(listing, "v4l2"));
    assert!(!module_listed(listing, "snd_aloop"));
    assert!(!module_listed("", "v4l2loopback"));
}
