use avream_helper::params::{
    parse_empty_params, parse_video_params, JsonParams, ParamEntry, ParamValue,
};
use avream_helper::protocol::{parse_action, ActionKind};
use avream_helper::{valid_label, validate_request_id};

fn obj(entries: Vec<(&str, ParamValue)>) -> JsonParams {
    JsonParams::Obj {
        entries: entries
            .into_iter()
            .map(|(k, v)| ParamEntry {
                key: k.to_string(),
                value: v,
            })
            .collect(),
    }
}

#[test]
fn test_valid_label() {
    assert!(valid_label("AVream Camera"));
    assert!(valid_label("AVream_Cam-1"));
    assert!(!valid_label(""));
    assert!(!valid_label("bad/label"));
}

#[test]
fn test_request_id_validation() {
    assert!(validate_request_id("a-b_c.123").is_ok());
    assert!(validate_request_id("").is_err());
    assert!(validate_request_id("bad id").is_err());
}

#[test]
fn test_request_id_length_bounds() {
    let long_ok: String = "a".repeat(128);
    assert!(validate_request_id(&long_ok).is_ok());
    let too_long: String = "a".repeat(129);
    assert!(validate_request_id(&too_long).is_err());
}

#[test]
fn test_parse_video_params_invalid_range() {
    let params = obj(vec![("video_nr", ParamValue::Int(999))]);
    let err = parse_video_params(&params).err().unwrap();
    assert!(err.contains("range"));
}

#[test]
fn test_parse_video_params_defaults() {
    let params = obj(vec![]);
    let parsed = parse_video_params(&params).unwrap();
    assert_eq!(parsed.video_nr, 10);
    assert_eq!(parsed.label, "AVream Camera");
    assert!(parsed.exclusive_caps);
    assert!(!parsed.force);
    assert!(!parsed.always_reload);
}

#[test]
fn test_parse_video_params_rejects_unknown_key() {
    let params = obj(vec![
        ("video_nr", ParamValue::Int(10)),
        ("oops", ParamValue::Bool(true)),
    ]);
    let err = parse_video_params(&params).err().unwrap();
    assert!(err.contains("unsupported param"));
}

#[test]
fn test_noop_rejects_params() {
    assert!(validate_request_id("rid-1").is_ok());
    assert_eq!(parse_action("noop"), ActionKind::Noop);
    let params = obj(vec![("x", ParamValue::Int(1))]);
    assert!(parse_empty_params(&params).is_err());
}

#[test]
fn test_parse_video_params_rejects_wrong_types() {
    let params = obj(vec![
        ("video_nr", ParamValue::Str("10".to_string())),
        ("exclusive_caps", ParamValue::Str("true".to_string())),
    ]);
    let err = parse_video_params(&params).err().unwrap();
    assert!(err.contains("must be"));
}

#[test]
fn test_parse_video_params_rejects_bad_label() {
    let params = obj(vec![("label", ParamValue::Str("bad/label".to_string()))]);
    let err = parse_video_params(&params).err().unwrap();
    assert!(err.contains("label"));
    let too_long = "x".repeat(65);
    let params = obj(vec![("label", ParamValue::Str(too_long))]);
    assert!(parse_video_params(&params).is_err());
}

#[test]
fn test_parse_video_params_non_object() {
    let err = parse_video_params(&JsonParams::NonObj).err().unwrap();
    assert_eq!(err, "params must be an object");
    assert!(parse_empty_params(&JsonParams::NonObj).is_err());
}

#[test]
fn test_parse_video_params_explicit_values() {
    let params = obj(vec![
        ("video_nr", ParamValue::Int(0)),
        ("label", ParamValue::Str("Cam 2".to_string())),
        ("exclusive_caps", ParamValue::Bool(false)),
        ("force", ParamValue::Bool(true)),
        ("always_reload", ParamValue::Bool(true)),
    ]);
    let parsed = parse_video_params(&params).unwrap();
    assert_eq!(parsed.video_nr, 0);
    assert_eq!(parsed.label, "Cam 2");
    assert!(!parsed.exclusive_caps);
    assert!(parsed.force);
    assert!(parsed.always_reload);
}

#[test]
fn test_parse_empty_params_accepts_empty_object() {
    assert!(parse_empty_params(&obj(vec![])).is_ok());
}

#[test]
fn test_parse_action_names() {
    assert_eq!(parse_action("v4l2.status"), ActionKind::V4l2Status);
    assert_eq!(parse_action("v4l2.ensure_config"), ActionKind::V4l2EnsureConfig);
    assert_eq!(parse_action("v4l2.load"), ActionKind::V4l2Load);
    assert_eq!(parse_action("v4l2.reload"), ActionKind::V4l2Reload);
    assert_eq!(parse_action("snd_aloop.status"), ActionKind::SndStatus);
    assert_eq!(parse_action("snd_aloop.load"), ActionKind::SndLoad);
    assert_eq!(parse_action("snd_aloop.unload"), ActionKind::SndUnload);
    assert_eq!(parse_action("bogus"), ActionKind::Unknown);
}
