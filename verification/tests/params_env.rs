use demorunner::params::{
    has_name, is_valid_param_name, merge, render_value, validate_demoid, validate_runkey,
    ParamValue, RunParams,
};
use demorunner::text::{i64_to_string, str_eq, u64_to_string};

fn sample_params() -> RunParams {
    let mut p = RunParams::new();
    p.push("x".to_string(), ParamValue::PosInt(1));
    p.push("y".to_string(), ParamValue::Float("2.5".to_string()));
    p.push("z".to_string(), ParamValue::Str("t001".to_string()));
    p.push("a".to_string(), ParamValue::Bool(true));
    p.push("b".to_string(), ParamValue::NegInt(-2));
    p.push("param space".to_string(), ParamValue::Str("hi world".to_string()));
    p
}

#[test]
fn env_starts_with_demo_id_and_key() {
    let p = sample_params();
    let env = p.to_env_vec("t001", "test1");
    assert_eq!(env[0], "IPOL_DEMOID=t001");
    assert_eq!(env[1], "IPOL_KEY=test1");
    assert_eq!(
        env,
        vec![
            "IPOL_DEMOID=t001".to_string(),
            "IPOL_KEY=test1".to_string(),
            "x=1".to_string(),
            "y=2.5".to_string(),
            "z=t001".to_string(),
            "a=true".to_string(),
            "b=-2".to_string(),
            "param space=hi world".to_string(),
        ]
    );
}

#[test]
fn env_drops_denylisted_names() {
    let mut p = RunParams::new();
    p.push("PATH".to_string(), ParamValue::Str("/evil".to_string()));
    p.push("ok".to_string(), ParamValue::PosInt(7));
    p.push("LD_PRELOAD".to_string(), ParamValue::Str("x.so".to_string()));
    p.push("IPOL_DEMOID".to_string(), ParamValue::Str("spoof".to_string()));
    let env = p.to_env_vec("d", "k");
    assert_eq!(
        env,
        vec!["IPOL_DEMOID=d".to_string(), "IPOL_KEY=k".to_string(), "ok=7".to_string()]
    );
}

#[test]
fn denylist_membership() {
    for name in [
        "HOSTNAME",
        "PATH",
        "HOME",
        "LANG",
        "TERM",
        "LD_LIBRARY_PATH",
        "LD_PRELOAD",
        "PYTHONPATH",
        "PERLLIB",
        "RUBYLIB",
        "CLASSPATH",
        "NODE_PATH",
        "IPOL_DEMOID",
        "IPOL_KEY",
    ] {
        assert!(!is_valid_param_name(name));
    }
    assert!(is_valid_param_name("path"));
    assert!(is_valid_param_name("x"));
    assert!(is_valid_param_name(""));
}

#[test]
fn identifier_validation() {
    assert!(validate_demoid("t001"));
    assert!(validate_demoid("a_B_9"));
    assert!(!validate_demoid(""));
    assert!(!validate_demoid("a b"));
    assert!(!validate_demoid("a-b"));
    assert!(!validate_demoid("a/b"));
    assert!(validate_runkey("test_exec_and_wait"));
    assert!(!validate_runkey("key!"));
}

#[test]
fn value_rendering() {
    assert_eq!(u64_to_string(0), "0");
    assert_eq!(u64_to_string(10), "10");
    assert_eq!(u64_to_string(18446744073709551615), "18446744073709551615");
    assert_eq!(i64_to_string(0), "0");
    assert_eq!(i64_to_string(-2), "-2");
    assert_eq!(i64_to_string(-9223372036854775808), "-9223372036854775808");
    assert_eq!(i64_to_string(9223372036854775807), "9223372036854775807");
    assert_eq!(render_value(&ParamValue::Bool(true)), "true");
    assert_eq!(render_value(&ParamValue::Bool(false)), "false");
    assert_eq!(render_value(&ParamValue::Float("2.5".to_string())), "2.5");
    assert_eq!(render_value(&ParamValue::Str("hi".to_string())), "hi");
}

#[test]
fn string_equality_helper() {
    assert!(str_eq("abc", "abc"));
    assert!(!str_eq("abc", "abd"));
    assert!(!str_eq("abc", "ab"));
    assert!(str_eq("", ""));
}

#[test]
fn merge_later_entries_win() {
    let mut base = RunParams::new();
    base.push("x".to_string(), ParamValue::PosInt(1));
    base.push("y".to_string(), ParamValue::PosInt(2));
    let mut extra = RunParams::new();
    extra.push("y".to_string(), ParamValue::PosInt(9));
    extra.push("z".to_string(), ParamValue::PosInt(3));
    let merged = merge(base, extra);
    assert_eq!(
        merged.entries,
        vec![
            ("x".to_string(), ParamValue::PosInt(1)),
            ("y".to_string(), ParamValue::PosInt(9)),
            ("z".to_string(), ParamValue::PosInt(3)),
        ]
    );
    assert!(has_name(&merged, "z"));
    assert!(!has_name(&merged, "w"));
}
