use feature::cli::config_cmd::{ArrayArgs, SetArgs, UnsetArgs, WhichConfig};
use feature::cli::error::CliError;

fn s(x: &str) -> String {
    x.to_string()
}

fn array(key: &str, values: &[&str]) -> ArrayArgs {
    ArrayArgs { which: WhichConfig::Project, global: false, key: s(key), values: values.iter().map(|v| s(v)).collect() }
}

fn parsed(text: &str) -> toml::Table {
    text.parse::<toml::Table>().unwrap()
}

#[test]
fn append_creates_and_extends_arrays() {
    let out = array("protect", &["main", "dev"]).append_config("default_remote = \"origin\"\n").unwrap().unwrap();
    let t = parsed(&out);
    assert_eq!(t["protect"].as_array().unwrap().len(), 2);
    assert_eq!(t["default_remote"].as_str(), Some("origin"));
    let out = array("protect", &["x"]).append_config("protect = [\"main\"]\n").unwrap().unwrap();
    let t = parsed(&out);
    let a: Vec<&str> = t["protect"].as_array().unwrap().iter().map(|v| v.as_str().unwrap()).collect();
    assert_eq!(a, vec!["main", "x"]);
    assert!(array("protect", &[]).append_config("not toml [").unwrap().is_none());
}

#[test]
fn remove_undoes_append_in_the_file() {
    let text = "protect = [\"main\", 3]\n";
    let args = array("protect", &["a", "b"]);
    let appended = args.append_config(text).unwrap().unwrap();
    let removed = args.remove_config(&appended).unwrap().unwrap();
    assert_eq!(parsed(&removed), parsed(text));
    assert!(array("missing", &["a"]).remove_config(text).unwrap().is_none());
}

#[test]
fn array_edit_errors() {
    match array("default_remote", &["a"]).append_config("default_remote = \"origin\"\n") {
        Err(CliError::Generic(m)) => assert_eq!(m, "Not an array: default_remote"),
        _ => panic!(),
    }
    match array("protect", &["a"]).remove_config("protect = [") {
        Err(CliError::Config(_)) => {},
        _ => panic!(),
    }
}

fn set(key: &str, value: &str) -> SetArgs {
    SetArgs { which: WhichConfig::User, global: false, key: s(key), value: s(value) }
}

#[test]
fn set_writes_values() {
    let out = set("format.log", "%h").set_config("default_remote = \"origin\"\n").unwrap();
    let t = parsed(&out);
    assert_eq!(t["format"]["log"].as_str(), Some("%h"));
    let out = set("default_remote", "up").set_config(&out).unwrap();
    let t = parsed(&out);
    assert_eq!(t["default_remote"].as_str(), Some("up"));
    assert_eq!(t["format"]["log"].as_str(), Some("%h"));
    match set("nope", "x").set_config("") {
        Err(CliError::Generic(m)) => assert_eq!(m, "Unrecognized key: nope"),
        _ => panic!(),
    }
}

#[test]
fn unset_removes_keys_and_reports() {
    let args = UnsetArgs { which: WhichConfig::Local, global: false, keys: vec![s("default_remote"), s("nope")] };
    let (out, lines) = args.unset_config("default_remote = \"origin\"\nprotect = []\n").unwrap();
    let t = parsed(&out);
    assert!(t.get("default_remote").is_none());
    assert!(t.get("protect").is_some());
    assert_eq!(lines[0], Ok(s("Removed default_remote (was \"origin\")")));
    assert_eq!(lines[1], Err(s("Unrecognized key: nope")));
}

#[test]
fn set_refuses_a_plain_parent() {
    assert!(set("format.log", "%h").set_config_checked("format = \"x\"\n").is_none());
    let out = set("format.log", "%h").set_config_checked("[format]\nbranch = \"b\"\n").unwrap().unwrap();
    assert_eq!(parsed(&out)["format"]["branch"].as_str(), Some("b"));
    assert!(matches!(set("format.log", "%h").set_config_checked("["), Some(Err(CliError::Config(_)))));
}
