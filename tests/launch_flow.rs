use mui_context_server::error::ErrorKind;
use mui_context_server::launch::{Action, Event, LaunchDescriptor, Resolver, Stage};
use mui_context_server::layout::{HELPER_PACKAGE, HELPER_VERSION_RANGE, MANIFEST_CONTENT};
use mui_context_server::settings::UserSettings;
use zed_extension_api::serde_json::{self, Value};

const ROOT: &str = "/ext";
const BINARY: &str = "/ext/node_modules/@mui/mcp/dist/stdio.cjs.js";
const NODE: &str = "/usr/bin/node";

fn expect_probe(a: Action, path: &str) {
    match a {
        Action::Probe(p) => assert_eq!(p, path),
        _ => panic!("expected a probe of {}", path),
    }
}

fn expect_install(a: Action) {
    match a {
        Action::Install { package, version } => {
            assert_eq!(package, "@mui/mcp");
            assert_eq!(version, "^0.1.0");
        }
        _ => panic!("expected an install"),
    }
}

fn expect_query(a: Action) {
    assert!(matches!(a, Action::QueryNodePath));
}

fn expect_launch(a: Action) -> LaunchDescriptor {
    match a {
        Action::Launch(d) => d,
        _ => panic!("expected a launch"),
    }
}

fn expect_fail(a: Action, kind: ErrorKind) -> String {
    match a {
        Action::Fail(e) => {
            assert_eq!(e.kind, kind);
            e.message()
        }
        _ => panic!("expected a failure"),
    }
}

fn node_ok() -> Event {
    Event::NodePath(Ok(NODE.to_string()))
}

#[test]
fn no_settings_binary_absent_installs_then_launches() {
    let (mut r, a) = Resolver::start(Ok(None), ROOT);
    expect_probe(a, BINARY);
    expect_probe(r.step(Event::Exists(false)), "/ext/package.json");
    match r.step(Event::Exists(false)) {
        Action::WriteManifest { path, content } => {
            assert_eq!(path, "/ext/package.json");
            assert_eq!(content, MANIFEST_CONTENT);
        }
        _ => panic!("expected the manifest to be written"),
    }
    expect_install(r.step(Event::Written(Ok(()))));
    expect_probe(r.step(Event::Installed(Ok(()))), BINARY);
    expect_query(r.step(Event::Exists(true)));
    let d = expect_launch(r.step(node_ok()));
    assert_eq!(d.command, NODE);
    assert_eq!(d.args, vec![BINARY.to_string()]);
    assert!(d.env.is_empty());
    assert_eq!(r.stage, Stage::Done);
}

#[test]
fn existing_manifest_is_not_rewritten() {
    let (mut r, _) = Resolver::start(Ok(None), ROOT);
    expect_probe(r.step(Event::Exists(false)), "/ext/package.json");
    expect_install(r.step(Event::Exists(true)));
}

#[test]
fn both_settings_binary_present() {
    let s = UserSettings {
        preferred_theme: Some("dark".to_string()),
        component_filter: Some(vec!["Button".to_string(), "Dialog".to_string(), "Tabs".to_string()]),
    };
    let (mut r, a) = Resolver::start(Ok(Some(s)), ROOT);
    expect_probe(a, BINARY);
    expect_query(r.step(Event::Exists(true)));
    let d = expect_launch(r.step(node_ok()));
    assert_eq!(
        d.env,
        vec![
            ("MUI_PREFERRED_THEME".to_string(), "dark".to_string()),
            ("MUI_COMPONENT_FILTER".to_string(), "Button,Dialog,Tabs".to_string()),
        ]
    );
    assert_eq!(d.args, vec![BINARY.to_string()]);
}

#[test]
fn filter_only_installer_fails() {
    let s = UserSettings { preferred_theme: None, component_filter: Some(vec!["Grid".to_string()]) };
    let (mut r, _) = Resolver::start(Ok(Some(s)), ROOT);
    r.step(Event::Exists(false));
    assert!(matches!(r.step(Event::Exists(false)), Action::WriteManifest { .. }));
    expect_install(r.step(Event::Written(Ok(()))));
    let msg = expect_fail(
        r.step(Event::Installed(Err("npm exited with status 1".to_string()))),
        ErrorKind::Install,
    );
    assert_eq!(msg, "npm exited with status 1");
    assert_eq!(r.stage, Stage::Done);
}

#[test]
fn installer_succeeds_binary_still_missing() {
    let (mut r, _) = Resolver::start(Ok(None), ROOT);
    r.step(Event::Exists(false));
    expect_install(r.step(Event::Exists(true)));
    expect_probe(r.step(Event::Installed(Ok(()))), BINARY);
    let msg = expect_fail(r.step(Event::Exists(false)), ErrorKind::PostInstallMissingBinary);
    assert!(msg.contains(BINARY));
    assert_eq!(
        msg,
        "Failed to install @mui/mcp package or binary not found at /ext/node_modules/@mui/mcp/dist/stdio.cjs.js"
    );
}

#[test]
fn malformed_settings_fail_with_parser_message() {
    let diag = "invalid type: string \"Button\", expected a sequence".to_string();
    let (r, a) = Resolver::start(Err(diag.clone()), ROOT);
    assert_eq!(expect_fail(a, ErrorKind::SettingsParse), diag);
    assert_eq!(r.stage, Stage::Done);
    assert!(!r.accepts_event(&Event::Exists(true)));
}

#[test]
fn manifest_write_failure() {
    let (mut r, _) = Resolver::start(Ok(None), ROOT);
    r.step(Event::Exists(false));
    r.step(Event::Exists(false));
    let msg = expect_fail(
        r.step(Event::Written(Err("permission denied".to_string()))),
        ErrorKind::ManifestWrite,
    );
    assert_eq!(msg, "permission denied");
}

#[test]
fn node_path_failure() {
    let (mut r, _) = Resolver::start(Ok(None), ROOT);
    expect_query(r.step(Event::Exists(true)));
    let msg = expect_fail(
        r.step(Event::NodePath(Err("no node".to_string()))),
        ErrorKind::HostRuntimePath,
    );
    assert_eq!(msg, "no node");
}

#[test]
fn second_launch_with_binary_present_touches_nothing() {
    let first = {
        let (mut r, _) = Resolver::start(Ok(None), ROOT);
        r.step(Event::Exists(false));
        r.step(Event::Exists(true));
        r.step(Event::Installed(Ok(())));
        r.step(Event::Exists(true));
        expect_launch(r.step(node_ok()))
    };
    let (mut r, a) = Resolver::start(Ok(None), ROOT);
    expect_probe(a, BINARY);
    expect_query(r.step(Event::Exists(true)));
    let second = expect_launch(r.step(node_ok()));
    assert_eq!(first.command, second.command);
    assert_eq!(first.args, second.args);
    assert_eq!(first.env, second.env);
}

#[test]
fn accepts_only_the_awaited_answer() {
    let (r, _) = Resolver::start(Ok(None), ROOT);
    assert!(r.accepts_event(&Event::Exists(false)));
    assert!(!r.accepts_event(&Event::Installed(Ok(()))));
    assert!(!r.accepts_event(&node_ok()));
}

#[test]
fn manifest_parses_to_canonical_object() {
    let parsed: Value = serde_json::from_str(MANIFEST_CONTENT).unwrap();
    let mut deps = serde_json::Map::new();
    deps.insert("@mui/mcp".to_string(), Value::String("^0.1.0".to_string()));
    let mut m = serde_json::Map::new();
    m.insert("name".to_string(), Value::String("mcp-mui-server-wrapper".to_string()));
    m.insert("version".to_string(), Value::String("1.0.0".to_string()));
    m.insert("type".to_string(), Value::String("module".to_string()));
    m.insert("dependencies".to_string(), Value::Object(deps));
    assert_eq!(parsed, Value::Object(m));
    assert_eq!(HELPER_PACKAGE, "@mui/mcp");
    assert_eq!(HELPER_VERSION_RANGE, "^0.1.0");
}
