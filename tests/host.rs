use recorder_host::browser::{Browser, UnknownBrowser};
use recorder_host::contract::{
    decode_match_answer, decode_plugin_info, MatchResult, PluginError, PluginInfo, Version, WitValue,
};
use recorder_host::manager::{
    first_match, is_plugin_path, Answer, Candidate, Outcome, PluginManager, Server, StartError,
};
use recorder_host::plugin::{
    info_from_answer, info_request, match_from_answer, match_request, CallError, LoadError, PluginObject,
};

/// A component implementing the plugin interface: it reports `name` and
/// classifies every URL as a video when `matches`, refuses it otherwise.
fn plugin_source(name: &str, matches: bool) -> Vec<u8> {
    let verdict = if matches { 0 } else { 1 };
    format!(
        r#"(component
  (core module $m
    (memory (export "mem") 1)
    (data (i32.const 16) "{name}")
    (func (export "realloc") (param i32 i32 i32 i32) (result i32) i32.const 1024)
    (func (export "get-info") (result i32)
      (i32.store (i32.const 100) (i32.const 16))
      (i32.store (i32.const 104) (i32.const {len}))
      i32.const 100)
    (func (export "match-url") (param i32 i32) (result i32)
      (i32.store8 (i32.const 200) (i32.const {verdict}))
      i32.const 200))
  (core instance $i (instantiate $m))
  (type $version (record (field "major" u32) (field "minor" u32) (field "build" u32)))
  (export $version-e "version" (type $version))
  (type $info (record (field "name" string) (field "author" (option string))
    (field "description" (option string)) (field "version" (option $version-e))
    (field "arguments" (option (list string)))))
  (export $info-e "plugin-info" (type $info))
  (type $mr (enum "video"))
  (export $mr-e "match-result" (type $mr))
  (func $get-info (result $info-e)
    (canon lift (core func $i "get-info") (memory (core memory $i "mem")) (realloc (core func $i "realloc"))))
  (func $match-url (param "url" string) (result (result $mr-e))
    (canon lift (core func $i "match-url") (memory (core memory $i "mem")) (realloc (core func $i "realloc"))))
  (instance $iface
    (export "version" (type $version-e))
    (export "plugin-info" (type $info-e))
    (export "match-result" (type $mr-e))
    (export "get-info" (func $get-info))
    (export "match-url" (func $match-url)))
  (export "recorder-plugin" (instance $iface)))"#,
        name = name,
        len = name.len(),
        verdict = verdict
    )
    .into_bytes()
}

/// A component whose identity query traps.
fn trapping_source() -> Vec<u8> {
    String::from_utf8(plugin_source("T", true))
        .unwrap()
        .replace(
            "(func (export \"get-info\") (result i32)",
            "(func (export \"get-info\") (result i32) unreachable",
        )
        .into_bytes()
}

fn candidate(path: &str, contents: Vec<u8>) -> Candidate {
    Candidate { path: path.to_string(), contents: Ok(contents) }
}

fn loaded_name(o: &Outcome) -> Option<String> {
    match o {
        Outcome::Loaded(info) => Some(info.name.clone()),
        _ => None,
    }
}

fn opt(v: Option<WitValue>) -> WitValue {
    WitValue::Opt(v.map(Box::new))
}

fn info_record(name: &str) -> WitValue {
    WitValue::Record(vec![
        ("name".to_string(), WitValue::Str(name.to_string())),
        ("author".to_string(), opt(Some(WitValue::Str("Dummy".to_string())))),
        ("description".to_string(), opt(None)),
        (
            "version".to_string(),
            opt(Some(WitValue::Record(vec![
                ("major".to_string(), WitValue::U32(1)),
                ("minor".to_string(), WitValue::U32(2)),
                ("build".to_string(), WitValue::U32(3)),
            ]))),
        ),
        (
            "arguments".to_string(),
            opt(Some(WitValue::List(vec![WitValue::Str("cookie".to_string())]))),
        ),
    ])
}

#[test]
fn browser_names_in_any_case() {
    assert_eq!(Browser::from_str("firefox"), Ok(Browser::Firefox));
    assert_eq!(Browser::from_str("FireFox"), Ok(Browser::Firefox));
    assert_eq!(Browser::from_str("CHROME"), Ok(Browser::Chrome));
    assert_eq!(Browser::from_str("Edge"), Ok(Browser::Edge));
}

#[test]
fn browser_unknown_name() {
    assert_eq!(Browser::from_str("opera"), Err(UnknownBrowser {}));
    assert_eq!(Browser::from_str(""), Err(UnknownBrowser {}));
    assert_eq!(UnknownBrowser {}.message(), "unknown option");
}

#[test]
fn plugin_paths_by_extension() {
    assert!(is_plugin_path("a.wasm"));
    assert!(is_plugin_path("/root/plugins/b.wasm"));
    assert!(is_plugin_path("..wasm"));
    assert!(!is_plugin_path("b.txt"));
    assert!(!is_plugin_path(".wasm"));
    assert!(!is_plugin_path("dir/.wasm"));
    assert!(!is_plugin_path("a.wasm.txt"));
    assert!(!is_plugin_path("a.WASM"));
    assert!(!is_plugin_path("wasm"));
}

#[test]
fn decode_full_info() {
    let info = decode_plugin_info(&info_record("DummyPlugin")).unwrap();
    assert_eq!(info.name, "DummyPlugin");
    assert_eq!(info.author, Some("Dummy".to_string()));
    assert_eq!(info.description, None);
    assert_eq!(info.version, Some(Version { major: 1, minor: 2, build: 3 }));
    assert_eq!(info.arguments, Some(vec!["cookie".to_string()]));
    let copy = info.duplicate();
    assert_eq!(copy.name, info.name);
    assert_eq!(copy.arguments, info.arguments);
}

#[test]
fn decode_rejects_bad_info() {
    assert!(decode_plugin_info(&info_record("")).is_none());
    assert!(decode_plugin_info(&WitValue::Str("A".to_string())).is_none());
    assert!(decode_plugin_info(&WitValue::Record(vec![])).is_none());
    let bad_list = WitValue::Record(vec![
        ("name".to_string(), WitValue::Str("A".to_string())),
        ("author".to_string(), opt(None)),
        ("description".to_string(), opt(None)),
        ("version".to_string(), opt(None)),
        ("arguments".to_string(), opt(Some(WitValue::List(vec![WitValue::U32(1)])))),
    ]);
    assert!(decode_plugin_info(&bad_list).is_none());
}

#[test]
fn decode_match_answers() {
    let video = WitValue::Res(Ok(Some(Box::new(WitValue::Enum("video".to_string())))));
    assert_eq!(decode_match_answer(&video), Some(Ok(MatchResult::Video)));
    let refused = WitValue::Res(Err(None));
    assert_eq!(decode_match_answer(&refused), Some(Err(PluginError {})));
    let other = WitValue::Res(Ok(Some(Box::new(WitValue::Enum("audio".to_string())))));
    assert_eq!(decode_match_answer(&other), None);
    assert_eq!(decode_match_answer(&WitValue::Other), None);
}

#[test]
fn answers_to_results() {
    let failed = info_from_answer(Err(CallError::Failed("trap".to_string())));
    assert_eq!(failed.map(|i| i.name), Err(CallError::Failed("trap".to_string())));
    assert_eq!(info_from_answer(Ok(WitValue::Other)).map(|i| i.name), Err(CallError::BadAnswer));
    assert_eq!(info_from_answer(Ok(info_record("A"))).map(|i| i.name), Ok("A".to_string()));
    assert_eq!(match_from_answer(Err(CallError::MissingExport)), Err(CallError::MissingExport));
    assert_eq!(match_from_answer(Ok(WitValue::U32(0))), Err(CallError::BadAnswer));
}

#[test]
fn first_match_earliest_wins() {
    let both: Vec<Answer> = vec![Ok(Ok(MatchResult::Video)), Ok(Ok(MatchResult::Video))];
    assert_eq!(first_match(&both), Some((0, MatchResult::Video)));
    let later: Vec<Answer> = vec![
        Err(CallError::Failed("trap".to_string())),
        Ok(Err(PluginError {})),
        Ok(Ok(MatchResult::Video)),
    ];
    assert_eq!(first_match(&later), Some((2, MatchResult::Video)));
    let none: Vec<Answer> = vec![Ok(Err(PluginError {})), Err(CallError::BadAnswer)];
    assert_eq!(first_match(&none), None);
    assert_eq!(first_match(&vec![]), None);
}

#[test]
fn empty_directory_refuses_start() {
    let mut pm = PluginManager::new().unwrap();
    let reports = pm.discover(&vec![]);
    assert!(reports.is_empty());
    assert_eq!(pm.plugin_count(), 0);
    let err = Server::new(pm).err().unwrap();
    assert_eq!(err, StartError::NoPlugins);
    assert_eq!(err.message(), "no plugin exists");
}

#[test]
fn discover_keeps_valid_and_skips_others() {
    let mut pm = PluginManager::new().unwrap();
    let candidates = vec![
        candidate("root/a.wasm", plugin_source("A", true)),
        candidate("root/b.txt", b"irrelevant".to_vec()),
        candidate("root/c.wasm", b"\0asm corrupt".to_vec()),
    ];
    let reports = pm.discover(&candidates);
    assert_eq!(reports.len(), 3);
    assert_eq!(loaded_name(&reports[0].outcome), Some("A".to_string()));
    assert!(matches!(reports[1].outcome, Outcome::Skipped));
    assert!(matches!(reports[2].outcome, Outcome::Failed(LoadError::Format(_))));
    assert_eq!(reports[2].path, "root/c.wasm");
    assert_eq!(pm.plugin_count(), 1);
    assert_eq!(pm.plugin(0).info().name, "A");
    let server = Server::new(pm).ok().unwrap();
    assert_eq!(server.dispatch("http://video.example/x").0, Some((0, MatchResult::Video)));
}

#[test]
fn discover_order_ignores_failures() {
    let mut pm = PluginManager::new().unwrap();
    let candidates = vec![
        candidate("x/one.wasm", plugin_source("One", false)),
        Candidate { path: "x/gone.wasm".to_string(), contents: Err("denied".to_string()) },
        candidate("x/trap.wasm", trapping_source()),
        candidate("x/empty.wasm", b"(component)".to_vec()),
        candidate("x/two.wasm", plugin_source("Two", true)),
    ];
    let reports = pm.discover(&candidates);
    assert!(matches!(&reports[1].outcome, Outcome::Unreadable(m) if m == "denied"));
    assert!(matches!(
        reports[2].outcome,
        Outcome::Failed(LoadError::Identity(CallError::Failed(_)))
    ));
    assert!(matches!(
        reports[3].outcome,
        Outcome::Failed(LoadError::Interface)
    ));
    assert_eq!(pm.plugin_count(), 2);
    assert_eq!(pm.plugin(0).info().name, "One");
    assert_eq!(pm.plugin(1).info().name, "Two");
    let server = Server::new(pm).ok().unwrap();
    assert_eq!(server.dispatch("http://video.example/x").0, Some((1, MatchResult::Video)));
}

#[test]
fn two_matching_plugins_first_discovered_wins() {
    let mut pm = PluginManager::new().unwrap();
    let candidates = vec![
        candidate("a.wasm", plugin_source("A", true)),
        candidate("b.wasm", plugin_source("B", true)),
    ];
    pm.discover(&candidates);
    let server = Server::new(pm).ok().unwrap();
    assert_eq!(server.dispatch("http://video.example/x").0, Some((0, MatchResult::Video)));
}

#[test]
fn no_plugin_matches() {
    let mut pm = PluginManager::new().unwrap();
    let info = pm.load_plugin(&plugin_source("N", false)).unwrap();
    assert_eq!(info.name, "N");
    let server = Server::new(pm).ok().unwrap();
    assert_eq!(server.dispatch("not a url").0, None);
}

#[test]
fn instances_agree_on_info_and_match() {
    let pm = PluginManager::new().unwrap();
    let source = plugin_source("A", true);
    let plugin = PluginObject::from_file(pm.linker(), &source).unwrap();
    let mut first = plugin.get_instance(pm.linker()).ok().unwrap();
    let mut second = plugin.get_instance(pm.linker()).ok().unwrap();
    let a = first.get_info().unwrap();
    let b = second.get_info().unwrap();
    assert_eq!(a.name, b.name);
    assert_eq!(a.version, b.version);
    assert_eq!(a.name, plugin.info().name);
    let url = "http://video.example/x";
    assert_eq!(first.match_url(url), second.match_url(url));
    assert_eq!(first.match_url(url), Ok(Ok(MatchResult::Video)));
}

#[test]
fn reload_gives_same_info() {
    let pm = PluginManager::new().unwrap();
    let source = plugin_source("Again", true);
    let first = PluginObject::from_file(pm.linker(), &source).unwrap();
    let name = first.info().name.clone();
    drop(first);
    let second = PluginObject::from_file(pm.linker(), &source).unwrap();
    assert_eq!(second.info().name, name);
    assert_eq!(second.info().author, None);
}

#[test]
fn load_failure_leaves_registry_unchanged() {
    let mut pm = PluginManager::new().unwrap();
    pm.load_plugin(&plugin_source("A", true)).unwrap();
    let err = pm.load_plugin(b"not a component").err().unwrap();
    assert!(matches!(err, LoadError::Format(_)));
    assert_eq!(pm.plugin_count(), 1);
    let info: PluginInfo = pm.plugin(0).info().clone();
    assert_eq!(info.name, "A");
}

#[test]
fn instance_needs_the_loading_linker() {
    let pm = PluginManager::new().unwrap();
    let other = PluginManager::new().unwrap();
    let plugin = PluginObject::from_file(pm.linker(), &plugin_source("A", true)).unwrap();
    assert!(matches!(plugin.get_instance(other.linker()), Err(LoadError::Instantiate(_))));
    assert!(plugin.get_instance(pm.linker()).is_ok());
}

#[test]
fn requests_name_the_contract_functions() {
    let (name, args) = info_request();
    assert_eq!(name, "get-info");
    assert!(args.is_empty());
    let (name, args) = match_request("http://video.example/x");
    assert_eq!(name, "match-url");
    assert_eq!(args, vec!["http://video.example/x".to_string()]);
}

#[test]
fn decode_checks_field_names() {
    let renamed = WitValue::Record(vec![
        ("title".to_string(), WitValue::Str("A".to_string())),
        ("author".to_string(), opt(None)),
        ("description".to_string(), opt(None)),
        ("version".to_string(), opt(None)),
        ("arguments".to_string(), opt(None)),
    ]);
    assert!(decode_plugin_info(&renamed).is_none());
}

#[test]
fn dispatch_reports_answers_received() {
    let mut pm = PluginManager::new().unwrap();
    let candidates = vec![
        candidate("n.wasm", plugin_source("N", false)),
        candidate("a.wasm", plugin_source("A", true)),
        candidate("b.wasm", plugin_source("B", true)),
    ];
    pm.discover(&candidates);
    let server = Server::new(pm).ok().unwrap();
    let (selected, answers) = server.dispatch("http://video.example/x");
    assert_eq!(selected, Some((1, MatchResult::Video)));
    assert_eq!(answers, vec![Ok(Err(PluginError {})), Ok(Ok(MatchResult::Video))]);
}
