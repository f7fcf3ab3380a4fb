use translator_abi::registry::{build_registry, extension_matches, select_libraries, LibraryFile, PluginCandidate, PluginRegistry};

fn file(path: &str, ext: Option<&str>) -> LibraryFile {
    LibraryFile { path: path.to_string(), extension: ext.map(|e| e.to_string()) }
}

fn cand(path: &str, name: Option<&str>) -> PluginCandidate {
    PluginCandidate { path: path.to_string(), name: name.map(|n| n.to_string()) }
}

#[test]
fn extension_compare_respects_case_where_asked() {
    assert!(extension_matches("so", "so", false));
    assert!(!extension_matches("SO", "so", false));
    assert!(extension_matches("DLL", "dll", true));
    assert!(extension_matches("Dll", "dll", true));
    assert!(!extension_matches("dl", "dll", true));
    assert!(!extension_matches("dylib", "so", true));
}

#[test]
fn only_library_files_are_selected_in_order() {
    let files = vec![
        file("/p/a.so", Some("so")),
        file("/p/readme.txt", Some("txt")),
        file("/p/noext", None),
        file("/p/b.so", Some("so")),
        file("/p/C.SO", Some("SO")),
    ];
    assert_eq!(select_libraries(&files, "so", false), vec!["/p/a.so".to_string(), "/p/b.so".to_string()]);
    assert_eq!(
        select_libraries(&files, "so", true),
        vec!["/p/a.so".to_string(), "/p/b.so".to_string(), "/p/C.SO".to_string()]
    );
}

#[test]
fn registry_keeps_valid_names_and_last_path_wins() {
    let cands = vec![
        cand("/p/openai.so", Some("openai")),
        cand("/p/broken.so", None),
        cand("/p/qwen.so", Some("qwen")),
        cand("/p/corrupt.so", None),
        cand("/p/openai2.so", Some("openai")),
    ];
    let r = build_registry(&cands);
    assert_eq!(r.len(), 2);
    assert_eq!(r.get(&"openai".to_string()), Some(&"/p/openai2.so".to_string()));
    assert_eq!(r.get(&"qwen".to_string()), Some(&"/p/qwen.so".to_string()));
    assert_eq!(r.get(&"broken".to_string()), None);
    let names: Vec<&str> = r.entries().iter().map(|(n, _)| n.as_str()).collect();
    assert_eq!(names, vec!["openai", "qwen"]);
}

#[test]
fn empty_discovery_gives_empty_registry() {
    let r = build_registry(&vec![]);
    assert_eq!(r.len(), 0);
    let r = build_registry(&vec![cand("/p/x.so", None)]);
    assert_eq!(r.len(), 0);
}

#[test]
fn registry_insert_replaces() {
    let mut r = PluginRegistry::new();
    r.insert("a".to_string(), "1".to_string());
    r.insert("b".to_string(), "2".to_string());
    r.insert("a".to_string(), "3".to_string());
    assert_eq!(r.len(), 2);
    assert_eq!(r.get(&"a".to_string()), Some(&"3".to_string()));
    assert_eq!(r.get(&"b".to_string()), Some(&"2".to_string()));
}
