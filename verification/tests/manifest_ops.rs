use vpm::{Manifest, ManifestError};

#[test]
fn creation_defaults() {
    let m = Manifest::new_default();
    let text = m.render();
    assert!(text.contains("[package]"));
    assert!(text.contains("name = \"my-vpm-package\""));
    assert!(text.contains("version = \"0.1.0\""));
    assert!(text.contains("<author-name> <author-email>"));
    assert!(text.contains("description = \"A vpm package\""));
    assert!(text.contains("license = \"LicenseRef-LICENSE\""));
    assert!(text.contains("[dependencies]"));
    let deps = m.get_dependencies().unwrap();
    assert_eq!(deps.len(), 0);
    // opening the created manifest a second time does not alter it
    let m2 = Manifest::from_text(&text).unwrap();
    assert_eq!(m2.render(), text);
}

#[test]
fn round_trip_preserves_formatting() {
    let text = "# project manifest\n[package]\nname = \"x\" # keep this comment\n\n\n[dependencies]\n\"https://github.com/a/b\" = { top_modules = [\"alu\"], commit = \"abc\" }\n";
    let m = Manifest::from_text(text).unwrap();
    assert_eq!(m.render(), text);
}

// The one normalization a load-persist cycle applies to a hand-written file:
// a missing final newline is added. A second cycle is then stable.
#[test]
fn round_trip_normalizes_missing_final_newline() {
    let unterminated = "[dependencies]\nrepoA = { top_modules = [], commit = \"\" }";
    let m = Manifest::from_text(unterminated).unwrap();
    let out = m.render();
    assert_eq!(out, format!("{unterminated}\n"));
    let m2 = Manifest::from_text(&out).unwrap();
    assert_eq!(m2.render(), out);
}

#[test]
fn add_dependency_idempotent() {
    let t1 = vpm::add_dependency(None, "github.com/x/y", Some("abc123")).unwrap();
    let t2 = vpm::add_dependency(Some(&t1), "github.com/x/y", Some("zzz999")).unwrap();
    assert_eq!(t1, t2);
    let m = Manifest::from_text(&t2).unwrap();
    let deps = m.get_dependencies().unwrap();
    assert_eq!(deps.len(), 1);
    assert_eq!(deps[0].0, "github.com/x/y");
    assert_eq!(deps[0].1.commit, "abc123");
    assert!(deps[0].1.top_modules.is_empty());
}

#[test]
fn module_membership() {
    let t = vpm::add_dependency(None, "repoA", None).unwrap();
    let t = vpm::add_top_module(Some(&t), "repoA", "cpu").unwrap();
    let t = vpm::add_top_module(Some(&t), "repoA", "cpu").unwrap();
    let m = Manifest::from_text(&t).unwrap();
    let deps = m.get_dependencies().unwrap();
    assert_eq!(deps[0].1.top_modules, vec!["cpu".to_string()]);
    let t = vpm::remove_top_module(Some(&t), "repoA", "cpu").unwrap();
    let m = Manifest::from_text(&t).unwrap();
    let deps = m.get_dependencies().unwrap();
    assert!(deps[0].1.top_modules.is_empty());
}

#[test]
fn multi_provider_lookup() {
    let t = vpm::add_dependency(None, "repoA", None).unwrap();
    let t = vpm::add_dependency(Some(&t), "repoB", None).unwrap();
    let t = vpm::add_top_module(Some(&t), "repoA", "alu").unwrap();
    let t = vpm::add_top_module(Some(&t), "repoB", "alu").unwrap();
    let links = vpm::get_repo_links(Some(&t), "alu").unwrap();
    assert_eq!(links, vec!["repoA".to_string(), "repoB".to_string()]);
    let none = vpm::get_repo_links(Some(&t), "missing").unwrap();
    assert!(none.is_empty());
}

#[test]
fn dangling_mutations_do_not_change_file() {
    let t = vpm::add_dependency(None, "repoA", Some("c1")).unwrap();
    let r = vpm::remove_dependency(Some(&t), "never-added").unwrap();
    assert_eq!(r, t);
    let r = vpm::remove_top_module(Some(&t), "never-added", "cpu").unwrap();
    assert_eq!(r, t);
    let r = vpm::remove_top_module(Some(&t), "repoA", "unlisted").unwrap();
    assert_eq!(r, t);
}

#[test]
fn end_to_end_scenario() {
    let t = vpm::add_dependency(None, "repo1", None).unwrap();
    let t = vpm::add_top_module(Some(&t), "repo1", "top").unwrap();
    // persist and reload happen through the rendered text itself
    let m = Manifest::from_text(&t).unwrap();
    let links = m.get_repo_links("top");
    assert_eq!(links, vec!["repo1".to_string()]);
    let deps = m.get_dependencies().unwrap();
    assert_eq!(deps.len(), 1);
    assert_eq!(deps[0].1.commit, "");
}

#[test]
fn reload_is_stable() {
    let t = vpm::add_dependency(None, "repoA", Some("c")).unwrap();
    let m = Manifest::from_text(&t).unwrap();
    let m2 = m.reload();
    assert_eq!(m2.render(), t);
    let deps = m2.get_dependencies().unwrap();
    assert_eq!(deps[0].0, "repoA");
    assert_eq!(deps[0].1.commit, "c");
}

#[test]
fn parse_error_reported() {
    let r = Manifest::from_text("= not toml");
    assert!(matches!(r, Err(ManifestError::Parse(_))));
    let r = vpm::add_dependency(Some("= not toml"), "x", None);
    assert!(matches!(r, Err(ManifestError::Parse(_))));
    let r = vpm::get_repo_links(Some("= not toml"), "x");
    assert!(matches!(r, Err(ManifestError::Parse(_))));
}

#[test]
fn missing_dependency_reported() {
    let t = vpm::add_dependency(None, "repoA", None).unwrap();
    let r = vpm::add_top_module(Some(&t), "repoB", "cpu");
    assert!(matches!(r, Err(ManifestError::MissingDependency)));
    let mut m = Manifest::from_text(&t).unwrap();
    assert!(m.add_top_module("repoB", "cpu").is_err());
    // a failed module addition leaves the manifest as it was
    assert_eq!(m.render(), t);
    // and a fresh default manifest holds no dependency at all
    let r = vpm::add_top_module(None, "repoA", "cpu");
    assert!(matches!(r, Err(ManifestError::MissingDependency)));
}

#[test]
fn error_messages() {
    let e = vpm::add_top_module(None, "r", "m").unwrap_err();
    assert_eq!(e.message(), "dependency not found in manifest");
    let e = match Manifest::from_text("= not toml") {
        Err(e) => e,
        Ok(_) => panic!("expected a parse failure"),
    };
    assert!(!e.message().is_empty());
}

#[test]
fn unrelated_records_keep_their_layout() {
    let text = "[dependencies]\n# keep me\nrepoA = { top_modules = [\"alu\"], commit = \"c1\" }\nrepoB = { top_modules = [], commit = \"\" }\n";
    let t = vpm::remove_dependency(Some(text), "repoB").unwrap();
    assert!(t.contains("# keep me"));
    assert!(t.contains("repoA = { top_modules = [\"alu\"], commit = \"c1\" }"));
    assert!(!t.contains("repoB"));
}

#[test]
fn module_edits_keep_record_layout_and_extra_fields() {
    let text = "[dependencies]\n# pinned on purpose\nrepoA = { top_modules = [\"alu\"], commit = \"c1\", note = \"keep\" }\n";
    let t = vpm::add_top_module(Some(text), "repoA", "cpu").unwrap();
    assert!(t.contains("# pinned on purpose"));
    assert!(t.contains("note = \"keep\""));
    assert!(t.contains("commit = \"c1\""));
    assert!(t.contains("\"alu\""));
    assert!(t.contains("\"cpu\""));
    let t2 = vpm::remove_top_module(Some(&t), "repoA", "cpu").unwrap();
    assert!(t2.contains("# pinned on purpose"));
    assert!(t2.contains("note = \"keep\""));
    assert!(t2.contains("commit = \"c1\""));
    assert!(t2.contains("\"alu\""));
    assert!(!t2.contains("cpu"));
}

#[test]
fn remove_top_module_removes_duplicates() {
    let text = "[dependencies]\nrepoA = { top_modules = [\"cpu\", \"alu\", \"cpu\"], commit = \"\" }\n";
    let t = vpm::remove_top_module(Some(text), "repoA", "cpu").unwrap();
    let m = Manifest::from_text(&t).unwrap();
    let deps = m.get_dependencies().unwrap();
    assert_eq!(deps[0].1.top_modules, vec!["alu".to_string()]);
}

#[test]
fn add_top_module_repairs_missing_list() {
    let text = "[dependencies]\nrepoA = { commit = \"c\" }\n";
    let t = vpm::add_top_module(Some(text), "repoA", "cpu").unwrap();
    let m = Manifest::from_text(&t).unwrap();
    let deps = m.get_dependencies().unwrap();
    assert_eq!(deps[0].1.top_modules, vec!["cpu".to_string()]);
    assert_eq!(deps[0].1.commit, "c");
}

#[test]
fn malformed_dependencies_section() {
    let text = "dependencies = 5\n";
    let m = Manifest::from_text(text).unwrap();
    assert!(m.get_dependencies().is_none());
    assert!(m.get_repo_links("x").is_empty());
    // removal is a silent no-op on it
    let r = vpm::remove_dependency(Some(text), "a").unwrap();
    assert_eq!(r, text);
    // adding a dependency replaces the malformed section with a real table
    let t = vpm::add_dependency(Some(text), "repoA", None).unwrap();
    let m2 = Manifest::from_text(&t).unwrap();
    let deps = m2.get_dependencies().unwrap();
    assert_eq!(deps.len(), 1);
    assert_eq!(deps[0].0, "repoA");
}

#[test]
fn dependencies_read_in_table_order() {
    let t = vpm::add_dependency(None, "repoB", Some("b")).unwrap();
    let t = vpm::add_dependency(Some(&t), "repoA", Some("a")).unwrap();
    let m = Manifest::from_text(&t).unwrap();
    let deps = m.get_dependencies().unwrap();
    assert_eq!(deps.len(), 2);
    assert_eq!(deps[0].0, "repoB");
    assert_eq!(deps[1].0, "repoA");
}

// The created manifest's whole text, held against the contract's pinned form.
#[test]
fn creation_text_exact() {
    let text = vpm::Manifest::new_default().render();
    assert_eq!(
        text,
        "[package]\nname = \"my-vpm-package\"\nversion = \"0.1.0\"\nauthors = [\"<author-name> <author-email>\"]\ndescription = \"A vpm package\"\nlicense = \"LicenseRef-LICENSE\"\n\n[dependencies]\n"
    );
}

// A hand-written sub-table record survives every operation, but rendering
// moves it after the inline records: the records' set is kept, not their
// order.
#[test]
fn subtable_records_survive_as_a_set() {
    let text = "[dependencies.repoA]\ncommit = \"c\"\ntop_modules = [\"alu\"]\n";
    let t = vpm::add_dependency(Some(text), "repoB", None).unwrap();
    let m = vpm::Manifest::from_text(&t).unwrap();
    let deps = m.get_dependencies().unwrap();
    assert_eq!(deps.len(), 2);
    let mut links: Vec<&str> = deps.iter().map(|p| p.0.as_str()).collect();
    links.sort();
    assert_eq!(links, vec!["repoA", "repoB"]);
    let by_a = deps.iter().find(|p| p.0 == "repoA").unwrap();
    assert_eq!(by_a.1.commit, "c");
    assert_eq!(by_a.1.top_modules, vec!["alu".to_string()]);
    let links = vpm::get_repo_links(Some(&t), "alu").unwrap();
    assert_eq!(links, vec!["repoA".to_string()]);
}
