use snapctx::rules::IgnoreRuleSet;

fn strings(parts: &[&str]) -> Vec<String> {
    parts.iter().map(|s| s.to_string()).collect()
}

#[test]
fn default_rules_hold_the_usual_names() {
    let rules = IgnoreRuleSet::default();
    assert_eq!(
        rules.names,
        strings(&[".git", "target", "node_modules", "build", "dist", "venv", "__pycache__"])
    );
    for name in [".git", "target", "node_modules", "build", "dist", "venv", "__pycache__"] {
        assert!(rules.contains(&name.to_string()), "{}", name);
    }
    assert!(!rules.contains(&"src".to_string()));
    assert!(!rules.contains(&"Target".to_string()));
    assert!(!rules.contains(&"".to_string()));
}

#[test]
fn a_path_is_blocked_by_any_of_its_components() {
    let rules = IgnoreRuleSet::default();
    assert!(rules.blocks(&strings(&["home", "me", "target", "debug", "x"])));
    assert!(rules.blocks(&strings(&["build"])));
    assert!(rules.blocks(&strings(&["a", "b", "__pycache__"])));
    assert!(!rules.blocks(&strings(&["home", "me", "targets"])));
    assert!(!rules.blocks(&Vec::new()));
}

#[test]
fn an_empty_rule_set_blocks_nothing() {
    let rules = IgnoreRuleSet::new(Vec::new());
    assert!(!rules.contains(&".git".to_string()));
    assert!(!rules.blocks(&strings(&[".git", "target"])));
}
