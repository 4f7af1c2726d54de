use mosaic_node::environment::Environment;

#[test]
fn nothing_is_set_in_a_new_environment() {
    let env = Environment::new();
    assert_eq!(env.get("MOSAIC_ORIGIN_ADDRESS"), None);
    assert_eq!(env.get(""), None);
}

#[test]
fn a_variable_that_was_set_is_found() {
    let mut env = Environment::new();
    env.set("A", "1");
    env.set("B", "2");
    assert_eq!(env.get("A"), Some("1".to_string()));
    assert_eq!(env.get("B"), Some("2".to_string()));
    assert_eq!(env.get("C"), None);
}

#[test]
fn setting_again_replaces_the_value() {
    let mut env = Environment::new();
    env.set("A", "1");
    env.set("B", "2");
    env.set("A", "3");
    assert_eq!(env.get("A"), Some("3".to_string()));
    assert_eq!(env.get("B"), Some("2".to_string()));
}

#[test]
fn removing_unsets_only_the_named_variable() {
    let mut env = Environment::new();
    env.set("A", "1");
    env.set("B", "2");
    env.set("A", "3");
    env.remove("A");
    assert_eq!(env.get("A"), None);
    assert_eq!(env.get("B"), Some("2".to_string()));
}

#[test]
fn removing_what_is_not_set_changes_nothing() {
    let mut env = Environment::new();
    env.set("A", "1");
    env.remove("B");
    assert_eq!(env.get("A"), Some("1".to_string()));
    assert_eq!(env.get("B"), None);
}

#[test]
fn a_removed_variable_can_be_set_again() {
    let mut env = Environment::new();
    env.set("A", "1");
    env.remove("A");
    env.set("A", "2");
    assert_eq!(env.get("A"), Some("2".to_string()));
}

#[test]
fn names_are_compared_exactly() {
    let mut env = Environment::new();
    env.set("Name", "x");
    assert_eq!(env.get("name"), None);
    assert_eq!(env.get("Name "), None);
    assert_eq!(env.get("Name"), Some("x".to_string()));
}

#[test]
fn an_empty_value_is_still_set() {
    let mut env = Environment::new();
    env.set("A", "");
    assert_eq!(env.get("A"), Some(String::new()));
}
