use service_scaler::labels::{same_text, StringMap};

fn map(pairs: &[(&str, &str)]) -> StringMap {
    let mut m = StringMap::new();
    for (k, v) in pairs {
        m.insert(k.to_string(), v.to_string());
    }
    m
}

#[test]
fn new_map_is_empty() {
    let m = StringMap::new();
    assert!(m.is_empty());
    assert_eq!(m.get("app"), None);
}

#[test]
fn inserted_value_is_found() {
    let m = map(&[("app", "web"), ("tier", "front")]);
    assert!(!m.is_empty());
    assert_eq!(m.get("app").unwrap(), "web");
    assert_eq!(m.get("tier").unwrap(), "front");
    assert_eq!(m.get("ap"), None);
    assert_eq!(m.get(""), None);
}

#[test]
fn later_insert_replaces_earlier() {
    let m = map(&[("app", "web"), ("tier", "front"), ("app", "api")]);
    assert_eq!(m.get("app").unwrap(), "api");
    assert_eq!(m.get("tier").unwrap(), "front");
}

#[test]
fn append_overlays_the_other_map() {
    let mut m = map(&[("app", "web"), ("tier", "front")]);
    let other = map(&[("tier", "back"), ("zone", "a")]);
    m.append(&other);
    assert_eq!(m.get("app").unwrap(), "web");
    assert_eq!(m.get("tier").unwrap(), "back");
    assert_eq!(m.get("zone").unwrap(), "a");
    assert_eq!(other.get("tier").unwrap(), "back");
}

#[test]
fn append_of_empty_changes_nothing() {
    let mut m = map(&[("app", "web")]);
    m.append(&StringMap::new());
    assert_eq!(m.get("app").unwrap(), "web");
    let mut e = StringMap::new();
    e.append(&StringMap::new());
    assert!(e.is_empty());
}

#[test]
fn duplicate_has_the_same_entries() {
    let m = map(&[("app", "web"), ("app", "api"), ("zone", "a")]);
    let d = m.duplicate();
    assert_eq!(d.get("app").unwrap(), "api");
    assert_eq!(d.get("zone").unwrap(), "a");
    assert_eq!(d.get("tier"), None);
}

#[test]
fn texts_are_compared_by_content() {
    assert!(same_text("cpu", "cpu"));
    assert!(!same_text("cpu", "CPU"));
    assert!(!same_text("cpu", "cpu "));
    assert!(same_text("", ""));
}
