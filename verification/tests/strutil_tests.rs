use obozrenie::strutil::{str_eq, str_starts_with};

#[test]
fn str_eq_compares_by_characters() {
    assert!(str_eq("", ""));
    assert!(str_eq("openarena", "openarena"));
    assert!(!str_eq("openarena", "openttd"));
    assert!(!str_eq("open", "openarena"));
    assert!(str_eq("серверы", "серверы"));
    assert!(!str_eq("серверы", "сервер"));
}

#[test]
fn str_starts_with_checks_prefixes() {
    assert!(str_starts_with("ioq3+oa 88", "ioq3+oa"));
    assert!(str_starts_with("anything", ""));
    assert!(!str_starts_with("ioq3", "ioq3+oa"));
    assert!(!str_starts_with("baseq3", "ioq3"));
    assert!(str_starts_with("q3dm17", "q3dm"));
}
