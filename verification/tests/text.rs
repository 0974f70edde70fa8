use newrelic_unofficial::string_map::StringMap;
use newrelic_unofficial::text::find_char;
use newrelic_unofficial::text::split_text;
use newrelic_unofficial::text::str_eq;

#[test]
fn test_find_char() {
    assert_eq!(find_char("", 'x'), None);
    assert_eq!(find_char("abc", 'x'), None);
    assert_eq!(find_char("xbx", 'x'), Some(0));
    assert_eq!(find_char("abx", 'x'), Some(2));
    // Positions count characters, not bytes.
    assert_eq!(find_char("éüx", 'x'), Some(2));
}

#[test]
fn test_split_text() {
    assert_eq!(split_text("", ';'), vec![""]);
    assert_eq!(split_text("a", ';'), vec!["a"]);
    assert_eq!(split_text("a;b;c", ';'), vec!["a", "b", "c"]);
    assert_eq!(split_text(";a;;b;", ';'), vec!["", "a", "", "b", ""]);
    assert_eq!(split_text("é;ü", ';'), vec!["é", "ü"]);
}

#[test]
fn test_str_eq() {
    assert!(str_eq("", ""));
    assert!(str_eq("cpu", "cpu"));
    assert!(!str_eq("cpu", "cpuacct"));
    assert!(!str_eq("cpu", "cpv"));
    assert!(str_eq("é", "é"));
    assert!(!str_eq("é", "e"));
}

#[test]
fn test_string_map() {
    let mut map = StringMap::new();
    assert!(map.is_empty());
    assert_eq!(map.get("a"), None);
    map.insert("a", "1");
    map.insert("b", "2");
    map.insert("a", "3");
    assert_eq!(map.len(), 2);
    assert!(!map.is_empty());
    assert_eq!(map.key_at(0), "a");
    assert_eq!(map.value_at(0), "3");
    assert_eq!(map.key_at(1), "b");
    assert_eq!(map.value_at(1), "2");
    assert_eq!(map.get("a"), Some("3"));
    assert_eq!(map.get("b"), Some("2"));
    assert_eq!(map.get("c"), None);
    let copy = map.clone();
    map.insert("c", "4");
    assert_eq!(copy.len(), 2);
    assert_eq!(copy.get("a"), Some("3"));
    assert_eq!(map.len(), 3);
}
