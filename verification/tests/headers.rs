use http_server::headers::HeaderMap;

fn entries(map: &HeaderMap) -> Vec<(String, String)> {
    (0..map.len()).map(|i| (map.name_at(i).clone(), map.value_at(i).clone())).collect()
}

fn pair(name: &str, value: &str) -> (String, String) {
    (name.to_string(), value.to_string())
}

#[test]
fn a_new_map_is_empty() {
    let map = HeaderMap::new();
    assert_eq!(map.len(), 0);
    assert_eq!(map.get("Host"), None);
}

#[test]
fn names_keep_the_order_of_their_first_insertion() {
    let mut map = HeaderMap::new();
    map.insert("Content-Length".to_string(), "15".to_string());
    map.insert("Content-Type".to_string(), "text/plain".to_string());
    map.insert("Accept".to_string(), "*/*".to_string());
    assert_eq!(
        entries(&map),
        vec![pair("Content-Length", "15"), pair("Content-Type", "text/plain"), pair("Accept", "*/*")]
    );
}

#[test]
fn the_last_value_of_a_name_wins_and_keeps_the_place() {
    let mut map = HeaderMap::new();
    map.insert("Host".to_string(), "a".to_string());
    map.insert("Accept".to_string(), "x".to_string());
    map.insert("Host".to_string(), "b".to_string());
    assert_eq!(entries(&map), vec![pair("Host", "b"), pair("Accept", "x")]);
    assert_eq!(map.get("Host"), Some(&"b".to_string()));
    assert_eq!(map.get("Accept"), Some(&"x".to_string()));
    assert_eq!(map.len(), 2);
}

#[test]
fn names_are_taken_as_received() {
    let mut map = HeaderMap::new();
    map.insert("host".to_string(), "a".to_string());
    map.insert("Host".to_string(), "b".to_string());
    assert_eq!(map.len(), 2);
    assert_eq!(map.get("host"), Some(&"a".to_string()));
    assert_eq!(map.get("Host"), Some(&"b".to_string()));
    assert_eq!(map.get("HOST"), None);
}
