use community::flat;
use community::storage::Storage;
use community::string_map::StringMap;

#[test]
fn string_map_insert_get_remove() {
    let mut m: StringMap<String> = StringMap::new();
    assert!(m.get(&"a".to_string()).is_none());
    m.insert("a".to_string(), "1".to_string());
    m.insert("b".to_string(), "2".to_string());
    assert_eq!(m.get(&"a".to_string()), Some(&"1".to_string()));
    assert_eq!(m.get(&"b".to_string()), Some(&"2".to_string()));
    m.insert("a".to_string(), "3".to_string());
    assert_eq!(m.get(&"a".to_string()), Some(&"3".to_string()));
    assert!(m.contains_key(&"b".to_string()));
    m.remove(&"b".to_string());
    assert!(!m.contains_key(&"b".to_string()));
    assert_eq!(m.get(&"a".to_string()), Some(&"3".to_string()));
    m.remove(&"missing".to_string());
    assert_eq!(m.get(&"a".to_string()), Some(&"3".to_string()));
}

#[test]
fn string_map_extend_prefers_the_new_values() {
    let mut m: StringMap<Vec<u8>> = StringMap::new();
    m.insert("x".to_string(), vec![1]);
    m.insert("y".to_string(), vec![2]);
    let mut other: StringMap<Vec<u8>> = StringMap::new();
    other.insert("y".to_string(), vec![9]);
    other.insert("z".to_string(), vec![3]);
    m.extend(other);
    assert_eq!(m.get(&"x".to_string()), Some(&vec![1]));
    assert_eq!(m.get(&"y".to_string()), Some(&vec![9]));
    assert_eq!(m.get(&"z".to_string()), Some(&vec![3]));
}

#[test]
fn storage_reads_back_what_was_written() {
    let mut st = Storage::new();
    assert!(!st.has_param("k"));
    st.set_param("k", b"one");
    assert!(st.has_param("k"));
    st.set_param("j", b"two");
    assert_eq!(st.get_param("k"), b"one".to_vec());
    st.set_param("k", b"three");
    assert_eq!(st.get_param("k"), b"three".to_vec());
    assert_eq!(st.get_param("j"), b"two".to_vec());
}

#[test]
fn flat_store_apps_files_each_app_under_its_name() {
    let mut st = Storage::new();
    st.set_param("other", b"kept");
    st.set_param("voting", b"old");
    let mut m: StringMap<String> = StringMap::new();
    m.insert("voting".to_string(), "0xvote".to_string());
    m.insert("token".to_string(), "0xtok".to_string());
    flat::store_apps(&mut st, m);
    assert_eq!(st.get_param("voting"), b"0xvote".to_vec());
    assert_eq!(st.get_param("token"), b"0xtok".to_vec());
    assert_eq!(st.get_param("other"), b"kept".to_vec());
}
