use fluxdown_native::task_table::TaskTable;

#[test]
fn insert_replaces_the_value_of_a_task() {
    let mut t: TaskTable<i32> = TaskTable::new();
    t.insert("a".to_string(), 1);
    t.insert("a".to_string(), 2);
    assert_eq!(t.len(), 1);
    assert_eq!(t.get("a"), Some(&2));
}

#[test]
fn remove_hands_back_the_value() {
    let mut t: TaskTable<String> = TaskTable::new();
    t.insert("a".to_string(), "x".to_string());
    t.insert("b".to_string(), "y".to_string());
    assert_eq!(t.remove("a"), Some("x".to_string()));
    assert_eq!(t.remove("a"), None);
    assert_eq!(t.len(), 1);
    assert_eq!(t.get("b").map(|s| s.as_str()), Some("y"));
}

#[test]
fn entries_list_each_task_once() {
    let mut t: TaskTable<u8> = TaskTable::new();
    t.insert("a".to_string(), 1);
    t.insert("b".to_string(), 2);
    t.insert("a".to_string(), 3);
    let mut entries: Vec<(String, u8)> = t.entries().to_vec();
    entries.sort();
    assert_eq!(entries, vec![("a".to_string(), 3), ("b".to_string(), 2)]);
}

#[test]
fn retain_ids_keeps_only_named_tasks() {
    let mut t: TaskTable<u8> = TaskTable::new();
    for (id, v) in [("a", 1), ("b", 2), ("c", 3)] {
        t.insert(id.to_string(), v);
    }
    t.retain_ids(&["b".to_string(), "z".to_string()]);
    assert_eq!(t.len(), 1);
    assert_eq!(t.get("b"), Some(&2));
    assert!(!t.contains_key("z"));
}
