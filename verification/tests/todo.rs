use pomodoro::todo::TodoList;

#[test]
fn new_list_is_empty() {
    let l = TodoList::new();
    assert_eq!(l.get_all().len(), 0);
    assert_eq!(l.next_id, 1);
    assert_eq!(l.get_completed_count(), 0);
    assert_eq!(l.get_pending_count(), 0);
}

#[test]
fn add_assigns_increasing_ids() {
    let mut l = TodoList::new();
    l.add_at("first".to_string(), 10);
    l.add_at("second".to_string(), 20);
    l.add_at("third".to_string(), 30);
    assert_eq!(l.next_id, 4);
    let all = l.get_all();
    assert_eq!(all.len(), 3);
    assert_eq!(all[0].id, 3);
    assert_eq!(all[0].title, "third");
    assert!(!all[0].completed);
    assert_eq!(all[0].created_at, 30);
}

#[test]
fn get_all_sorts_newest_first_keeping_insertion_order_on_ties() {
    let mut l = TodoList::new();
    l.add_at("old".to_string(), 5);
    l.add_at("newest".to_string(), 50);
    l.add_at("middle a".to_string(), 20);
    l.add_at("middle b".to_string(), 20);
    let all = l.get_all();
    let titles: Vec<&str> = all.iter().map(|t| t.title.as_str()).collect();
    assert_eq!(titles, ["newest", "middle a", "middle b", "old"]);
    for w in all.windows(2) {
        assert!(w[0].created_at >= w[1].created_at);
    }
}

#[test]
fn toggle_flips_only_the_matching_entry() {
    let mut l = TodoList::new();
    l.add_at("a".to_string(), 1);
    l.add_at("b".to_string(), 2);
    l.toggle(1);
    let all = l.get_all();
    let a = all.iter().find(|t| t.id == 1).unwrap();
    let b = all.iter().find(|t| t.id == 2).unwrap();
    assert!(a.completed);
    assert!(!b.completed);
    l.toggle(1);
    let all = l.get_all();
    assert!(!all.iter().find(|t| t.id == 1).unwrap().completed);
}

#[test]
fn toggle_unknown_id_changes_nothing() {
    let mut l = TodoList::new();
    l.add_at("a".to_string(), 1);
    l.toggle(99);
    let all = l.get_all();
    assert_eq!(all.len(), 1);
    assert!(!all[0].completed);
}

#[test]
fn delete_removes_only_the_matching_entry() {
    let mut l = TodoList::new();
    l.add_at("a".to_string(), 1);
    l.add_at("b".to_string(), 2);
    l.add_at("c".to_string(), 3);
    l.delete(2);
    let all = l.get_all();
    assert_eq!(all.len(), 2);
    assert!(all.iter().all(|t| t.id != 2));
    l.delete(42); // unknown identifier: a no-op
    assert_eq!(l.get_all().len(), 2);
}

#[test]
fn counts_split_completed_and_pending() {
    let mut l = TodoList::new();
    l.add_at("a".to_string(), 1);
    l.add_at("b".to_string(), 2);
    l.add_at("c".to_string(), 3);
    l.toggle(1);
    l.toggle(3);
    assert_eq!(l.get_completed_count(), 2);
    assert_eq!(l.get_pending_count(), 1);
    l.toggle(3);
    assert_eq!(l.get_completed_count(), 1);
    assert_eq!(l.get_pending_count(), 2);
}

#[test]
fn add_uses_the_wall_clock() {
    let mut l = TodoList::new();
    l.add("now".to_string());
    let all = l.get_all();
    assert_eq!(all.len(), 1);
    assert_eq!(all[0].id, 1);
    assert_eq!(all[0].title, "now");
    // The clock runs well past the epoch.
    assert!(all[0].created_at > 0);
}
