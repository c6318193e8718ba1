use ping_thing_client::cycle::PendingProbe;
use ping_thing_client::pending::PendingProbes;

fn probe(id: &str, slot_sent: u64, send_time: i64) -> PendingProbe {
    PendingProbe { id: id.to_string(), slot_sent, send_time }
}

#[test]
fn a_new_register_is_empty() {
    let register = PendingProbes::new();
    assert_eq!(register.len(), 0);
    assert!(!register.contains(&"a".to_string()));
    assert_eq!(register.get(&"a".to_string()), None);
}

#[test]
fn insert_then_get() {
    let mut register = PendingProbes::new();
    assert_eq!(register.insert(probe("a", 10, 100)), None);
    assert_eq!(register.insert(probe("b", 20, 200)), None);
    assert_eq!(register.len(), 2);
    assert_eq!(register.get(&"a".to_string()), Some((10, 100)));
    assert_eq!(register.get(&"b".to_string()), Some((20, 200)));
    assert_eq!(register.get(&"c".to_string()), None);
    assert!(register.contains(&"b".to_string()));
}

#[test]
fn insert_replaces_an_entry_with_the_same_id() {
    let mut register = PendingProbes::new();
    register.insert(probe("a", 10, 100));
    register.insert(probe("b", 20, 200));
    assert_eq!(register.insert(probe("a", 11, 101)), Some((10, 100)));
    assert_eq!(register.len(), 2);
    assert_eq!(register.get(&"a".to_string()), Some((11, 101)));
    assert_eq!(register.get(&"b".to_string()), Some((20, 200)));
}

#[test]
fn remove_forgets_one_entry() {
    let mut register = PendingProbes::new();
    register.insert(probe("a", 10, 100));
    register.insert(probe("b", 20, 200));
    register.insert(probe("c", 30, 300));
    assert_eq!(register.remove(&"b".to_string()), Some((20, 200)));
    assert_eq!(register.len(), 2);
    assert_eq!(register.get(&"a".to_string()), Some((10, 100)));
    assert_eq!(register.get(&"b".to_string()), None);
    assert_eq!(register.get(&"c".to_string()), Some((30, 300)));
    assert_eq!(register.remove(&"b".to_string()), None);
    assert_eq!(register.len(), 2);
}

#[test]
fn a_late_confirmation_for_a_superseded_id_finds_nothing() {
    let mut register = PendingProbes::new();
    register.insert(probe("old", 1, 1));
    register.remove(&"old".to_string());
    register.insert(probe("new", 2, 2));
    assert_eq!(register.get(&"old".to_string()), None);
    assert_eq!(register.get(&"new".to_string()), Some((2, 2)));
}
