use gamemode_status::registry::GameRegistry;

fn name_of(reg: &GameRegistry, pid: i32) -> String {
    reg.get(pid).expect("entry should be present").clone()
}

#[test]
fn new_registry_is_empty() {
    let reg = GameRegistry::new();
    assert_eq!(reg.len(), 0);
    assert!(!reg.games_active());
    assert!(!reg.contains(1));
    assert!(reg.get(1).is_none());
    assert!(reg.pairs().is_empty());
}

#[test]
fn insert_get_and_len() {
    let mut reg = GameRegistry::new();
    reg.insert(1, String::from("alpha"));
    reg.insert(2, String::from("beta"));
    assert_eq!(reg.len(), 2);
    assert!(reg.contains(1));
    assert!(reg.contains(2));
    assert_eq!(name_of(&reg, 1), "alpha");
    assert_eq!(name_of(&reg, 2), "beta");
    assert!(!reg.contains(3));
}

#[test]
fn removing_absent_id_is_noop() {
    let mut reg = GameRegistry::new();
    reg.insert(1, String::from("alpha"));
    reg.apply_unregistered(2);
    assert_eq!(reg.len(), 1);
    assert!(reg.contains(1));
    assert_eq!(name_of(&reg, 1), "alpha");

    let mut empty = GameRegistry::new();
    empty.apply_unregistered(42);
    assert_eq!(empty.len(), 0);
}

#[test]
fn failed_resolution_leaves_registry_unchanged() {
    let mut reg = GameRegistry::new();
    reg.apply_registered(7, None);
    assert_eq!(reg.len(), 0);
    assert!(!reg.contains(7));

    reg.insert(1, String::from("alpha"));
    reg.apply_registered(7, None);
    assert_eq!(reg.len(), 1);
    assert!(!reg.contains(7));
    assert!(reg.contains(1));
}

#[test]
fn successful_registration_inserts() {
    let mut reg = GameRegistry::new();
    reg.apply_registered(7, Some(String::from("doom")));
    assert_eq!(reg.len(), 1);
    assert_eq!(name_of(&reg, 7), "doom");
}

#[test]
fn reconciliation_replaces_not_merges() {
    let mut reg = GameRegistry::new();
    reg.insert(9, String::from("stale"));

    let pids = vec![1, 2, 3];
    let names = vec![Some(String::from("one")), Some(String::from("two")), None];
    reg.rebuild(&pids, &names);

    assert_eq!(reg.len(), 2);
    assert!(reg.contains(1));
    assert!(reg.contains(2));
    assert!(!reg.contains(3));
    assert!(!reg.contains(9));
    assert_eq!(name_of(&reg, 1), "one");
    assert_eq!(name_of(&reg, 2), "two");
}

#[test]
fn reconciliation_with_empty_list_clears() {
    let mut reg = GameRegistry::new();
    reg.insert(5, String::from("stale"));
    let pids: Vec<i32> = vec![];
    let names: Vec<Option<String>> = vec![];
    reg.rebuild(&pids, &names);
    assert_eq!(reg.len(), 0);
    assert!(!reg.games_active());
}

#[test]
fn reconciliation_with_duplicate_ids_keeps_latest() {
    let mut reg = GameRegistry::new();
    let pids = vec![4, 4];
    let names = vec![Some(String::from("first")), Some(String::from("second"))];
    reg.rebuild(&pids, &names);
    assert_eq!(reg.len(), 1);
    assert_eq!(name_of(&reg, 4), "second");
}

#[test]
fn register_then_unregister_removes() {
    let mut reg = GameRegistry::new();
    reg.apply_registered(10, Some(String::from("game.bin")));
    assert!(reg.contains(10));
    reg.apply_unregistered(10);
    assert!(!reg.contains(10));
    assert_eq!(reg.len(), 0);
}

#[test]
fn duplicate_registration_overwrites() {
    let mut reg = GameRegistry::new();
    reg.apply_registered(5, Some(String::from("old-name")));
    reg.apply_registered(5, Some(String::from("new-name")));
    assert_eq!(reg.len(), 1);
    assert_eq!(name_of(&reg, 5), "new-name");
}

#[test]
fn active_flag_iff_nonempty() {
    let mut reg = GameRegistry::new();
    assert!(!reg.games_active());
    reg.insert(3, String::from("alpha"));
    assert!(reg.games_active());
    reg.insert(4, String::from("beta"));
    assert!(reg.games_active());
    reg.remove(3);
    assert!(reg.games_active());
    reg.remove(4);
    assert!(!reg.games_active());
    reg.apply_registered(6, None);
    assert!(!reg.games_active());
}

#[test]
fn clear_discards_everything() {
    let mut reg = GameRegistry::new();
    reg.insert(1, String::from("alpha"));
    reg.insert(2, String::from("beta"));
    reg.clear();
    assert_eq!(reg.len(), 0);
    assert!(!reg.contains(1));
    assert!(!reg.games_active());
}

#[test]
fn pairs_lists_every_entry_once() {
    let mut reg = GameRegistry::new();
    reg.insert(1, String::from("alpha"));
    reg.insert(2, String::from("beta"));
    reg.insert(2, String::from("gamma"));

    let mut pairs = reg.pairs();
    pairs.sort();
    assert_eq!(pairs, vec![(1, String::from("alpha")), (2, String::from("gamma"))]);
}

#[test]
fn end_to_end_scenario() {
    let mut reg = GameRegistry::new();

    let pids = vec![100, 200];
    let names = vec![Some(String::from("steam")), None];
    reg.rebuild(&pids, &names);
    assert_eq!(reg.len(), 1);
    assert_eq!(name_of(&reg, 100), "steam");
    assert!(!reg.contains(200));
    assert!(reg.games_active());

    reg.apply_unregistered(100);
    assert_eq!(reg.len(), 0);
    assert!(!reg.games_active());
}
