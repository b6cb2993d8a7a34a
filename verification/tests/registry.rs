use winit_windowing::WinitWindows;

#[test]
fn new_registry_knows_nothing() {
    let windows: WinitWindows<String> = WinitWindows::new();
    assert_eq!(windows.get_window(0), None);
    assert_eq!(windows.get_window(1), None);
    assert_eq!(windows.get_window_entity(0), None);
    assert_eq!(windows.get_window_entity(u64::MAX), None);
}

#[test]
fn default_registry_knows_nothing() {
    let mut windows: WinitWindows<u8> = WinitWindows::default();
    assert_eq!(windows.get_window(3), None);
    assert_eq!(windows.get_window_entity(3), None);
    assert_eq!(windows.remove_window(3), None);
}

#[test]
fn created_window_is_found_by_entity() {
    let mut windows: WinitWindows<String> = WinitWindows::new();
    let stored = windows.create_window(7, 40, String::from("main")).clone();
    assert_eq!(stored, "main");
    assert_eq!(windows.get_window(7), Some(&String::from("main")));
    assert_eq!(windows.get_window_entity(40), Some(7));
}

#[test]
fn entities_and_window_ids_are_kept_apart() {
    let mut windows: WinitWindows<String> = WinitWindows::new();
    windows.create_window(7, 40, String::from("main"));
    // 40 is a window identifier, not an entity; 7 is an entity, not a window identifier.
    assert_eq!(windows.get_window(40), None);
    assert_eq!(windows.get_window_entity(7), None);
}

#[test]
fn same_number_may_name_an_entity_and_a_window() {
    let mut windows: WinitWindows<&str> = WinitWindows::new();
    windows.create_window(5, 5, "five");
    windows.create_window(6, 7, "six");
    windows.create_window(7, 6, "seven");
    assert_eq!(windows.get_window(5), Some(&"five"));
    assert_eq!(windows.get_window(6), Some(&"six"));
    assert_eq!(windows.get_window(7), Some(&"seven"));
    assert_eq!(windows.get_window_entity(5), Some(5));
    assert_eq!(windows.get_window_entity(7), Some(6));
    assert_eq!(windows.get_window_entity(6), Some(7));
}

#[test]
fn several_windows_are_kept_side_by_side() {
    let mut windows: WinitWindows<u32> = WinitWindows::new();
    for entity in 0..100u64 {
        let stored = *windows.create_window(entity, 1000 + entity, entity as u32 * 3);
        assert_eq!(stored, entity as u32 * 3);
    }
    for entity in 0..100u64 {
        assert_eq!(windows.get_window(entity), Some(&(entity as u32 * 3)));
        assert_eq!(windows.get_window_entity(1000 + entity), Some(entity));
    }
    assert_eq!(windows.get_window(100), None);
    assert_eq!(windows.get_window_entity(999), None);
    assert_eq!(windows.get_window_entity(1100), None);
}

#[test]
fn removed_window_is_returned_and_forgotten() {
    let mut windows: WinitWindows<String> = WinitWindows::new();
    windows.create_window(1, 10, String::from("first"));
    windows.create_window(2, 20, String::from("second"));
    assert_eq!(windows.remove_window(1), Some(String::from("first")));
    assert_eq!(windows.get_window(1), None);
    assert_eq!(windows.get_window_entity(10), None);
    // The other window is untouched.
    assert_eq!(windows.get_window(2), Some(&String::from("second")));
    assert_eq!(windows.get_window_entity(20), Some(2));
    // A second removal finds nothing.
    assert_eq!(windows.remove_window(1), None);
}

#[test]
fn removing_an_unknown_entity_changes_nothing() {
    let mut windows: WinitWindows<u8> = WinitWindows::new();
    windows.create_window(1, 10, 11);
    assert_eq!(windows.remove_window(10), None);
    assert_eq!(windows.remove_window(2), None);
    assert_eq!(windows.get_window(1), Some(&11));
    assert_eq!(windows.get_window_entity(10), Some(1));
}

#[test]
fn create_then_remove_restores_the_registry() {
    let mut windows: WinitWindows<u8> = WinitWindows::new();
    windows.create_window(1, 10, 11);
    windows.create_window(2, 20, 22);
    assert_eq!(windows.remove_window(2), Some(22));
    assert_eq!(windows.get_window(1), Some(&11));
    assert_eq!(windows.get_window_entity(10), Some(1));
    assert_eq!(windows.get_window(2), None);
    assert_eq!(windows.get_window_entity(20), None);
    // The entity and the identifier can be used again.
    windows.create_window(2, 20, 23);
    assert_eq!(windows.get_window(2), Some(&23));
    assert_eq!(windows.get_window_entity(20), Some(2));
}

#[test]
fn creating_again_for_an_entity_replaces_its_window() {
    let mut windows: WinitWindows<&str> = WinitWindows::new();
    windows.create_window(1, 10, "old");
    windows.create_window(2, 20, "other");
    windows.create_window(1, 11, "new");
    assert_eq!(windows.get_window(1), Some(&"new"));
    assert_eq!(windows.get_window_entity(11), Some(1));
    // The earlier identifier is no longer known, and neither is its window.
    assert_eq!(windows.get_window_entity(10), None);
    assert_eq!(windows.get_window_by_id(10), None);
    assert_eq!(windows.len(), 2);
    // The other window is untouched.
    assert_eq!(windows.get_window(2), Some(&"other"));
    assert_eq!(windows.get_window_entity(20), Some(2));
    assert_eq!(windows.remove_window(1), Some("new"));
    assert_eq!(windows.get_window(1), None);
    assert_eq!(windows.get_window_entity(11), None);
    assert_eq!(windows.get_window_entity(10), None);
    assert_eq!(windows.len(), 1);
}

#[test]
fn creating_again_under_an_identifier_replaces_its_entity() {
    let mut windows: WinitWindows<&str> = WinitWindows::new();
    windows.create_window(1, 10, "first");
    windows.create_window(2, 10, "second");
    assert_eq!(windows.get_window_entity(10), Some(2));
    assert_eq!(windows.get_window(2), Some(&"second"));
    // The identifier belongs to one entity only: the first has no window left.
    assert_eq!(windows.get_window(1), None);
    assert_eq!(windows.get_winit_id(1), None);
    assert_eq!(windows.len(), 1);
    assert_eq!(windows.remove_window(1), None);
    assert_eq!(windows.get_window(2), Some(&"second"));
    assert_eq!(windows.remove_window(2), Some("second"));
    assert_eq!(windows.get_window_entity(10), None);
    assert_eq!(windows.len(), 0);
}

#[test]
fn creating_again_with_the_same_pair_replaces_the_window() {
    let mut windows: WinitWindows<&str> = WinitWindows::new();
    windows.create_window(1, 10, "first");
    windows.create_window(1, 10, "second");
    assert_eq!(windows.get_window(1), Some(&"second"));
    assert_eq!(windows.get_window_entity(10), Some(1));
    assert_eq!(windows.len(), 1);
}

#[test]
fn creating_across_two_pairs_dissolves_both() {
    let mut windows: WinitWindows<&str> = WinitWindows::new();
    windows.create_window(1, 10, "a");
    windows.create_window(2, 20, "b");
    // Entity 1 takes the identifier of entity 2.
    windows.create_window(1, 20, "c");
    assert_eq!(windows.get_window(1), Some(&"c"));
    assert_eq!(windows.get_window_entity(20), Some(1));
    assert_eq!(windows.get_window(2), None);
    assert_eq!(windows.get_window_entity(10), None);
    assert_eq!(windows.window_ids(), vec![20]);
    assert_eq!(windows.entities(), vec![1]);
}

#[test]
fn the_pairing_stays_one_to_one() {
    let mut windows: WinitWindows<u64> = WinitWindows::new();
    // A fixed run of creations and removals that reuses entities and identifiers.
    let mut state: u64 = 12345;
    for step in 0..2000u64 {
        state = state.wrapping_mul(6364136223846793005).wrapping_add(1442695040888963407);
        let entity = (state >> 33) % 7;
        let winit_id = (state >> 40) % 7;
        if (state >> 20) % 3 == 0 {
            windows.remove_window(entity);
        } else {
            windows.create_window(entity, winit_id, step);
        }
        let ids = windows.window_ids();
        let entities = windows.entities();
        assert_eq!(ids.len(), windows.len());
        assert_eq!(entities.len(), windows.len());
        for &id in ids.iter() {
            let entity = windows.get_window_entity(id).unwrap();
            assert_eq!(windows.get_winit_id(entity), Some(id));
            assert_eq!(windows.get_window(entity), windows.get_window_by_id(id));
        }
        for &entity in entities.iter() {
            let id = windows.get_winit_id(entity).unwrap();
            assert_eq!(windows.get_window_entity(id), Some(entity));
            assert!(windows.get_window_by_id(id).is_some());
        }
    }
}

#[test]
fn stored_windows_are_counted_and_listed() {
    let mut windows: WinitWindows<&str> = WinitWindows::new();
    assert_eq!(windows.len(), 0);
    assert_eq!(windows.window_ids(), Vec::<u64>::new());
    assert_eq!(windows.entities(), Vec::<u64>::new());
    windows.create_window(1, 10, "a");
    windows.create_window(2, 20, "b");
    windows.create_window(3, 30, "c");
    assert_eq!(windows.len(), 3);
    let mut ids = windows.window_ids();
    ids.sort();
    assert_eq!(ids, vec![10, 20, 30]);
    let mut entities = windows.entities();
    entities.sort();
    assert_eq!(entities, vec![1, 2, 3]);
    windows.remove_window(2);
    assert_eq!(windows.len(), 2);
    let mut ids = windows.window_ids();
    ids.sort();
    assert_eq!(ids, vec![10, 30]);
    let mut entities = windows.entities();
    entities.sort();
    assert_eq!(entities, vec![1, 3]);
}

#[test]
fn a_window_is_found_by_its_identifier() {
    let mut windows: WinitWindows<&str> = WinitWindows::new();
    windows.create_window(1, 10, "a");
    assert_eq!(windows.get_window_by_id(10), Some(&"a"));
    assert_eq!(windows.get_window_by_id(1), None);
    assert_eq!(windows.get_winit_id(1), Some(10));
    assert_eq!(windows.get_winit_id(10), None);
    windows.remove_window(1);
    assert_eq!(windows.get_window_by_id(10), None);
    assert_eq!(windows.get_winit_id(1), None);
}

#[test]
fn extreme_identifiers_are_ordinary_keys() {
    let mut windows: WinitWindows<u8> = WinitWindows::new();
    windows.create_window(u64::MAX, 0, 1);
    windows.create_window(0, u64::MAX, 2);
    assert_eq!(windows.get_window(u64::MAX), Some(&1));
    assert_eq!(windows.get_window(0), Some(&2));
    assert_eq!(windows.get_window_entity(0), Some(u64::MAX));
    assert_eq!(windows.get_window_entity(u64::MAX), Some(0));
    assert_eq!(windows.remove_window(u64::MAX), Some(1));
    assert_eq!(windows.get_window_entity(0), None);
    assert_eq!(windows.get_window_entity(u64::MAX), Some(0));
}
