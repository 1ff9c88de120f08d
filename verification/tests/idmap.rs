use nsbox::container::{IdMap, IdMapEntry, User};

#[test]
fn new_map_renders_empty() {
    let map: IdMap<User> = IdMap::new();
    assert_eq!(map.render(), Vec::<u8>::new());
    assert_eq!(map.len(), 0);
}

#[test]
fn add_renders_one_line() {
    let mut map: IdMap<User> = IdMap::new();
    map.add(0, 1000, 1);
    assert_eq!(map.render(), b"0 1000 1\n".to_vec());
}

#[test]
fn add_renders_lines_in_order() {
    let mut map: IdMap<User> = IdMap::new();
    map.add(0, 1000, 1);
    map.add(1, 100000, 65536);
    assert_eq!(map.render(), b"0 1000 1\n1 100000 65536\n".to_vec());
}

#[test]
fn render_uses_full_decimal_range() {
    let mut map: IdMap<User> = IdMap::new();
    map.add(0, 4294967294, 1);
    assert_eq!(map.render(), b"0 4294967294 1\n".to_vec());
}

#[test]
fn invert_swaps_inside_and_outside() {
    let mut map: IdMap<User> = IdMap::new();
    map.add(0, 1000, 1);
    map.add(10, 20000, 30);
    let inverted = IdMap::invert(map);
    assert_eq!(inverted.render(), b"1000 0 1\n20000 10 30\n".to_vec());
}

#[test]
fn invert_twice_restores_the_map() {
    let mut map: IdMap<User> = IdMap::new();
    map.add(7, 70000, 100);
    map.add(200, 300, 400);
    let twice = IdMap::invert(IdMap::invert(map.duplicate()));
    assert_eq!(map.render(), twice.render());
}

#[test]
fn current_user_as_root_maps_id_zero() {
    let map: IdMap<User> = IdMap::new_with_current_user_as_root();
    assert_eq!(map.len(), 1);
    assert!(map.contains_interior_id(0));
    assert!(!map.contains_interior_id(1));
}

#[test]
fn contains_interior_id_respects_bounds() {
    let mut map: IdMap<User> = IdMap::new();
    map.add(100, 5000, 10);
    assert!(!map.contains_interior_id(99));
    assert!(map.contains_interior_id(100));
    assert!(map.contains_interior_id(109));
    assert!(!map.contains_interior_id(110));
}

#[test]
fn entry_fields_keep_their_roles() {
    let e = IdMapEntry { internal: 1, external: 2, len: 3 };
    assert_eq!(e.internal, 1);
    assert_eq!(e.external, 2);
    assert_eq!(e.len, 3);
}
