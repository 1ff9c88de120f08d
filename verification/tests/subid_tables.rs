use nsbox::container::{IdMap, User};
use nsbox::subid::{subid_ranges, SubidRange};

fn ranges(text: &[u8], uid: u32, username: Option<&[u8]>) -> Vec<SubidRange> {
    subid_ranges(text, uid, &username.map(|n| n.to_vec()))
}

#[test]
fn parses_a_line_owned_by_name() {
    let got = ranges(b"alice:100000:65536\n", 1000, Some(b"alice"));
    assert_eq!(got, vec![SubidRange { start: 100000, len: 65536 }]);
}

#[test]
fn parses_a_line_owned_by_numeric_id() {
    let got = ranges(b"1000:200000:1000\n", 1000, Some(b"alice"));
    assert_eq!(got, vec![SubidRange { start: 200000, len: 1000 }]);
}

#[test]
fn passes_over_other_owners_and_bad_lines() {
    let text = b"bob:1:2\n\nalice:100000:65536\nbroken line\nalice:nan:3\n1001:5:6\n";
    let got = ranges(text, 1000, Some(b"alice"));
    assert_eq!(got, vec![SubidRange { start: 100000, len: 65536 }]);
}

#[test]
fn numeric_owner_must_match_the_uid_not_the_name() {
    let got = ranges(b"1000:7:8\n", 999, Some(b"1000"));
    assert_eq!(got, Vec::<SubidRange>::new());
}

#[test]
fn named_owner_needs_a_resolved_username() {
    let got = ranges(b"alice:1:2\n", 1000, None);
    assert_eq!(got, Vec::<SubidRange>::new());
}

#[test]
fn keeps_table_order_and_extra_fields() {
    let got = ranges(b"alice:10:20:junk\nalice:30:40\n", 0, Some(b"alice"));
    assert_eq!(
        got,
        vec![SubidRange { start: 10, len: 20 }, SubidRange { start: 30, len: 40 }]
    );
}

#[test]
fn overlong_numbers_are_passed_over() {
    let got = ranges(b"alice:4294967296:1\nalice:1:2\n", 0, Some(b"alice"));
    assert_eq!(got, vec![SubidRange { start: 1, len: 2 }]);
}

#[test]
fn containment_accepts_a_covered_entry() {
    let mut map: IdMap<User> = IdMap::new();
    map.add(100, 100000, 65536);
    let allowed = vec![SubidRange { start: 50, len: 70000 }];
    assert!(map.is_valid(&allowed));
}

#[test]
fn containment_needs_the_closed_upper_end_inside() {
    let mut map: IdMap<User> = IdMap::new();
    map.add(100000, 100, 65536);
    // Both ends of [100000, 165536] must lie inside the half-open
    // allowed range, so a range that stops at 165536 is not enough.
    let exact = vec![SubidRange { start: 100000, len: 65536 }];
    assert!(!map.is_valid(&exact));
    let one_more = vec![SubidRange { start: 100000, len: 65537 }];
    assert!(map.is_valid(&one_more));
}

#[test]
fn containment_tests_interior_ids() {
    // The containment rule speaks of the inside range of each entry,
    // so a table that only covers the outside ids rejects this map.
    let mut map: IdMap<User> = IdMap::new();
    map.add(100, 100000, 65536);
    let allowed = vec![SubidRange { start: 100000, len: 65536 }];
    assert!(!map.is_valid(&allowed));
}

#[test]
fn every_entry_must_be_covered() {
    let mut map: IdMap<User> = IdMap::new();
    map.add(10, 0, 5);
    map.add(1000, 0, 5);
    let allowed = vec![SubidRange { start: 0, len: 100 }];
    assert!(!map.is_valid(&allowed));
    let both = vec![
        SubidRange { start: 0, len: 100 },
        SubidRange { start: 900, len: 200 },
    ];
    assert!(map.is_valid(&both));
}

#[test]
fn empty_map_is_always_permitted() {
    let map: IdMap<User> = IdMap::new();
    assert!(map.is_valid(&Vec::new()));
}
