use ethcore_sync::fixed_bytes::{position, same_bytes, Position};
use ethcore_sync::ordered_map::OrderedMap;

#[test]
fn first_difference_decides() {
    assert_eq!(position(&[1u8, 9], &[2, 0]), Position::Before);
    assert_eq!(position(&[2u8, 0], &[1, 9]), Position::After);
    assert_eq!(position(&[1u8, 2], &[1, 3]), Position::Before);
    assert_eq!(position(&[1u8, 2], &[1, 2]), Position::Same);
    let empty: [u8; 0] = [];
    assert_eq!(position(&empty, &empty), Position::Same);
}

#[test]
fn equality_looks_at_every_byte() {
    assert!(same_bytes(b"par", b"par"));
    assert!(!same_bytes(b"par", b"pas"));
    assert!(!same_bytes(b"par", b"zar"));
}

#[test]
fn insert_and_get() {
    let mut map: OrderedMap<2, u32> = OrderedMap::new();
    assert_eq!(map.get(&[0, 1]), None);
    assert_eq!(map.insert([0, 1], 10), None);
    assert_eq!(map.insert([0, 0], 20), None);
    assert_eq!(map.insert([0, 1], 30), Some(10));
    assert_eq!(map.get(&[0, 1]), Some(&30));
    assert_eq!(map.get(&[0, 0]), Some(&20));
    assert_eq!(map.get(&[1, 0]), None);
    assert_eq!(map.entries(), &vec![([0, 0], 20), ([0, 1], 30)]);
}

#[test]
fn entries_come_out_in_order() {
    let one = OrderedMap::from_entries(vec![([3u8], 'c'), ([1], 'a'), ([2], 'b')]);
    let other = OrderedMap::from_entries(vec![([2u8], 'b'), ([3], 'c'), ([1], 'a')]);
    assert_eq!(one.entries(), &vec![([1], 'a'), ([2], 'b'), ([3], 'c')]);
    assert_eq!(one, other);
}

#[test]
fn later_entry_stays() {
    let map = OrderedMap::from_entries(vec![([1u8], 'a'), ([2], 'b'), ([1], 'c')]);
    assert_eq!(map.entries(), &vec![([1], 'c'), ([2], 'b')]);
}

#[test]
fn orders_like_a_tree_map() {
    let mut expected: std::collections::BTreeMap<[u8; 2], u32> = std::collections::BTreeMap::new();
    let mut map: OrderedMap<2, u32> = OrderedMap::new();
    let mut seed: u32 = 7;
    for i in 0..500u32 {
        seed = seed.wrapping_mul(1103515245).wrapping_add(12345);
        let key = [(seed >> 16) as u8 % 8, (seed >> 24) as u8 % 8];
        assert_eq!(map.insert(key, i), expected.insert(key, i));
    }
    let listed: Vec<([u8; 2], u32)> = expected.into_iter().collect();
    assert_eq!(map.entries(), &listed);
}
