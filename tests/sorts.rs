use roast2d::sorts::{insertion_sort, insertion_sort_by, insertion_sort_by_key};

#[test]
fn test_sort() {
    let mut list = [2, 0, 2, 4, 8, 17];
    insertion_sort(&mut list);
    assert_eq!(list, [0, 2, 2, 4, 8, 17]);
}

#[test]
fn test_rand_sort() {
    let mut state: u32 = 0x2545_f491;
    let mut list = [0i64; 16];
    for v in list.iter_mut() {
        state = state.wrapping_mul(1_103_515_245).wrapping_add(12_345);
        *v = ((state >> 16) & 0xff) as u8 as i64;
    }
    let mut l1 = list;
    let mut l2 = list;
    insertion_sort(&mut l1);
    l2.sort();
    assert_eq!(l1, l2);
}

#[test]
fn sort_empty_and_single() {
    let mut empty: [i64; 0] = [];
    insertion_sort(&mut empty);
    assert_eq!(empty, []);
    let mut one = [5];
    insertion_sort(&mut one);
    assert_eq!(one, [5]);
}

#[test]
fn sort_negative_and_reversed() {
    let mut list = [9, 3, -1, -7, 0, i64::MIN, i64::MAX];
    insertion_sort(&mut list);
    assert_eq!(list, [i64::MIN, -7, -1, 0, 3, 9, i64::MAX]);
}

#[test]
fn sort_by_key_orders_by_key() {
    let mut list = [(3, 'a'), (1, 'b'), (2, 'c'), (1, 'd')];
    insertion_sort_by_key(&mut list, |e| e.0 as i64);
    let keys: Vec<i64> = list.iter().map(|e| e.0 as i64).collect();
    assert_eq!(keys, vec![1, 1, 2, 3]);
    let mut letters: Vec<char> = list.iter().map(|e| e.1).collect();
    letters.sort();
    assert_eq!(letters, vec!['a', 'b', 'c', 'd']);
}

#[test]
fn sort_by_comparator_descending() {
    let mut list = [String::from("b"), String::from("d"), String::from("a"), String::from("c")];
    insertion_sort_by(&mut list, |a, b| a > b);
    assert_eq!(list, ["d", "c", "b", "a"]);
}
