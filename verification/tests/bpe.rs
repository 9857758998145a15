use smelt_remote::bpe::{decode, encode, fit, get_counts, merge};

#[test]
fn test_core() {
    let units = vec![0, 1, 0, 1, 2, 0, 1, 2, 3, 0, 1, 2, 3, 4, 0, 1, 2, 3, 4, 5];
    let (_encoded_units, merges) = fit(units, 10);
    let units_to_encode = vec![0, 1, 0, 1, 2, 3, 4, 5];
    let units_to_encode_copy = units_to_encode.clone();
    let encoded = encode(units_to_encode, &merges);
    let decoded = decode(encoded, &merges);
    assert_eq!(units_to_encode_copy, decoded);
}

fn count_for(counts: &[((i32, i32), i32)], pair: (i32, i32)) -> Option<i32> {
    let found: Vec<i32> = counts.iter().filter(|c| c.0 == pair).map(|c| c.1).collect();
    assert!(found.len() <= 1);
    found.first().copied()
}

#[test]
fn counts_cover_every_pair_once() {
    let counts = get_counts(&[1, 2, 1, 2, 3]);
    assert_eq!(counts.len(), 3);
    assert_eq!(count_for(&counts, (1, 2)), Some(2));
    assert_eq!(count_for(&counts, (2, 1)), Some(1));
    assert_eq!(count_for(&counts, (2, 3)), Some(1));
    assert_eq!(count_for(&counts, (3, 1)), None);
}

#[test]
fn counts_include_overlaps() {
    let counts = get_counts(&[7, 7, 7, 7]);
    assert_eq!(counts, vec![((7, 7), 3)]);
}

#[test]
fn counts_of_short_inputs_are_empty() {
    assert!(get_counts(&[]).is_empty());
    assert!(get_counts(&[4]).is_empty());
}

#[test]
fn merge_replaces_from_the_left() {
    assert_eq!(merge(&[1, 1, 1, 2, 1, 1], &(1, 1), 9), vec![9, 1, 2, 9]);
    assert_eq!(merge(&[1, 2, 3], &(4, 5), 9), vec![1, 2, 3]);
    assert_eq!(merge(&[1, 2], &(1, 2), 9), vec![9]);
    assert_eq!(merge(&[], &(1, 2), 9), Vec::<i32>::new());
    assert_eq!(merge(&[3, 1, 2], &(1, 2), 9), vec![3, 9]);
}

#[test]
fn fit_learns_the_most_frequent_pairs() {
    let units = vec![0, 1, 0, 1, 2, 0, 1, 2, 3, 0, 1, 2, 3, 4, 0, 1, 2, 3, 4, 5];
    let (left, merges) = fit(units, 10);
    assert_eq!(left, vec![6, 7, 8, 9, 9, 5]);
    assert_eq!(merges, vec![((0, 1), 6), ((6, 2), 7), ((7, 3), 8), ((8, 4), 9)]);
}

#[test]
fn fit_stops_when_nothing_is_left_to_merge() {
    assert_eq!(fit(vec![7, 7, 7, 7], 4), (vec![9], vec![((7, 7), 8), ((8, 8), 9)]));
    assert_eq!(fit(vec![5], 4), (vec![5], Vec::new()));
}

#[test]
fn encode_applies_earlier_merges_first() {
    let merges = vec![((0, 1), 6), ((6, 2), 7), ((7, 3), 8), ((8, 4), 9)];
    assert_eq!(encode(vec![0, 1, 0, 1, 2, 3, 4, 5], &merges), vec![6, 9, 5]);
    assert_eq!(encode(vec![5, 5, 5], &merges), vec![5, 5, 5]);
    assert_eq!(encode(vec![0], &merges), vec![0]);
    assert_eq!(encode(Vec::new(), &merges), Vec::<i32>::new());
    assert_eq!(encode(vec![0, 1], &Vec::new()), vec![0, 1]);
}

#[test]
fn decode_undoes_nested_merges() {
    let merges = vec![((0, 1), 6), ((6, 2), 7), ((7, 3), 8), ((8, 4), 9)];
    assert_eq!(decode(vec![6, 9, 5], &merges), vec![0, 1, 0, 1, 2, 3, 4, 5]);
    assert_eq!(decode(vec![1, 2, 3], &merges), vec![1, 2, 3]);
    assert_eq!(decode(Vec::new(), &merges), Vec::<i32>::new());
}
