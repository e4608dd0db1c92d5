use gossip_node::ident::{decimal_text, make_id};
use gossip_node::names::{contains_name, copy_names, distinct_names, join_names, without_name};
use gossip_node::outbound::{send_all, settle, SendFailed};
use gossip_node::payload::{copy_links, find_links, narrow_peers};
use gossip_node::sets::{copy_set, from_vec, merge_into, to_vec};
use std::collections::HashSet;

fn names(list: &[&str]) -> Vec<String> {
    list.iter().map(|n| n.to_string()).collect()
}

#[test]
fn decimal_text_matches_the_usual_numerals() {
    assert_eq!(decimal_text(0), "0");
    assert_eq!(decimal_text(7), "7");
    assert_eq!(decimal_text(10), "10");
    assert_eq!(decimal_text(109), "109");
    assert_eq!(decimal_text(1_234_567_890), "1234567890");
    assert_eq!(decimal_text(usize::MAX), usize::MAX.to_string());
    for n in 0..2000usize {
        assert_eq!(decimal_text(n), n.to_string());
    }
}

#[test]
fn make_id_joins_name_and_counter() {
    assert_eq!(make_id("n1", 0), "n1-0");
    assert_eq!(make_id("n1", 42), "n1-42");
    assert_eq!(make_id("", 5), "-5");
    assert_eq!(make_id("node-a", 100), "node-a-100");
}

#[test]
fn name_lists() {
    let list = names(&["n1", "n2", "n1", "n3"]);
    assert!(contains_name(&list, &"n3".to_string()));
    assert!(!contains_name(&list, &"n4".to_string()));
    assert_eq!(copy_names(&list), list);
    assert_eq!(without_name(&list, &"n1".to_string()), names(&["n2", "n3"]));
    assert_eq!(without_name(&list, &"n9".to_string()), list);
    assert_eq!(distinct_names(&list), names(&["n1", "n2", "n3"]));
    let mut known = names(&["n2"]);
    join_names(&mut known, &list);
    assert_eq!(known, names(&["n2", "n1", "n3"]));
}

#[test]
fn value_sets() {
    let set: HashSet<usize> = HashSet::from_iter([5, 1, 9]);
    let mut listed = to_vec(&set);
    listed.sort();
    assert_eq!(listed, vec![1, 5, 9]);
    assert_eq!(from_vec(&vec![9, 9, 1, 5, 1]), set);
    assert_eq!(copy_set(&set), set);
    let mut known: HashSet<usize> = HashSet::from_iter([1, 2]);
    merge_into(&mut known, &set);
    assert_eq!(known, HashSet::from_iter([1, 2, 5, 9]));
    merge_into(&mut known, &HashSet::new());
    assert_eq!(known, HashSet::from_iter([1, 2, 5, 9]));
}

#[test]
fn topologies() {
    let links = vec![
        ("n1".to_string(), names(&["n2", "n3"])),
        ("n2".to_string(), names(&["n1"])),
        ("n1".to_string(), names(&["n9"])),
    ];
    assert_eq!(copy_links(&links), links);
    assert_eq!(find_links(&links, &"n1".to_string()), Some(&names(&["n2", "n3"])));
    assert_eq!(find_links(&links, &"n2".to_string()), Some(&names(&["n1"])));
    assert_eq!(find_links(&links, &"n3".to_string()), None);
    let mut peers = names(&["n7"]);
    narrow_peers(&mut peers, &links, &"n3".to_string());
    assert_eq!(peers, names(&["n7"]));
    narrow_peers(&mut peers, &links, &"n2".to_string());
    assert_eq!(peers, names(&["n1"]));
}

#[test]
fn send_all_keeps_the_order_and_counts() {
    let (tx, rx) = std::sync::mpsc::channel();
    assert_eq!(send_all(&tx, vec![3, 1, 2]), 3);
    assert_eq!(rx.try_iter().collect::<Vec<i32>>(), vec![3, 1, 2]);
    assert_eq!(send_all(&tx, Vec::new()), 0);
    drop(rx);
    assert_eq!(send_all(&tx, vec![4, 5]), 0);
}

#[test]
fn settle_tells_a_refusal_from_a_hand_over() {
    assert_eq!(settle(true), Ok(()));
    assert_eq!(settle(false), Err(SendFailed));
}
