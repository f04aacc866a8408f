use arsync::tally::Tally;

#[test]
fn tally_counts_and_sorts() {
    let mut t = Tally::new();
    assert!(t.is_empty());
    t.add("b");
    t.add("a");
    t.add("a");
    t.add("c");
    t.add("c");
    assert_eq!(t.get("a"), 2);
    assert_eq!(t.get("b"), 1);
    assert_eq!(t.get("z"), 0);
    assert!(!t.is_empty());
    let sorted = t.by_count_desc();
    let names: Vec<&str> = sorted.iter().map(|(n, _)| n.as_str()).collect();
    assert_eq!(names, vec!["a", "c", "b"]);
    assert_eq!(sorted[2].1, 1);
}
