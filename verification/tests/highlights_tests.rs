use zedlib::highlights::combine_highlights;

#[test]
fn test_combine_highlights() {
    // a: green 0..5, bold 4..10, yellow 15..20
    // b: italic 2..6, blue 1..3, red 21..23
    // Each run lists the positions in `a` then `b` of the ranges covering it.
    let runs = combine_highlights(vec![0..5, 4..10, 15..20], vec![2..6, 1..3, 21..23]);
    let expected: Vec<(std::ops::Range<usize>, Vec<usize>)> = vec![
        (0..1, vec![0]),
        (1..2, vec![0, 4]),
        (2..3, vec![0, 3, 4]),
        (3..4, vec![0, 3]),
        (4..5, vec![0, 1, 3]),
        (5..6, vec![1, 3]),
        (6..10, vec![1]),
        (15..20, vec![2]),
        (21..23, vec![5]),
    ];
    assert_eq!(runs, expected);
}

#[test]
fn empty_ranges_are_ignored() {
    let runs = combine_highlights(vec![3..3, 0..2], vec![]);
    assert_eq!(runs, vec![(0..2, vec![1])]);
    assert_eq!(combine_highlights(vec![], vec![]), vec![]);
}

#[test]
fn touching_ranges_give_separate_runs() {
    let runs = combine_highlights(vec![0..2], vec![2..4]);
    assert_eq!(runs, vec![(0..2, vec![0]), (2..4, vec![1])]);
}
