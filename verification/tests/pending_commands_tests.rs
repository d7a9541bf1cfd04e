use zedlib::pending_commands::{PendingCommand, PendingCommands, RangeIds};

#[test]
fn removed_commands_give_their_ids_in_order() {
    let mut p = PendingCommands::new();
    p.add_commands(&vec![0..4, 10..12, 20..25], &vec![1, 2, 3], &vec![7, 8, 9]);
    let (creases, blocks) = p.remove_commands(&vec![20..25, 5..6, 0..4, 20..25]);
    assert_eq!(creases, vec![3, 1]);
    assert_eq!(blocks, vec![9, 7]);
    let (creases, blocks) = p.remove_commands(&vec![10..12]);
    assert_eq!(creases, vec![2]);
    assert_eq!(blocks, vec![8]);
    let (creases, blocks) = p.remove_commands(&vec![0..4, 10..12, 20..25]);
    assert!(creases.is_empty());
    assert!(blocks.is_empty());
}

#[test]
fn block_ids_pair_with_the_first_updated_ranges() {
    let mut p = PendingCommands::new();
    let updated = vec![
        PendingCommand { source_range: 0..4, failed: false },
        PendingCommand { source_range: 6..9, failed: true },
    ];
    assert_eq!(PendingCommands::failed(&updated), vec![6..9]);
    let ranges: Vec<_> = updated.iter().map(|c| c.source_range.clone()).collect();
    p.add_commands(&ranges, &vec![11, 12], &vec![40]);
    let (creases, blocks) = p.remove_commands(&vec![0..4]);
    assert_eq!(creases, vec![11]);
    assert_eq!(blocks, vec![40]);
    let (creases, blocks) = p.remove_commands(&vec![6..9]);
    assert_eq!(creases, vec![12]);
    assert!(blocks.is_empty());
}

#[test]
fn failed_commands_keep_their_order() {
    let updated = vec![
        PendingCommand { source_range: 3..5, failed: true },
        PendingCommand { source_range: 7..8, failed: false },
        PendingCommand { source_range: 1..2, failed: true },
    ];
    assert_eq!(PendingCommands::failed(&updated), vec![3..5, 1..2]);
    assert!(PendingCommands::failed(&vec![]).is_empty());
}

#[test]
fn a_range_keeps_its_latest_id() {
    let mut ids = RangeIds::new();
    ids.insert(2..3, 5);
    ids.insert(4..6, 6);
    ids.insert(2..3, 9);
    assert_eq!(ids.remove(&(2..3)), Some(9));
    assert_eq!(ids.remove(&(2..3)), None);
    assert_eq!(ids.remove(&(4..6)), Some(6));
    assert_eq!(ids.remove(&(4..7)), None);
}
