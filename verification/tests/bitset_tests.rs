use zedlib::bitset::BitSet;

#[test]
fn test_basic() {
    println!("{}", std::mem::size_of::<BitSet>());
    let mut set = BitSet::new();
    set.insert(1);
    println!("{:?}", set.elements());
    set.insert(10);
    println!("{:?}", set.elements());
    set.insert(20);
    println!("{:?}", set.elements());
    set.insert(100);
    set.insert(1000);
    set.insert(32);
    println!("{:?}", set.elements());
}

#[test]
fn elements_are_sorted_and_distinct() {
    let mut set = BitSet::new();
    assert_eq!(set.elements(), Vec::<usize>::new());
    for e in [1000, 1, 32, 10, 20, 100, 10, 4095, 0, 63, 64] {
        set.insert(e);
    }
    assert_eq!(set.elements(), vec![0, 1, 10, 20, 32, 63, 64, 100, 1000, 4095]);
}

#[test]
fn inserting_twice_changes_nothing() {
    let mut set = BitSet::new();
    set.insert(300);
    set.insert(300);
    assert_eq!(set.elements(), vec![300]);
}
