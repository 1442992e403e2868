use gers::noise::perm::{create_seed, PermutationTable};

#[test]
fn seed_bytes_repeat_the_seed() {
    assert_eq!(create_seed(0x0403_0201), [1, 0, 0, 0, 1, 2, 3, 4, 1, 2, 3, 4, 1, 2, 3, 4]);
    assert_eq!(create_seed(0), [1, 0, 0, 0, 0, 0, 0, 0, 0, 0, 0, 0, 0, 0, 0, 0]);
    assert_eq!(
        create_seed(u32::MAX),
        [1, 0, 0, 0, 255, 255, 255, 255, 255, 255, 255, 255, 255, 255, 255, 255]
    );
}

#[test]
fn table_is_a_shuffle_of_all_bytes() {
    let table = PermutationTable::new(5);
    let identity: Vec<u8> = (0..=255).collect();
    assert_ne!(table.table().to_vec(), identity);
    let mut sorted = table.table().to_vec();
    sorted.sort();
    assert_eq!(sorted, identity);
}

#[test]
fn table_depends_on_the_seed_alone() {
    assert_eq!(PermutationTable::new(7), PermutationTable::new(7));
    assert_ne!(PermutationTable::new(7), PermutationTable::new(8));
}

#[test]
fn sample_hashes_through_the_table() {
    let identity: Vec<u8> = (0..=255).collect();
    let table = PermutationTable::from_values(&identity);
    assert_eq!(table.sample(&[1]), 1);
    assert_eq!(table.sample(&[1, 2]), 3);
    assert_eq!(table.sample(&[-1]), 255);
    assert_eq!(table.sample(&[256 + 7]), 7);
    assert_eq!(table.sample(&[isize::MIN]), 0);

    let reversed: Vec<u8> = (0..=255).rev().collect();
    let table = PermutationTable::from_values(&reversed);
    assert_eq!(table.sample(&[1]), 254);
    assert_eq!(table.sample(&[1, 2]), 3);
    assert_eq!(table.sample(&[1, 2, 3]), 255);
}
