use orbital_cloud::cloud::next_capacity;

#[test]
fn next_capacity_doubles_to_fit() {
    assert_eq!(next_capacity(0), 1);
    assert_eq!(next_capacity(1), 1);
    assert_eq!(next_capacity(2), 2);
    assert_eq!(next_capacity(3), 4);
    assert_eq!(next_capacity(5), 8);
    assert_eq!(next_capacity(1024), 1024);
    assert_eq!(next_capacity(1025), 2048);
    assert_eq!(next_capacity(20_000), 32_768);
}
