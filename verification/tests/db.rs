use canoe::db::must_create;

#[test]
fn a_database_is_created_unless_it_is_known_to_exist() {
    assert!(!must_create(Some(true)));
    assert!(must_create(Some(false)));
    assert!(must_create(None));
}
