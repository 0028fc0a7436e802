use decoders::CRATE_NAME;

#[test]
fn crate_identity_matches_role() {
    assert_eq!("decoders", CRATE_NAME);
}
