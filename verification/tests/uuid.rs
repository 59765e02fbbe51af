use appinsights::uuid::{new, Uuid};

#[test]
fn new_identifiers_are_version_4() {
    let id = new().as_u128();
    assert_eq!((id >> 76) & 0xf, 4);
    assert_eq!((id >> 62) & 0x3, 2);
    assert_ne!(new(), new());
}

#[test]
fn identifiers_print_hyphenated() {
    let id = Uuid::from_u128(0x0123456789abcdef0123456789abcdef);
    assert_eq!(id.to_hyphenated_string(), "01234567-89ab-cdef-0123-456789abcdef");
    assert_eq!(Uuid::from_u128(0).to_hyphenated_string(), "00000000-0000-0000-0000-000000000000");
}
