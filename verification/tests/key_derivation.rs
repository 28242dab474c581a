use turn_authenticator::key_derivation::derive_key;

#[test]
fn derive_key_is_md5_of_colon_joined_fields() {
    let key = derive_key("alice", "example.com", "secret1");
    assert_eq!(
        key,
        vec![113, 186, 14, 189, 134, 64, 159, 233, 120, 14, 224, 198, 55, 15, 89, 230]
    );
}

#[test]
fn derive_key_has_sixteen_bytes() {
    assert_eq!(derive_key("", "", "").len(), 16);
    assert_eq!(derive_key("user", "realm", "pass").len(), 16);
}

#[test]
fn derive_key_is_deterministic() {
    let first = derive_key("user", "realm", "pass");
    let second = derive_key("user", "realm", "pass");
    assert_eq!(first, second);
    assert_eq!(
        first,
        vec![132, 147, 251, 197, 59, 165, 130, 251, 76, 4, 76, 69, 107, 220, 64, 235]
    );
}

#[test]
fn derive_key_differs_when_a_field_changes() {
    let key = derive_key("alice", "example.com", "secret1");
    assert_ne!(key, derive_key("alicf", "example.com", "secret1"));
    assert_ne!(key, derive_key("alice", "example.org", "secret1"));
    assert_ne!(key, derive_key("alice", "example.com", "secret2"));
}

#[test]
fn derive_key_with_empty_realm() {
    assert_eq!(
        derive_key("alice", "", "secret1"),
        vec![140, 87, 198, 210, 52, 248, 244, 147, 234, 76, 118, 37, 133, 32, 58, 125]
    );
}

#[test]
fn derive_key_digests_utf8_bytes() {
    assert_eq!(
        derive_key("\u{e9}", "r", "\u{fc}"),
        vec![83, 195, 48, 87, 198, 152, 136, 129, 122, 242, 183, 142, 230, 235, 108, 149]
    );
}

#[test]
fn derive_key_sees_only_the_joined_text() {
    assert_eq!(derive_key("a:b", "c", "d"), derive_key("a", "b:c", "d"));
    assert_eq!(
        derive_key("a", "b", "c:d"),
        vec![230, 234, 25, 198, 42, 55, 99, 199, 183, 140, 71, 86, 82, 197, 19, 87]
    );
}
