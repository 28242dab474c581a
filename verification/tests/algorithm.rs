use turn_authenticator::algorithm::{algorithm_from_name, string_to_algorithm, Algorithm};

#[test]
fn every_known_name_selects_its_algorithm() {
    assert_eq!(string_to_algorithm("ES256".to_string()), Algorithm::ES256);
    assert_eq!(string_to_algorithm("ES384".to_string()), Algorithm::ES384);
    assert_eq!(string_to_algorithm("EDDSA".to_string()), Algorithm::EdDSA);
    assert_eq!(string_to_algorithm("HS256".to_string()), Algorithm::HS256);
    assert_eq!(string_to_algorithm("HS384".to_string()), Algorithm::HS384);
    assert_eq!(string_to_algorithm("HS512".to_string()), Algorithm::HS512);
    assert_eq!(string_to_algorithm("PS256".to_string()), Algorithm::PS256);
    assert_eq!(string_to_algorithm("PS384".to_string()), Algorithm::PS384);
    assert_eq!(string_to_algorithm("PS512".to_string()), Algorithm::PS512);
    assert_eq!(string_to_algorithm("RS256".to_string()), Algorithm::RS256);
    assert_eq!(string_to_algorithm("RS384".to_string()), Algorithm::RS384);
    assert_eq!(string_to_algorithm("RS512".to_string()), Algorithm::RS512);
}

#[test]
fn names_are_matched_whatever_their_case() {
    assert_eq!(string_to_algorithm("es256".to_string()), Algorithm::ES256);
    assert_eq!(string_to_algorithm("EdDSA".to_string()), Algorithm::EdDSA);
    assert_eq!(string_to_algorithm("eddsa".to_string()), Algorithm::EdDSA);
    assert_eq!(string_to_algorithm("hs512".to_string()), Algorithm::HS512);
    assert_eq!(string_to_algorithm("Ps384".to_string()), Algorithm::PS384);
    assert_eq!(string_to_algorithm("rs512".to_string()), Algorithm::RS512);
}

#[test]
fn uppercase_is_that_of_unicode() {
    // The long s has S for its uppercase.
    assert_eq!(string_to_algorithm("E\u{17f}256".to_string()), Algorithm::ES256);
    assert_eq!(string_to_algorithm("h\u{17f}384".to_string()), Algorithm::HS384);
}

#[test]
fn unknown_names_select_rs256() {
    assert_eq!(string_to_algorithm("".to_string()), Algorithm::RS256);
    assert_eq!(string_to_algorithm("none".to_string()), Algorithm::RS256);
    assert_eq!(string_to_algorithm("ES257".to_string()), Algorithm::RS256);
    assert_eq!(string_to_algorithm("ES256 ".to_string()), Algorithm::RS256);
    assert_eq!(string_to_algorithm(" ES256".to_string()), Algorithm::RS256);
    assert_eq!(string_to_algorithm("ES2567".to_string()), Algorithm::RS256);
    assert_eq!(string_to_algorithm("ES25".to_string()), Algorithm::RS256);
    assert_eq!(string_to_algorithm("ES-256".to_string()), Algorithm::RS256);
}

#[test]
fn uppercase_names_are_matched_exactly() {
    assert_eq!(algorithm_from_name("ES384"), Algorithm::ES384);
    assert_eq!(algorithm_from_name("EDDSA"), Algorithm::EdDSA);
    assert_eq!(algorithm_from_name("RS384"), Algorithm::RS384);
    // Lowercase letters are not folded here.
    assert_eq!(algorithm_from_name("es384"), Algorithm::RS256);
    assert_eq!(algorithm_from_name("EdDSA"), Algorithm::RS256);
    assert_eq!(algorithm_from_name(""), Algorithm::RS256);
}
