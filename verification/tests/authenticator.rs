use turn_authenticator::access::{IpAddress, SocketAddress};
use turn_authenticator::algorithm::{string_to_algorithm, Algorithm};
use turn_authenticator::authenticator::{AuthError, AuthStep, Authenticator};
use turn_authenticator::credential_file::ConfigError;
use turn_authenticator::key_derivation::derive_key;
use turn_authenticator::token::{SigningKeySource, TokenVerdict};

const PEM: &str = "-----BEGIN PUBLIC KEY-----\nMFkw\n-----END PUBLIC KEY-----\n";

fn from(a: u8, b: u8, c: u8, d: u8) -> SocketAddress {
    SocketAddress { ip: IpAddress::from_octets(a, b, c, d), port: 40000 }
}

#[test]
fn scenario_user_from_credential_file_gets_derived_key() {
    let mut auth = Authenticator::default();
    assert_eq!(auth.load_users("alice=secret1\n", "example.com"), Ok(1));
    let expected = derive_key("alice", "example.com", "secret1");
    assert_eq!(
        auth.auth_handle("alice", "example.com", from(203, 0, 113, 7)),
        AuthStep::Decided(Ok(expected.clone()))
    );
    assert_eq!(
        auth.auth_handle("alice", "example.com", SocketAddress { ip: IpAddress::V6(1), port: 1 }),
        AuthStep::Decided(Ok(expected))
    );
    assert_eq!(
        auth.decide("alice", "example.com", from(203, 0, 113, 7), TokenVerdict::Invalid),
        Ok(vec![113, 186, 14, 189, 134, 64, 159, 233, 120, 14, 224, 198, 55, 15, 89, 230])
    );
}

#[test]
fn scenario_address_outside_allow_list_is_rejected_first() {
    let mut auth = Authenticator::new();
    auth.allow_address(from(10, 0, 0, 5));
    auth.add_user("alice".to_string(), "secret1".to_string(), "example.com");
    assert_eq!(
        auth.auth_handle("alice", "example.com", from(10, 0, 0, 9)),
        AuthStep::Decided(Err(AuthError::AddressRejected))
    );
    assert_eq!(
        auth.auth_handle("nobody", "example.com", from(10, 0, 0, 9)),
        AuthStep::Decided(Err(AuthError::AddressRejected))
    );
    assert!(!auth.is_allowed(IpAddress::from_octets(10, 0, 0, 9)));
    assert!(auth.is_allowed(IpAddress::from_octets(10, 0, 0, 5)));
    assert_eq!(
        auth.auth_handle("alice", "example.com", from(10, 0, 0, 5)),
        AuthStep::Decided(Ok(derive_key("alice", "example.com", "secret1")))
    );
}

#[test]
fn rejected_address_asks_for_no_token_validation() {
    let mut auth = Authenticator::new();
    auth.allow_address(from(10, 0, 0, 5));
    auth.public_key(SigningKeySource::from_text(PEM.to_string()));
    assert_eq!(
        auth.auth_handle("a.b.c", "example.com", from(10, 0, 0, 9)),
        AuthStep::Decided(Err(AuthError::AddressRejected))
    );
    assert_eq!(
        auth.decide("a.b.c", "example.com", from(10, 0, 0, 9), TokenVerdict::Valid),
        Err(AuthError::AddressRejected)
    );
    assert_eq!(
        auth.auth_handle("a.b.c", "example.com", from(10, 0, 0, 5)),
        AuthStep::ValidateToken
    );
}

#[test]
fn scenario_nothing_configured_knows_no_user() {
    let auth = Authenticator::default();
    assert!(auth.token_config().is_none());
    assert_eq!(auth.credentials().len(), 0);
    assert_eq!(
        auth.auth_handle("alice", "example.com", from(10, 0, 0, 9)),
        AuthStep::Decided(Err(AuthError::UnknownUser))
    );
    assert_eq!(
        auth.auth_handle("", "", SocketAddress { ip: IpAddress::V6(0), port: 0 }),
        AuthStep::Decided(Err(AuthError::UnknownUser))
    );
    assert_eq!(
        auth.decide("alice", "example.com", from(10, 0, 0, 9), TokenVerdict::Valid),
        Err(AuthError::UnknownUser)
    );
}

#[test]
fn valid_token_takes_precedence_over_stored_key() {
    let mut auth = Authenticator::new();
    auth.add_user("a.b.c".to_string(), "secret1".to_string(), "example.com");
    auth.public_key(SigningKeySource::from_text(PEM.to_string()));
    assert_eq!(auth.auth_handle("a.b.c", "example.com", from(1, 2, 3, 4)), AuthStep::ValidateToken);
    assert_eq!(Authenticator::token_checked(TokenVerdict::Valid), Ok(vec![]));
    assert_eq!(
        auth.decide("a.b.c", "example.com", from(1, 2, 3, 4), TokenVerdict::Valid),
        Ok(vec![])
    );
}

#[test]
fn invalid_token_is_rejected_also_for_a_stored_user() {
    let mut auth = Authenticator::new();
    auth.add_user("alice".to_string(), "secret1".to_string(), "example.com");
    auth.public_key(SigningKeySource::from_text(PEM.to_string()));
    assert_eq!(Authenticator::token_checked(TokenVerdict::Invalid), Err(AuthError::TokenInvalid));
    assert_eq!(
        auth.decide("alice", "example.com", from(1, 2, 3, 4), TokenVerdict::Invalid),
        Err(AuthError::TokenInvalid)
    );
}

#[test]
fn realm_of_the_request_is_not_compared() {
    let mut auth = Authenticator::new();
    auth.add_user("alice".to_string(), "secret1".to_string(), "example.com");
    assert_eq!(
        auth.auth_handle("alice", "other.org", from(1, 2, 3, 4)),
        AuthStep::Decided(Ok(derive_key("alice", "example.com", "secret1")))
    );
}

#[test]
fn add_user_twice_keeps_latest_key() {
    let mut auth = Authenticator::new();
    auth.add_user("alice".to_string(), "secret1".to_string(), "example.com");
    auth.add_user("alice".to_string(), "secret2".to_string(), "example.com");
    assert_eq!(auth.credentials().len(), 1);
    assert_eq!(
        auth.combo.lookup("alice"),
        Some(vec![134, 144, 119, 154, 51, 12, 141, 217, 186, 154, 129, 199, 214, 238, 37, 117])
    );
    assert_eq!(
        auth.auth_handle("alice", "example.com", from(1, 2, 3, 4)),
        AuthStep::Decided(Ok(derive_key("alice", "example.com", "secret2")))
    );
}

#[test]
fn public_key_configures_rs256() {
    let mut auth = Authenticator::new();
    auth.public_key(SigningKeySource::from_text("/etc/turn/key.pem".to_string()));
    let config = auth.token_config().expect("token mode is on");
    assert_eq!(config.algorithm(), Algorithm::RS256);
    assert_eq!(config.key(), &SigningKeySource::Path("/etc/turn/key.pem".to_string()));
}

#[test]
fn algorithm_is_taken_where_token_mode_is_on() {
    let mut auth = Authenticator::new();
    auth.add_user("alice".to_string(), "secret1".to_string(), "example.com");
    auth.public_key(SigningKeySource::from_text(PEM.to_string()));
    let auth = auth.algorithm(Algorithm::ES256);
    let config = auth.token_config().expect("token mode is on");
    assert_eq!(config.algorithm(), Algorithm::ES256);
    assert_eq!(config.key(), &SigningKeySource::Inline(PEM.to_string()));
    assert!(auth.combo.contains("alice"));
}

#[test]
fn algorithm_changes_nothing_where_token_mode_is_off() {
    let mut auth = Authenticator::new();
    auth.add_user("alice".to_string(), "secret1".to_string(), "example.com");
    let auth = auth.algorithm(Algorithm::ES256);
    assert!(auth.token_config().is_none());
    assert_eq!(
        auth.auth_handle("alice", "example.com", from(1, 2, 3, 4)),
        AuthStep::Decided(Ok(derive_key("alice", "example.com", "secret1")))
    );
}

#[test]
fn unknown_algorithm_name_configures_rs256() {
    let mut auth = Authenticator::new();
    auth.public_key(SigningKeySource::from_text(PEM.to_string()));
    let auth = auth.algorithm(Algorithm::HS512);
    let auth = auth.algorithm(string_to_algorithm("no-such-algorithm".to_string()));
    assert_eq!(auth.token_config().expect("token mode is on").algorithm(), Algorithm::RS256);
}

#[test]
fn load_users_reads_every_line() {
    let mut auth = Authenticator::new();
    assert_eq!(auth.load_users("alice=secret1\nbob=p=a=ss\nalice=secret2\n", "example.com"), Ok(3));
    assert_eq!(auth.credentials().len(), 2);
    assert_eq!(
        auth.combo.lookup("alice"),
        Some(derive_key("alice", "example.com", "secret2"))
    );
    assert_eq!(
        auth.combo.lookup("bob"),
        Some(vec![232, 213, 40, 29, 208, 37, 2, 169, 224, 233, 146, 212, 61, 179, 58, 222])
    );
}

#[test]
fn load_users_adds_nothing_from_a_malformed_file() {
    let mut auth = Authenticator::new();
    auth.add_user("carol".to_string(), "x".to_string(), "example.com");
    assert_eq!(
        auth.load_users("alice=secret1\nbob\n", "example.com"),
        Err(ConfigError::MissingSeparator { line: 1 })
    );
    assert_eq!(auth.credentials().len(), 1);
    assert!(!auth.combo.contains("alice"));
    assert!(auth.combo.contains("carol"));
}

#[test]
fn messages_of_rejections() {
    assert_eq!(AuthError::TokenInvalid.message(), "Perhaps your token has expired?");
    assert_eq!(AuthError::AddressRejected.message(), "Source address is not allowed.");
    assert_eq!(AuthError::UnknownUser.message(), "Unknown user.");
}
