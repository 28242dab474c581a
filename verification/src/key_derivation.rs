//! Long-term credential keys.

use vstd::prelude::*;
use vstd::utf8::encode_utf8;

verus! {

/// The MD5 digest of a message, as `turn::auth::generate_auth_key` computes
/// it of the bytes that it joins.
pub uninterp spec fn md5_digest(message: Seq<u8>) -> Seq<u8>;

/// The bytes that are digested for a user: the UTF-8 encoding of
/// `username:realm:password`.
pub open spec fn credential_message(
    username: Seq<char>,
    realm: Seq<char>,
    password: Seq<char>,
) -> Seq<u8> {
    encode_utf8(username + seq![':'] + realm + seq![':'] + password)
}

/// The long-term credential key of a user in a realm.
pub open spec fn spec_derive_key(
    username: Seq<char>,
    realm: Seq<char>,
    password: Seq<char>,
) -> Seq<u8> {
    md5_digest(credential_message(username, realm, password))
}

/// Calls `turn::auth::generate_auth_key`, which joins its three arguments
/// with colons and returns the MD5 digest of the resulting bytes. The digest
/// is 16 bytes long.
#[verifier::external_body]
fn generate_auth_key(username: &str, realm: &str, password: &str) -> (key: Vec<u8>)
    ensures
        key@ == md5_digest(credential_message(username@, realm@, password@)),
        key@.len() == 16,
{
    turn::auth::generate_auth_key(username, realm, password)
}

/// Derives the key that the relay checks message integrity with.
pub fn derive_key(username: &str, realm: &str, password: &str) -> (key: Vec<u8>)
    ensures
        key@ == spec_derive_key(username@, realm@, password@),
        key@.len() == 16,
{
    generate_auth_key(username, realm, password)
}

/// The key is a function of the username, the realm and the password: the
/// same three give the same key, at every call.
pub proof fn lemma_derive_key_is_deterministic(
    username: Seq<char>,
    realm: Seq<char>,
    password: Seq<char>,
    username_again: Seq<char>,
    realm_again: Seq<char>,
    password_again: Seq<char>,
)
    requires
        username == username_again,
        realm == realm_again,
        password == password_again,
    ensures
        spec_derive_key(username, realm, password) == spec_derive_key(
            username_again,
            realm_again,
            password_again,
        ),
{
}

/// The key depends on the three fields only through the text that they are
/// joined to. Fields that differ and join to the same text, as `a:b`, `c`,
/// `d` and `a`, `b:c`, `d` do, have the same key.
pub proof fn lemma_key_depends_on_joined_text(
    username: Seq<char>,
    realm: Seq<char>,
    password: Seq<char>,
    other_username: Seq<char>,
    other_realm: Seq<char>,
    other_password: Seq<char>,
)
    requires
        username + seq![':'] + realm + seq![':'] + password == other_username + seq![':']
            + other_realm + seq![':'] + other_password,
    ensures
        spec_derive_key(username, realm, password) == spec_derive_key(
            other_username,
            other_realm,
            other_password,
        ),
{
}

} // verus!
