//! What holds of every decision, stated over the model of the
//! authenticator.

use crate::access::{lists_ip, permits, IpAddress, SocketAddress};
use crate::authenticator::{
    spec_add_user, spec_add_users, spec_decision, spec_empty, spec_first_step, spec_token_result,
    AuthError, AuthenticatorView, StepView,
};
use crate::credentials::spec_lookup;
use crate::key_derivation::spec_derive_key;
use crate::token::TokenVerdict;
use vstd::prelude::*;

verus! {

/// The two steps of a decision give the decision: what `auth_handle` decides
/// is the decision whatever the verdict, and where it asks for a token to be
/// validated, the decision is that of token mode on the verdict.
pub proof fn lemma_steps_give_decision(
    auth: AuthenticatorView,
    username: Seq<char>,
    ip: IpAddress,
    verdict: TokenVerdict,
)
    ensures
        spec_decision(auth, username, ip, verdict) == match spec_first_step(auth, username, ip) {
            StepView::Decided(decision) => decision,
            StepView::ValidateToken => spec_token_result(verdict),
        },
{
}

/// A source that the allow-list leaves out is rejected for its address,
/// whatever the username, the verdict on a token and the store hold, and
/// without a token being validated or a username looked up.
pub proof fn lemma_address_is_checked_first(
    auth: AuthenticatorView,
    username: Seq<char>,
    ip: IpAddress,
    verdict: TokenVerdict,
)
    requires
        !permits(auth.allowed_ips, ip),
    ensures
        spec_decision(auth, username, ip, verdict) == Err::<Seq<u8>, AuthError>(
            AuthError::AddressRejected,
        ),
        spec_first_step(auth, username, ip) == StepView::Decided(
            Err(AuthError::AddressRejected),
        ),
{
}

/// With an allow-list that holds one address only, a request from any other
/// IP is rejected for its address.
pub proof fn lemma_single_allowed_address_rejects_others(
    auth: AuthenticatorView,
    allowed: SocketAddress,
    username: Seq<char>,
    ip: IpAddress,
    verdict: TokenVerdict,
)
    requires
        auth.allowed_ips == seq![allowed],
        ip != allowed.ip,
    ensures
        spec_decision(auth, username, ip, verdict) == Err::<Seq<u8>, AuthError>(
            AuthError::AddressRejected,
        ),
{
    assert(!lists_ip(auth.allowed_ips, ip));
}

/// Token mode takes precedence: where it is on and the source is allowed, a
/// valid token is granted with the empty key, also where the store holds a
/// key for the same username.
pub proof fn lemma_valid_token_takes_precedence(
    auth: AuthenticatorView,
    username: Seq<char>,
    ip: IpAddress,
)
    requires
        auth.token is Some,
        permits(auth.allowed_ips, ip),
    ensures
        spec_decision(auth, username, ip, TokenVerdict::Valid) == Ok::<Seq<u8>, AuthError>(
            Seq::<u8>::empty(),
        ),
{
}

/// A token that is not valid is never accepted: where token mode is on, the
/// request is rejected, for the token or before that for its address, and the
/// store cannot make up for it.
pub proof fn lemma_invalid_token_is_rejected(
    auth: AuthenticatorView,
    username: Seq<char>,
    ip: IpAddress,
)
    requires
        auth.token is Some,
    ensures
        permits(auth.allowed_ips, ip) ==> spec_decision(auth, username, ip, TokenVerdict::Invalid)
            == Err::<Seq<u8>, AuthError>(AuthError::TokenInvalid),
        spec_decision(auth, username, ip, TokenVerdict::Invalid) is Err,
{
}

/// With token mode off, the verdict on a token plays no part.
pub proof fn lemma_verdict_unused_without_token_mode(
    auth: AuthenticatorView,
    username: Seq<char>,
    ip: IpAddress,
    verdict: TokenVerdict,
    other: TokenVerdict,
)
    requires
        auth.token is None,
    ensures
        spec_decision(auth, username, ip, verdict) == spec_decision(auth, username, ip, other),
{
}

/// With no user, token mode off and an empty allow-list, every request is
/// rejected as coming from an unknown user.
pub proof fn lemma_nothing_configured_knows_no_user(
    username: Seq<char>,
    ip: IpAddress,
    verdict: TokenVerdict,
)
    ensures
        spec_decision(spec_empty(), username, ip, verdict) == Err::<Seq<u8>, AuthError>(
            AuthError::UnknownUser,
        ),
{
}

/// A user who was added is granted, from an allowed source and with token
/// mode off, with the key derived from the name, the realm and the password
/// that were given. The realm of the request is not compared.
pub proof fn lemma_added_user_is_granted_derived_key(
    auth: AuthenticatorView,
    username: Seq<char>,
    password: Seq<char>,
    realm: Seq<char>,
    ip: IpAddress,
    verdict: TokenVerdict,
)
    requires
        auth.token is None,
        permits(auth.allowed_ips, ip),
    ensures
        spec_decision(spec_add_user(auth, username, password, realm), username, ip, verdict)
            == Ok::<Seq<u8>, AuthError>(spec_derive_key(username, realm, password)),
{
}

/// Adding a user twice leaves the key of the second password only.
pub proof fn lemma_add_user_overwrites(
    auth: AuthenticatorView,
    username: Seq<char>,
    first: Seq<char>,
    second: Seq<char>,
    realm: Seq<char>,
)
    ensures
        spec_add_user(spec_add_user(auth, username, first, realm), username, second, realm)
            == spec_add_user(auth, username, second, realm),
{
    let once = spec_add_user(auth, username, first, realm);
    assert(once.combo.insert(username, spec_derive_key(username, realm, second))
        =~= auth.combo.insert(username, spec_derive_key(username, realm, second)));
}

/// Adding users changes neither token mode nor the allow-list.
pub proof fn lemma_add_users_keeps_the_rest(
    auth: AuthenticatorView,
    credentials: Seq<(Seq<char>, Seq<char>)>,
    realm: Seq<char>,
)
    ensures
        spec_add_users(auth, credentials, realm).token == auth.token,
        spec_add_users(auth, credentials, realm).allowed_ips == auth.allowed_ips,
    decreases credentials.len(),
{
    if credentials.len() > 0 {
        lemma_add_users_keeps_the_rest(auth, credentials.drop_last(), realm);
    }
}

/// Among several pairs for one username the last counts: after the users of
/// `credentials` have been added, a username has the key derived from the
/// password of the last pair that names it.
pub proof fn lemma_add_users_last_pair_counts(
    auth: AuthenticatorView,
    credentials: Seq<(Seq<char>, Seq<char>)>,
    realm: Seq<char>,
    last: int,
)
    requires
        0 <= last < credentials.len(),
        forall|later: int|
            last < later < credentials.len() ==> (#[trigger] credentials[later]).0
                != credentials[last].0,
    ensures
        spec_lookup(spec_add_users(auth, credentials, realm).combo, credentials[last].0) == Some(
            spec_derive_key(credentials[last].0, realm, credentials[last].1),
        ),
    decreases credentials.len(),
{
    if last < credentials.len() - 1 {
        let before = credentials.drop_last();
        assert(before[last] == credentials[last]);
        assert forall|later: int| last < later < before.len() implies (#[trigger] before[later]).0
            != before[last].0 by {
            assert(before[later] == credentials[later]);
        }
        lemma_add_users_last_pair_counts(auth, before, realm, last);
        assert(credentials.last() == credentials[credentials.len() - 1]);
    }
}

/// A username that no pair names keeps the key it had, or stays unknown.
pub proof fn lemma_add_users_keeps_unnamed_users(
    auth: AuthenticatorView,
    credentials: Seq<(Seq<char>, Seq<char>)>,
    realm: Seq<char>,
    username: Seq<char>,
)
    requires
        forall|i: int| 0 <= i < credentials.len() ==> (#[trigger] credentials[i]).0 != username,
    ensures
        spec_lookup(spec_add_users(auth, credentials, realm).combo, username) == spec_lookup(
            auth.combo,
            username,
        ),
    decreases credentials.len(),
{
    if credentials.len() > 0 {
        let before = credentials.drop_last();
        assert forall|i: int| 0 <= i < before.len() implies (#[trigger] before[i]).0
            != username by {
            assert(before[i] == credentials[i]);
        }
        lemma_add_users_keeps_unnamed_users(auth, before, realm, username);
        assert(credentials.last() == credentials[credentials.len() - 1]);
    }
}

} // verus!
