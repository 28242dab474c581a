//! The decision that the relay asks for on every authenticated request.

use crate::access::{permits, AllowList, IpAddress, SocketAddress};
use crate::algorithm::Algorithm;
use crate::credential_file::{
    is_first_malformed, is_well_formed, lines_of, parse_credentials, spec_credentials, ConfigError,
};
use crate::credentials::{spec_lookup, CredentialStore};
use crate::key_derivation::{derive_key, spec_derive_key};
use crate::token::{SigningKeySource, TokenConfig, TokenConfigView, TokenVerdict};
use vstd::prelude::*;

verus! {

/// Why a request is rejected.
#[derive(Clone, Copy, Debug, PartialEq, Eq, Structural)]
pub enum AuthError {
    /// The source IP is not on the allow-list, which is not empty.
    AddressRejected,
    /// The token is malformed, its signature does not verify, or it has
    /// expired.
    TokenInvalid,
    /// The username has no key in the store, and token mode is off.
    UnknownUser,
}

/// The text of `AuthError::message`.
pub open spec fn spec_message(error: AuthError) -> Seq<char> {
    match error {
        AuthError::AddressRejected => "Source address is not allowed."@,
        AuthError::TokenInvalid => "Perhaps your token has expired?"@,
        AuthError::UnknownUser => "Unknown user."@,
    }
}

impl AuthError {
    /// What to tell the peer. The text for a token says nothing of why the
    /// token failed.
    pub fn message(&self) -> (text: String)
        ensures
            text@ == spec_message(*self),
    {
        match self {
            AuthError::AddressRejected => "Source address is not allowed.".to_owned(),
            AuthError::TokenInvalid => "Perhaps your token has expired?".to_owned(),
            AuthError::UnknownUser => "Unknown user.".to_owned(),
        }
    }
}

/// What a request leads to, with keys as sequences of bytes.
pub enum StepView {
    Decided(Result<Seq<u8>, AuthError>),
    ValidateToken,
}

/// What `auth_handle` asks of its caller.
#[derive(Debug, PartialEq, Eq)]
pub enum AuthStep {
    /// The request is decided: granted with this key, or rejected.
    Decided(Result<Vec<u8>, AuthError>),
    /// Token mode is on and the source is allowed: the username is a token.
    /// Have it validated, and hand the verdict to `token_checked`.
    ValidateToken,
}

/// A decision with its key as a sequence of bytes.
pub open spec fn decision_view(decision: Result<Vec<u8>, AuthError>) -> Result<
    Seq<u8>,
    AuthError,
> {
    match decision {
        Ok(key) => Ok(key@),
        Err(error) => Err(error),
    }
}

impl View for AuthStep {
    type V = StepView;

    open spec fn view(&self) -> StepView {
        match self {
            AuthStep::Decided(decision) => StepView::Decided(decision_view(*decision)),
            AuthStep::ValidateToken => StepView::ValidateToken,
        }
    }
}

/// An `Authenticator` as plain values.
pub struct AuthenticatorView {
    /// The key of each known username.
    pub combo: Map<Seq<char>, Seq<u8>>,
    /// The settings of token mode, where it is on.
    pub token: Option<TokenConfigView>,
    /// The addresses that may authenticate; none listed means all may.
    pub allowed_ips: Seq<SocketAddress>,
}

/// What password mode decides: the stored key of the username, or that the
/// user is unknown.
pub open spec fn spec_password_result(
    combo: Map<Seq<char>, Seq<u8>>,
    username: Seq<char>,
) -> Result<Seq<u8>, AuthError> {
    match spec_lookup(combo, username) {
        Some(key) => Ok(key),
        None => Err(AuthError::UnknownUser),
    }
}

/// What token mode decides, given the verdict on the token: a valid token
/// is granted with the empty key, which tells the relay that the request
/// needs no further check; any other token is rejected.
pub open spec fn spec_token_result(verdict: TokenVerdict) -> Result<Seq<u8>, AuthError> {
    match verdict {
        TokenVerdict::Valid => Ok(Seq::<u8>::empty()),
        TokenVerdict::Invalid => Err(AuthError::TokenInvalid),
    }
}

/// The decision on a request. The address is checked first. Then token
/// mode, where it is on, decides alone by `verdict`, which is what the
/// validation of `username` as a token reports. Only where token mode is
/// off is the username looked up. The realm of the request plays no part.
pub open spec fn spec_decision(
    auth: AuthenticatorView,
    username: Seq<char>,
    ip: IpAddress,
    verdict: TokenVerdict,
) -> Result<Seq<u8>, AuthError> {
    if !permits(auth.allowed_ips, ip) {
        Err(AuthError::AddressRejected)
    } else if auth.token is Some {
        spec_token_result(verdict)
    } else {
        spec_password_result(auth.combo, username)
    }
}

/// How far a request gets without the verdict on a token.
pub open spec fn spec_first_step(
    auth: AuthenticatorView,
    username: Seq<char>,
    ip: IpAddress,
) -> StepView {
    if !permits(auth.allowed_ips, ip) {
        StepView::Decided(Err(AuthError::AddressRejected))
    } else if auth.token is Some {
        StepView::ValidateToken
    } else {
        StepView::Decided(spec_password_result(auth.combo, username))
    }
}

/// The authenticator after a user has been added.
pub open spec fn spec_add_user(
    auth: AuthenticatorView,
    username: Seq<char>,
    password: Seq<char>,
    realm: Seq<char>,
) -> AuthenticatorView {
    AuthenticatorView {
        combo: auth.combo.insert(username, spec_derive_key(username, realm, password)),
        ..auth
    }
}

/// The authenticator after the users of `credentials`, pairs of a username
/// and a password, have been added one after the other.
pub open spec fn spec_add_users(
    auth: AuthenticatorView,
    credentials: Seq<(Seq<char>, Seq<char>)>,
    realm: Seq<char>,
) -> AuthenticatorView
    decreases credentials.len(),
{
    if credentials.len() == 0 {
        auth
    } else {
        spec_add_user(
            spec_add_users(auth, credentials.drop_last(), realm),
            credentials.last().0,
            credentials.last().1,
            realm,
        )
    }
}

/// The authenticator after an algorithm has been selected: token mode, where
/// it is on, takes the algorithm and keeps its key.
pub open spec fn spec_with_algorithm(
    auth: AuthenticatorView,
    algorithm: Algorithm,
) -> AuthenticatorView {
    AuthenticatorView {
        token: match auth.token {
            Some(config) => Some(TokenConfigView { key: config.key, algorithm }),
            None => None,
        },
        ..auth
    }
}

/// Checks connection information: credentials by username, token mode and
/// the allow-list of source addresses.
pub struct Authenticator {
    /// Username and key combo.
    pub combo: CredentialStore,
    token_manager: Option<TokenConfig>,
    /// Allow only the listed IPs to connect; none listed allows all.
    allowed_ips: AllowList,
}

impl View for Authenticator {
    type V = AuthenticatorView;

    closed spec fn view(&self) -> AuthenticatorView {
        AuthenticatorView {
            combo: self.combo@,
            token: match self.token_manager {
                Some(config) => Some(config@),
                None => None,
            },
            allowed_ips: self.allowed_ips@,
        }
    }
}

/// The authenticator that knows no user, has token mode off and lets every
/// source through.
pub open spec fn spec_empty() -> AuthenticatorView {
    AuthenticatorView {
        combo: Map::<Seq<char>, Seq<u8>>::empty(),
        token: None,
        allowed_ips: Seq::<SocketAddress>::empty(),
    }
}

impl Default for Authenticator {
    fn default() -> (auth: Authenticator)
        ensures
            auth@ == spec_empty(),
    {
        Authenticator::new()
    }
}

impl Authenticator {
    /// An authenticator without users, with token mode off and an empty
    /// allow-list.
    pub fn new() -> (auth: Authenticator)
        ensures
            auth@ == spec_empty(),
    {
        Authenticator {
            combo: CredentialStore::new(),
            token_manager: None,
            allowed_ips: AllowList::new(),
        }
    }

    /// The store of credential keys.
    pub fn credentials(&self) -> (store: &CredentialStore)
        ensures
            store@ == self@.combo,
    {
        &self.combo
    }

    /// Turns token mode on, with the key from `key` and RS256. From then on
    /// tokens decide, and the store is not consulted.
    pub fn public_key(&mut self, key: SigningKeySource)
        ensures
            final(self)@ == (AuthenticatorView {
                token: Some(TokenConfigView { key: key@, algorithm: Algorithm::RS256 }),
                ..old(self)@
            }),
    {
        self.token_manager = Some(TokenConfig::new(key, Algorithm::RS256));
    }

    /// Selects the algorithm of token mode. Where token mode is off, nothing
    /// changes.
    pub fn algorithm(self, algorithm: Algorithm) -> (auth: Authenticator)
        ensures
            auth@ == spec_with_algorithm(self@, algorithm),
    {
        let Authenticator { combo, token_manager, allowed_ips } = self;
        let token_manager = match token_manager {
            Some(config) => Some(config.with_algorithm(algorithm)),
            None => None,
        };
        Authenticator { combo, token_manager, allowed_ips }
    }

    /// Inserts a user with the key derived from the password in `realm`. A
    /// user of that name who is there already gets the new key.
    pub fn add_user(&mut self, username: String, password: String, realm: &str)
        ensures
            final(self)@ == spec_add_user(old(self)@, username@, password@, realm@),
    {
        let key = derive_key(username.as_str(), realm, password.as_str());
        self.combo.insert(username, key);
    }

    /// Adds the users of a credential file, each with the key derived from
    /// its password in `realm`, and tells how many lines were read. Where
    /// two lines name one user, the later line counts. A file with a line
    /// that holds no `=` adds no user at all.
    pub fn load_users(&mut self, text: &str, realm: &str) -> (loaded: Result<usize, ConfigError>)
        ensures
            match loaded {
                Ok(count) => {
                    &&& is_well_formed(text@)
                    &&& count == lines_of(text@).len()
                    &&& final(self)@ == spec_add_users(old(self)@, spec_credentials(text@), realm@)
                },
                Err(ConfigError::MissingSeparator { line }) => {
                    &&& is_first_malformed(lines_of(text@), line as int)
                    &&& final(self)@ == old(self)@
                },
            },
    {
        let credentials = match parse_credentials(text) {
            Ok(credentials) => credentials,
            Err(error) => {
                return Err(error);
            },
        };
        let ghost pairs = spec_credentials(text@);
        let mut i: usize = 0;
        while i < credentials.len()
            invariant
                i <= credentials.len(),
                credentials.deep_view() == pairs,
                self@ == spec_add_users(old(self)@, pairs.take(i as int), realm@),
            decreases credentials.len() - i,
        {
            let username = credentials[i].username.clone();
            let password = credentials[i].password.clone();
            proof {
                let next = pairs.take(i + 1);
                assert(next.drop_last() == pairs.take(i as int));
                assert(next.last() == pairs[i as int]);
                assert(pairs[i as int] == credentials@[i as int]@);
            }
            self.add_user(username, password, realm);
            i += 1;
        }
        assert(pairs.take(i as int) == pairs);
        Ok(credentials.len())
    }

    /// Puts `address` on the allow-list, unless it is there already.
    pub fn allow_address(&mut self, address: SocketAddress)
        ensures
            final(self)@ == (AuthenticatorView {
                allowed_ips: if old(self)@.allowed_ips.contains(address) {
                    old(self)@.allowed_ips
                } else {
                    old(self)@.allowed_ips.push(address)
                },
                ..old(self)@
            }),
    {
        self.allowed_ips.allow(address);
    }

    /// The settings of token mode, where it is on.
    pub fn token_config(&self) -> (config: Option<&TokenConfig>)
        ensures
            match config {
                Some(c) => self@.token == Some(c@),
                None => self@.token is None,
            },
    {
        self.token_manager.as_ref()
    }

    /// Whether a request from `ip` may go on to authenticate.
    pub fn is_allowed(&self, ip: IpAddress) -> (allowed: bool)
        ensures
            allowed == permits(self@.allowed_ips, ip),
    {
        self.allowed_ips.is_allowed(ip)
    }

    /// Takes a request as far as it goes without validating a token. A source
    /// that the allow-list leaves out is rejected at once. Else, with token
    /// mode on, the caller is asked to validate `username` as a token. Else
    /// the key of `username` is looked up. `realm` is accepted and not looked
    /// at.
    pub fn auth_handle(&self, username: &str, realm: &str, src_addr: SocketAddress) -> (step:
        AuthStep)
        ensures
            step@ == spec_first_step(self@, username@, src_addr.ip),
    {
        if !self.allowed_ips.is_allowed(src_addr.ip) {
            return AuthStep::Decided(Err(AuthError::AddressRejected));
        }
        if self.token_manager.is_some() {
            AuthStep::ValidateToken
        } else {
            match self.combo.lookup(username) {
                Some(key) => AuthStep::Decided(Ok(key)),
                None => AuthStep::Decided(Err(AuthError::UnknownUser)),
            }
        }
    }

    /// Decides a request in token mode from the verdict on its token.
    pub fn token_checked(verdict: TokenVerdict) -> (decision: Result<Vec<u8>, AuthError>)
        ensures
            decision_view(decision) == spec_token_result(verdict),
    {
        match verdict {
            TokenVerdict::Valid => Ok(Vec::new()),
            TokenVerdict::Invalid => Err(AuthError::TokenInvalid),
        }
    }

    /// Decides a request for which the verdict on its token is at hand.
    pub fn decide(
        &self,
        username: &str,
        realm: &str,
        src_addr: SocketAddress,
        verdict: TokenVerdict,
    ) -> (decision: Result<Vec<u8>, AuthError>)
        ensures
            decision_view(decision) == spec_decision(self@, username@, src_addr.ip, verdict),
    {
        match self.auth_handle(username, realm, src_addr) {
            AuthStep::Decided(decision) => decision,
            AuthStep::ValidateToken => Authenticator::token_checked(verdict),
        }
    }
}

} // verus!
