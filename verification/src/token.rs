//! How token mode is configured, and what a validation of a token reports.

use crate::algorithm::Algorithm;
use crate::text::starts_with;
use vstd::prelude::*;

verus! {

/// The first line of a PEM-encoded public key.
pub open spec fn spec_pem_header() -> Seq<char> {
    "-----BEGIN PUBLIC KEY-----"@
}

/// Whether `material` is key text itself, as opposed to the path of a file
/// that holds it: key text begins with the PEM header.
pub open spec fn is_key_text(material: Seq<char>) -> bool {
    spec_pem_header().is_prefix_of(material)
}

/// Where the key that verifies tokens comes from.
#[derive(Debug, PartialEq, Eq)]
pub enum SigningKeySource {
    /// The key itself, as PEM text.
    Inline(String),
    /// The path of a file that holds the key.
    Path(String),
}

/// A `SigningKeySource` with its text as characters.
pub enum KeySourceView {
    Inline(Seq<char>),
    Path(Seq<char>),
}

impl View for SigningKeySource {
    type V = KeySourceView;

    open spec fn view(&self) -> KeySourceView {
        match self {
            SigningKeySource::Inline(text) => KeySourceView::Inline(text@),
            SigningKeySource::Path(path) => KeySourceView::Path(path@),
        }
    }
}

/// The source that `material` stands for.
pub open spec fn spec_key_source(material: Seq<char>) -> KeySourceView {
    if is_key_text(material) {
        KeySourceView::Inline(material)
    } else {
        KeySourceView::Path(material)
    }
}

impl SigningKeySource {
    /// Tells key text from a path by what `material` holds: text that begins
    /// with the PEM header is the key, any other text is a path.
    pub fn from_text(material: String) -> (source: SigningKeySource)
        ensures
            source@ == spec_key_source(material@),
    {
        if starts_with(material.as_str(), "-----BEGIN PUBLIC KEY-----") {
            SigningKeySource::Inline(material)
        } else {
            SigningKeySource::Path(material)
        }
    }

    /// Whether this is the key itself.
    pub fn is_inline(&self) -> (inline: bool)
        ensures
            inline == (self@ is Inline),
    {
        match self {
            SigningKeySource::Inline(_) => true,
            SigningKeySource::Path(_) => false,
        }
    }

    /// The key text, or the path.
    pub fn text(&self) -> (text: &str)
        ensures
            self@ == KeySourceView::Inline(text@) || self@ == KeySourceView::Path(text@),
    {
        match self {
            SigningKeySource::Inline(text) => text.as_str(),
            SigningKeySource::Path(path) => path.as_str(),
        }
    }
}

/// The settings of token mode: the key that verifies tokens and the
/// algorithm they are signed with.
#[derive(Debug, PartialEq, Eq)]
pub struct TokenConfig {
    key: SigningKeySource,
    algorithm: Algorithm,
}

/// A `TokenConfig` as plain values.
pub struct TokenConfigView {
    pub key: KeySourceView,
    pub algorithm: Algorithm,
}

impl View for TokenConfig {
    type V = TokenConfigView;

    closed spec fn view(&self) -> TokenConfigView {
        TokenConfigView { key: self.key@, algorithm: self.algorithm }
    }
}

impl TokenConfig {
    /// Token mode with the key from `key` and the algorithm `algorithm`.
    pub fn new(key: SigningKeySource, algorithm: Algorithm) -> (config: TokenConfig)
        ensures
            config@ == (TokenConfigView { key: key@, algorithm }),
    {
        TokenConfig { key, algorithm }
    }

    /// The same key with another algorithm.
    pub fn with_algorithm(self, algorithm: Algorithm) -> (config: TokenConfig)
        ensures
            config@ == (TokenConfigView { key: self@.key, algorithm }),
    {
        TokenConfig { key: self.key, algorithm }
    }

    /// Where the key comes from.
    pub fn key(&self) -> (key: &SigningKeySource)
        ensures
            key@ == self@.key,
    {
        &self.key
    }

    /// The algorithm that tokens are signed with.
    pub fn algorithm(&self) -> (algorithm: Algorithm)
        ensures
            algorithm == self@.algorithm,
    {
        self.algorithm
    }
}

/// What the validation of a token found.
#[derive(Clone, Copy, Debug, PartialEq, Eq, Structural)]
pub enum TokenVerdict {
    /// The token decodes, its signature verifies and it has not expired.
    Valid,
    /// The token is malformed, its signature does not verify, or it has
    /// expired.
    Invalid,
}

} // verus!
