//! Signature algorithms of tokens, and how they are selected by name.

use crate::text::same_text;
use vstd::prelude::*;

verus! {

/// A signature or HMAC algorithm that a token can be signed with.
#[derive(Clone, Copy, Debug, PartialEq, Eq, Structural)]
pub enum Algorithm {
    ES256,
    ES384,
    EdDSA,
    HS256,
    HS384,
    HS512,
    PS256,
    PS384,
    PS512,
    RS256,
    RS384,
    RS512,
}

/// The uppercase equivalent of a string, as `str::to_uppercase` gives it.
pub uninterp spec fn uppercase_of(text: Seq<char>) -> Seq<char>;

/// The algorithm that an uppercase name selects. A name that is none of the
/// twelve known ones selects RS256.
pub open spec fn spec_algorithm_from_name(name: Seq<char>) -> Algorithm {
    if name == "ES256"@ {
        Algorithm::ES256
    } else if name == "ES384"@ {
        Algorithm::ES384
    } else if name == "EDDSA"@ {
        Algorithm::EdDSA
    } else if name == "HS256"@ {
        Algorithm::HS256
    } else if name == "HS384"@ {
        Algorithm::HS384
    } else if name == "HS512"@ {
        Algorithm::HS512
    } else if name == "PS256"@ {
        Algorithm::PS256
    } else if name == "PS384"@ {
        Algorithm::PS384
    } else if name == "PS512"@ {
        Algorithm::PS512
    } else if name == "RS256"@ {
        Algorithm::RS256
    } else if name == "RS384"@ {
        Algorithm::RS384
    } else if name == "RS512"@ {
        Algorithm::RS512
    } else {
        Algorithm::RS256
    }
}

/// Whether an uppercase name is one of the twelve known ones.
pub open spec fn is_known_name(name: Seq<char>) -> bool {
    ||| name == "ES256"@
    ||| name == "ES384"@
    ||| name == "EDDSA"@
    ||| name == "HS256"@
    ||| name == "HS384"@
    ||| name == "HS512"@
    ||| name == "PS256"@
    ||| name == "PS384"@
    ||| name == "PS512"@
    ||| name == "RS256"@
    ||| name == "RS384"@
    ||| name == "RS512"@
}

/// Calls `str::to_uppercase`, which returns the uppercase equivalent of the
/// string as a new `String`.
#[verifier::external_body]
fn to_uppercase(text: &str) -> (upper: String)
    ensures
        upper@ == uppercase_of(text@),
{
    text.to_uppercase()
}

/// Selects an algorithm by its uppercase name.
pub fn algorithm_from_name(name: &str) -> (algorithm: Algorithm)
    ensures
        algorithm == spec_algorithm_from_name(name@),
        !is_known_name(name@) ==> algorithm == Algorithm::RS256,
{
    if same_text(name, "ES256") {
        Algorithm::ES256
    } else if same_text(name, "ES384") {
        Algorithm::ES384
    } else if same_text(name, "EDDSA") {
        Algorithm::EdDSA
    } else if same_text(name, "HS256") {
        Algorithm::HS256
    } else if same_text(name, "HS384") {
        Algorithm::HS384
    } else if same_text(name, "HS512") {
        Algorithm::HS512
    } else if same_text(name, "PS256") {
        Algorithm::PS256
    } else if same_text(name, "PS384") {
        Algorithm::PS384
    } else if same_text(name, "PS512") {
        Algorithm::PS512
    } else if same_text(name, "RS256") {
        Algorithm::RS256
    } else if same_text(name, "RS384") {
        Algorithm::RS384
    } else if same_text(name, "RS512") {
        Algorithm::RS512
    } else {
        Algorithm::RS256
    }
}

/// Selects an algorithm by name, whatever the case of its letters. Any
/// other text selects RS256.
pub fn string_to_algorithm(algo: String) -> (algorithm: Algorithm)
    ensures
        algorithm == spec_algorithm_from_name(uppercase_of(algo@)),
        !is_known_name(uppercase_of(algo@)) ==> algorithm == Algorithm::RS256,
{
    let upper = to_uppercase(algo.as_str());
    algorithm_from_name(upper.as_str())
}

} // verus!
