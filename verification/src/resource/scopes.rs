//! Scope checking for validated token claims.

use vstd::prelude::*;

use crate::text::{has_word, is_space, is_word, join, law_words_of_joined_text};

verus! {

/// A trait for checking OAuth 2.0 scopes on token claims.
///
/// Implement this for your claims type so that a guard can enforce scope-based
/// access rules.
///
/// The functions that only contracts speak of need not be given where the trait
/// is implemented outside of verified code.
pub trait HasScopes {
    /// The token grants the given scope.
    closed spec fn grants(&self, scope: Seq<char>) -> bool {
        arbitrary()
    }

    /// Returns `true` if the token grants the given scope.
    fn has_scope(&self, scope: &str) -> (r: bool)
        ensures
            r == self.grants(scope@),
    ;
}

/// The claims of an RFC 9068 access token beyond the registered ones.
#[derive(Debug)]
pub struct Rfc9068AccessTokenClaims<E> {
    /// The client that requested the token.
    pub client_id: String,
    /// Time of the end-user authentication, as a Unix timestamp.
    pub auth_time: Option<u64>,
    /// Authentication context class reference.
    pub acr: Option<String>,
    /// Authentication methods references.
    pub amr: Vec<String>,
    /// Space-separated list of scopes associated with the token.
    pub scope: Option<String>,
    /// Additional claims.
    pub extra_claims: E,
}

impl<E> HasScopes for Rfc9068AccessTokenClaims<E> {
    open spec fn grants(&self, scope: Seq<char>) -> bool {
        self.scope is Some && is_word(self.scope->0@, scope)
    }

    fn has_scope(&self, scope: &str) -> (r: bool) {
        match &self.scope {
            Some(s) => has_word(s.as_str(), scope),
            None => false,
        }
    }
}

/// The scope claim is read word by word: a token grants exactly the scopes that
/// stand in it between single spaces, and one without the claim grants none.
pub proof fn law_scope_claim_is_read_word_by_word<E>(
    claims: Rfc9068AccessTokenClaims<E>,
    granted: Seq<Seq<char>>,
    scope: Seq<char>,
)
    requires
        forall|i: int| 0 <= i < granted.len() ==> (#[trigger] granted[i]).len() > 0,
        forall|i: int, k: int|
            0 <= i < granted.len() && 0 <= k < granted[i].len() ==> !is_space(
                #[trigger] granted[i][k],
            ),
    ensures
        claims.scope is None ==> !claims.grants(scope),
        claims.scope is Some && claims.scope->0@ == join(granted, seq![' ']) ==> (claims.grants(
            scope,
        ) <==> exists|i: int| 0 <= i < granted.len() && #[trigger] granted[i] == scope),
{
    reveal_strlit(" ");
    assert(" "@ == seq![' ']);
    law_words_of_joined_text(granted, scope);
}

} // verus!
