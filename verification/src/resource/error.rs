//! Errors of building and configuring a guard.

use vstd::prelude::*;

use crate::text::{cat, cat3};

verus! {

/// `matchit::InsertError`, why a route pattern is refused.
#[verifier::external_type_specification]
#[verifier::external_body]
pub struct ExInsertError(matchit::InsertError);

/// Errors that can occur when building or configuring a guard.
#[derive(Debug)]
pub enum ConfigError {
    /// A route pattern was invalid.
    Route(matchit::InsertError),
    /// A public rule has audience or scope constraints that can never be
    /// enforced, because the token is never validated.
    ///
    /// The string is the route pattern, or `"<default>"` for the default rule.
    PublicRuleWithConstraints(String),
    /// The resource metadata could not be serialized.
    Metadata(serde_json::Error),
}

impl From<matchit::InsertError> for ConfigError {
    fn from(e: matchit::InsertError) -> (r: Self) {
        ConfigError::Route(e)
    }
}

impl vstd::std_specs::convert::FromSpecImpl<matchit::InsertError> for ConfigError {
    open spec fn obeys_from_spec() -> bool {
        true
    }

    open spec fn from_spec(e: matchit::InsertError) -> Self {
        ConfigError::Route(e)
    }
}

impl From<serde_json::Error> for ConfigError {
    fn from(e: serde_json::Error) -> (r: Self) {
        ConfigError::Metadata(e)
    }
}

impl vstd::std_specs::convert::FromSpecImpl<serde_json::Error> for ConfigError {
    open spec fn obeys_from_spec() -> bool {
        true
    }

    open spec fn from_spec(e: serde_json::Error) -> Self {
        ConfigError::Metadata(e)
    }
}

/// What a refused pattern says of itself.
pub uninterp spec fn insert_error_repr(e: matchit::InsertError) -> Seq<char>;

/// What a serialization error says of itself.
pub uninterp spec fn json_error_repr(e: serde_json::Error) -> Seq<char>;

/// What a refused pattern says of itself.
///
/// Trusted: `Display` of `matchit::InsertError`, whose text depends on the
/// error alone.
#[verifier::external_body]
fn insert_error_text(e: &matchit::InsertError) -> (r: String)
    ensures
        r@ == insert_error_repr(*e),
{
    format!("{e}")
}

/// What a serialization error says of itself.
///
/// Trusted: `Display` of `serde_json::Error`, whose text depends on the error
/// alone.
#[verifier::external_body]
fn json_error_text(e: &serde_json::Error) -> (r: String)
    ensures
        r@ == json_error_repr(*e),
{
    format!("{e}")
}

impl ConfigError {
    /// What the error says. The texts of outside errors stand behind a prefix.
    pub fn message(&self) -> (r: String)
        ensures
            match self {
                ConfigError::Route(e) => r@ == "invalid route pattern: "@ + insert_error_repr(*e),
                ConfigError::PublicRuleWithConstraints(pattern) => r@ == "public rule for \""@
                    + pattern@
                    + "\" has audience or scope constraints that can never be enforced"@,
                ConfigError::Metadata(e) => r@ == "failed to serialize resource metadata: "@
                    + json_error_repr(*e),
            },
    {
        match self {
            ConfigError::Route(e) => {
                let text = insert_error_text(e);
                cat("invalid route pattern: ", text.as_str())
            },
            ConfigError::PublicRuleWithConstraints(pattern) => cat3(
                "public rule for \"",
                pattern.as_str(),
                "\" has audience or scope constraints that can never be enforced",
            ),
            ConfigError::Metadata(e) => {
                let text = json_error_text(e);
                cat("failed to serialize resource metadata: ", text.as_str())
            },
        }
    }
}

/// What a configuration error says: what is wrong, and of which rule, or what
/// the crate behind it says.
pub proof fn law_config_error_says_what_is_wrong(e: &ConfigError, r: String)
    requires
        call_ensures(ConfigError::message, (e,), r),
    ensures
        *e is Route ==> r@ == "invalid route pattern: "@ + insert_error_repr(e->Route_0),
        *e is PublicRuleWithConstraints ==> r@ == "public rule for \""@
            + e->PublicRuleWithConstraints_0@
            + "\" has audience or scope constraints that can never be enforced"@,
        *e is Metadata ==> r@ == "failed to serialize resource metadata: "@ + json_error_repr(
            e->Metadata_0,
        ),
{
}

} // verus!
