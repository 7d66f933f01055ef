//! The outcome of a guard check.

use std::sync::Arc;

use vstd::prelude::*;

use crate::resource::validator::ValidatedRequest;
use crate::text::{
    bool_repr, bool_text, decimal, decimal_text, list_repr, list_text, opt_text, texts,
};

verus! {

/// Whether a request is forwarded or denied.
pub enum Outcome<C> {
    /// The request should proceed.
    Forward {
        /// The validated token, or `None` for unauthenticated requests.
        token: Option<Arc<ValidatedRequest<C>>>,
        /// A DPoP nonce to set in the `DPoP-Nonce` response header, if any.
        dpop_nonce: Option<String>,
        /// Whether to strip credentials before forwarding upstream.
        strip_credentials: bool,
    },
    /// The request should be denied with a challenge response.
    Deny {
        /// The HTTP status code (401, 403, etc.).
        status: u16,
        /// `WWW-Authenticate` challenge header values.
        challenges: Vec<String>,
        /// A DPoP nonce to set in the `DPoP-Nonce` response header, if any.
        dpop_nonce: Option<String>,
    },
}

impl<C> Outcome<C> {
    /// The request is forwarded with the given token.
    pub open spec fn forwards(
        self,
        token: Option<ValidatedRequest<C>>,
        nonce: Option<Seq<char>>,
        strip: bool,
    ) -> bool {
        &&& self matches Outcome::Forward { token: t, dpop_nonce, strip_credentials }
        &&& opt_text(dpop_nonce) == nonce
        &&& strip_credentials == strip
        &&& match token {
            Some(v) => t is Some && *t->0 == v,
            None => t is None,
        }
    }

    /// The request is denied with the given challenges.
    pub open spec fn denies(
        self,
        code: u16,
        values: Seq<Seq<char>>,
        nonce: Option<Seq<char>>,
    ) -> bool {
        &&& self matches Outcome::Deny { status, challenges, dpop_nonce }
        &&& status == code
        &&& texts(challenges@) == values
        &&& opt_text(dpop_nonce) == nonce
    }
}

impl<C> Outcome<C> {
    /// The outcome as shown in logs. Of the token it says only whether there is
    /// one, of the nonce only whether there is one.
    pub open spec fn description(self) -> Seq<char> {
        match self {
            Outcome::Forward { token, dpop_nonce, strip_credentials } => "Forward { has_token: "@
                + bool_repr(token is Some) + ", dpop_nonce: "@ + bool_repr(dpop_nonce is Some)
                + ", strip_credentials: "@ + bool_repr(strip_credentials) + " }"@,
            Outcome::Deny { status, challenges, dpop_nonce } => "Deny { status: "@ + decimal(
                status as nat,
            ) + ", challenges: "@ + list_repr(texts(challenges@)) + ", dpop_nonce: "@ + bool_repr(
                dpop_nonce is Some,
            ) + " }"@,
        }
    }

    /// The outcome as shown in logs, without token internals.
    pub fn describe(&self) -> (r: String)
        ensures
            r@ == self.description(),
    {
        match self {
            Outcome::Forward { token, dpop_nonce, strip_credentials } => {
                let mut out = "Forward { has_token: ".to_owned();
                out.append(bool_text(token.is_some()));
                out.append(", dpop_nonce: ");
                out.append(bool_text(dpop_nonce.is_some()));
                out.append(", strip_credentials: ");
                out.append(bool_text(*strip_credentials));
                out.append(" }");
                out
            },
            Outcome::Deny { status, challenges, dpop_nonce } => {
                let code = decimal_text(*status as usize);
                let list = list_text(challenges);
                let mut out = "Deny { status: ".to_owned();
                out.append(code.as_str());
                out.append(", challenges: ");
                out.append(list.as_str());
                out.append(", dpop_nonce: ");
                out.append(bool_text(dpop_nonce.is_some()));
                out.append(" }");
                out
            },
        }
    }
}

/// What an outcome shows of itself: the status and the challenges of a denial,
/// and of token and nonce only whether they are there.
pub proof fn law_outcome_shows_no_secrets<C>(
    outcome: &Outcome<C>,
    code: String,
    r: String,
)
    requires
        call_ensures(Outcome::<C>::describe, (outcome,), r),
        outcome is Deny ==> call_ensures(decimal_text, (outcome->status as usize,), code),
    ensures
        outcome is Forward ==> r@ == "Forward { has_token: "@ + (if outcome->token is Some {
            "true"@
        } else {
            "false"@
        }) + ", dpop_nonce: "@ + (if outcome->Forward_dpop_nonce is Some {
            "true"@
        } else {
            "false"@
        }) + ", strip_credentials: "@ + (if outcome->strip_credentials {
            "true"@
        } else {
            "false"@
        }) + " }"@,
        outcome is Deny ==> r@ == "Deny { status: "@ + code@ + ", challenges: "@ + list_repr(
            texts(outcome->challenges@),
        ) + ", dpop_nonce: "@ + (if outcome->Deny_dpop_nonce is Some {
            "true"@
        } else {
            "false"@
        }) + " }"@,
{
}

} // verus!
