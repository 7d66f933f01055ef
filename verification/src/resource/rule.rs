//! Rules: what authentication and authorization a path requires.

use std::sync::Arc;

use vstd::prelude::*;

use crate::resource::validator::ValidatedRequest;
use crate::text::{
    bool_repr, bool_text, is_space, is_word, join, joined, law_words_of_joined_text, list_repr,
    list_text, opt_text, texts,
};
use crate::uri::clone_opt;

verus! {

/// What level of authentication a route requires.
#[derive(Debug, Clone, Copy, PartialEq, Eq, Structural)]
pub enum TokenRequirement {
    /// No authentication required. The validator is not called.
    Public,
    /// A token is accepted but not required.
    Optional,
    /// A valid token must be present.
    Required,
}

impl Default for TokenRequirement {
    fn default() -> (r: Self)
        ensures
            r == TokenRequirement::Required,
    {
        TokenRequirement::Required
    }
}

impl TokenRequirement {
    /// The requirement as shown in logs.
    pub open spec fn label(self) -> Seq<char> {
        match self {
            TokenRequirement::Public => "None"@,
            TokenRequirement::Optional => "Optional"@,
            TokenRequirement::Required => "Required"@,
        }
    }
}

/// An error returned by a custom check.
#[derive(Debug)]
pub enum CheckError {
    /// 403 — the token is valid but lacks permission for this resource.
    Forbidden(String),
    /// 401 — the token is unsuitable for this resource.
    InvalidToken(String),
}

/// A custom check on a validated token. Every function from a validated token
/// to a result is one.
pub trait CheckFn<C>: Send + Sync {
    /// The check can be applied to the token.
    spec fn accepts(&self, token: &ValidatedRequest<C>) -> bool;

    /// The check may return this result for the token.
    spec fn may_return(&self, token: &ValidatedRequest<C>, result: Result<(), CheckError>) -> bool;

    /// Applies the check.
    fn call(&self, token: &ValidatedRequest<C>) -> (r: Result<(), CheckError>)
        requires
            self.accepts(token),
        ensures
            self.may_return(token, r),
    ;
}

impl<C, F: Fn(&ValidatedRequest<C>) -> Result<(), CheckError> + Send + Sync> CheckFn<C> for F {
    open spec fn accepts(&self, token: &ValidatedRequest<C>) -> bool {
        call_requires(*self, (token,))
    }

    open spec fn may_return(
        &self,
        token: &ValidatedRequest<C>,
        result: Result<(), CheckError>,
    ) -> bool {
        call_ensures(*self, (token,), result)
    }

    fn call(&self, token: &ValidatedRequest<C>) -> (r: Result<(), CheckError>) {
        self(token)
    }
}

/// A composable rule describing what authentication and authorization a path
/// requires.
///
/// Use [`Rule::public`], [`Rule::optional`], and [`Rule::required`] to create a
/// rule, then chain `.audience()`, `.scopes()`, and `.check()` for further
/// constraints.
#[must_use]
#[verifier::reject_recursive_types(C)]
pub struct Rule<C> {
    /// Whether a token is required.
    pub token: TokenRequirement,
    /// The accepted audiences; empty where any will do.
    pub audiences: Vec<String>,
    /// The scopes that the token must grant.
    pub scopes: Vec<String>,
    /// The scopes separated by spaces, where there are any.
    pub scope_param: Option<String>,
    /// A custom check.
    pub check: Option<Arc<dyn CheckFn<C>>>,
    /// Whether credentials are removed before the request is forwarded.
    pub strip_credentials: bool,
}

/// The scope parameter of a challenge: the scopes separated by spaces, where
/// there are any.
pub open spec fn scope_text(scopes: Seq<Seq<char>>) -> Option<Seq<char>> {
    if scopes.len() == 0 {
        None
    } else {
        Some(join(scopes, " "@))
    }
}

/// Appends strings to a list.
fn extend(list: &mut Vec<String>, more: Vec<String>)
    ensures
        final(list)@ == old(list)@ + more@,
{
    let mut more = more;
    list.append(&mut more);
}

/// A copy of a list of strings.
pub(crate) fn copy_strings(list: &Vec<String>) -> (r: Vec<String>)
    ensures
        r@ == list@,
{
    let mut out: Vec<String> = Vec::new();
    let mut i: usize = 0;
    while i < list.len()
        invariant
            i <= list@.len(),
            out@ == list@.take(i as int),
        decreases list@.len() - i,
    {
        out.push(list[i].clone());
        i = i + 1;
    }
    assert(list@.take(i as int) == list@);
    out
}

impl<C> Rule<C> {
    /// The scope parameter is made of the scopes.
    pub open spec fn consistent(&self) -> bool {
        opt_text(self.scope_param) == scope_text(texts(self.scopes@))
    }

    /// The custom check, if there is one, applies to every token.
    pub open spec fn total(&self) -> bool {
        self.check is Some ==> forall|t: &ValidatedRequest<C>| #[trigger]
            self.check->0.accepts(t)
    }

    /// A rule with the given requirement and no further constraint.
    pub open spec fn is_plain(&self, token: TokenRequirement) -> bool {
        &&& self.token == token
        &&& self.audiences@.len() == 0
        &&& self.scopes@.len() == 0
        &&& self.scope_param is None
        &&& self.check is None
        &&& self.strip_credentials
    }

    /// A rule with the given requirement and no further constraint.
    fn plain(token: TokenRequirement) -> (r: Self)
        ensures
            r.is_plain(token),
            r.consistent(),
            r.total(),
    {
        Rule {
            token,
            audiences: Vec::new(),
            scopes: Vec::new(),
            scope_param: None,
            check: None,
            strip_credentials: true,
        }
    }

    /// Creates a rule that requires no authentication.
    ///
    /// The validator is not called at all for matching paths.
    pub fn public() -> (r: Self)
        ensures
            r.is_plain(TokenRequirement::Public),
            r.consistent(),
            r.total(),
    {
        Self::plain(TokenRequirement::Public)
    }

    /// Creates a rule where a token is accepted but not required.
    pub fn optional() -> (r: Self)
        ensures
            r.is_plain(TokenRequirement::Optional),
            r.consistent(),
            r.total(),
    {
        Self::plain(TokenRequirement::Optional)
    }

    /// Creates a rule that requires a valid token.
    pub fn required() -> (r: Self)
        ensures
            r.is_plain(TokenRequirement::Required),
            r.consistent(),
            r.total(),
    {
        Self::plain(TokenRequirement::Required)
    }

    /// Requires that the token's audience contains at least one of the values
    /// given with this method and [`Rule::audiences`].
    pub fn audience(self, audience: String) -> (r: Self)
        ensures
            r.audiences@ == self.audiences@.push(audience),
            r == (Rule { audiences: r.audiences, ..self }),
    {
        let mut this = self;
        this.audiences.push(audience);
        this
    }

    /// Requires that the token's audience contains at least one of the values
    /// given with this method and [`Rule::audience`].
    pub fn audiences(self, audiences: Vec<String>) -> (r: Self)
        ensures
            r.audiences@ == self.audiences@ + audiences@,
            r == (Rule { audiences: r.audiences, ..self }),
    {
        let mut this = self;
        extend(&mut this.audiences, audiences);
        this
    }

    /// Requires that the token grants all of the given scopes, in addition to
    /// those given before.
    pub fn scopes(self, scopes: Vec<String>) -> (r: Self)
        ensures
            r.scopes@ == self.scopes@ + scopes@,
            r.consistent(),
            r == (Rule { scopes: r.scopes, scope_param: r.scope_param, ..self }),
    {
        let mut this = self;
        extend(&mut this.scopes, scopes);
        this.scope_param = if this.scopes.len() == 0 {
            None
        } else {
            Some(joined(&this.scopes, " "))
        };
        this
    }

    /// Adds a custom check that runs after audience and scope checks.
    pub fn check(self, f: Arc<dyn CheckFn<C>>) -> (r: Self)
        ensures
            r.check == Some(f),
            r == (Rule { check: r.check, ..self }),
    {
        let mut this = self;
        let check = Some(f);
        this.check = check;
        this
    }

    /// Controls whether credentials are stripped before the request is
    /// forwarded. Defaults to `true`.
    pub fn strip_credentials(self, strip: bool) -> (r: Self)
        ensures
            r == (Rule { strip_credentials: strip, ..self }),
    {
        let mut this = self;
        this.strip_credentials = strip;
        this
    }
}

impl<C> Rule<C> {
    /// The rule as shown in logs. Of the custom check it says only whether there
    /// is one.
    pub open spec fn description(&self) -> Seq<char> {
        "Rule { token: "@ + self.token.label() + ", audiences: "@ + list_repr(
            texts(self.audiences@),
        ) + ", scopes: "@ + list_repr(texts(self.scopes@)) + ", strip_credentials: "@ + bool_repr(
            self.strip_credentials,
        ) + ", check: "@ + (if self.check is Some {
            "Some(..)"@
        } else {
            "None"@
        }) + " }"@
    }

    /// The rule as shown in logs.
    pub fn describe(&self) -> (r: String)
        ensures
            r@ == self.description(),
    {
        let token = match self.token {
            TokenRequirement::Public => "None",
            TokenRequirement::Optional => "Optional",
            TokenRequirement::Required => "Required",
        };
        let audiences = list_text(&self.audiences);
        let scopes = list_text(&self.scopes);
        let mut out = "Rule { token: ".to_owned();
        out.append(token);
        out.append(", audiences: ");
        out.append(audiences.as_str());
        out.append(", scopes: ");
        out.append(scopes.as_str());
        out.append(", strip_credentials: ");
        out.append(bool_text(self.strip_credentials));
        out.append(", check: ");
        out.append(
            if self.check.is_some() {
                "Some(..)"
            } else {
                "None"
            },
        );
        out.append(" }");
        out
    }
}

impl<C> Default for Rule<C> {
    fn default() -> (r: Self)
        ensures
            r.is_plain(TokenRequirement::Required),
            r.consistent(),
            r.total(),
    {
        Self::required()
    }
}

impl<C> Clone for Rule<C> {
    fn clone(&self) -> (r: Self)
        ensures
            r.token == self.token,
            r.audiences@ == self.audiences@,
            r.scopes@ == self.scopes@,
            r.scope_param == self.scope_param,
            r.check == self.check,
            r.strip_credentials == self.strip_credentials,
    {
        let check = match &self.check {
            Some(f) => {
                let o = Some(f.clone());
                o
            },
            None => None,
        };
        Rule {
            token: self.token,
            audiences: copy_strings(&self.audiences),
            scopes: copy_strings(&self.scopes),
            scope_param: clone_opt(&self.scope_param),
            check,
            strip_credentials: self.strip_credentials,
        }
    }
}

// ── Laws ─────────────────────────────────────────────────────────────────────

/// A new rule asks for what its name says and for nothing else; credentials are
/// stripped.
pub proof fn law_new_rules<C>(public: Rule<C>, optional: Rule<C>, required: Rule<C>)
    requires
        call_ensures(Rule::<C>::public, (), public),
        call_ensures(Rule::<C>::optional, (), optional),
        call_ensures(Rule::<C>::required, (), required),
    ensures
        public.token is Public && optional.token is Optional && required.token is Required,
        public.audiences@.len() == 0 && public.scopes@.len() == 0 && public.scope_param is None
            && public.check is None && public.strip_credentials,
        optional.audiences@.len() == 0 && optional.scopes@.len() == 0
            && optional.scope_param is None && optional.check is None && optional.strip_credentials,
        required.audiences@.len() == 0 && required.scopes@.len() == 0
            && required.scope_param is None && required.check is None && required.strip_credentials,
{
}

/// Each method of a rule adds its constraint to those that were there, and leaves
/// every other one.
pub proof fn law_rules_add_up<C>(
    rule: Rule<C>,
    audience: String,
    list: Vec<String>,
    checked: (Rule<C>, Arc<dyn CheckFn<C>>),
    strip: bool,
    r: Rule<C>,
)
    ensures
        call_ensures(Rule::<C>::audience, (rule, audience), r) ==> {
            &&& r.audiences@ == rule.audiences@.push(audience)
            &&& r.token == rule.token && r.scopes == rule.scopes && r.scope_param
                == rule.scope_param && r.check == rule.check && r.strip_credentials
                == rule.strip_credentials
        },
        call_ensures(Rule::<C>::audiences, (rule, list), r) ==> {
            &&& r.audiences@ == rule.audiences@ + list@
            &&& r.token == rule.token && r.scopes == rule.scopes && r.scope_param
                == rule.scope_param && r.check == rule.check && r.strip_credentials
                == rule.strip_credentials
        },
        call_ensures(Rule::<C>::scopes, (rule, list), r) ==> {
            &&& r.scopes@ == rule.scopes@ + list@
            &&& r.token == rule.token && r.audiences == rule.audiences && r.check == rule.check
                && r.strip_credentials == rule.strip_credentials
        },
        call_ensures(Rule::<C>::check, checked, r) ==> {
            &&& r.check is Some && r.check->0 == checked.1
            &&& r.token == checked.0.token && r.audiences == checked.0.audiences && r.scopes
                == checked.0.scopes && r.scope_param == checked.0.scope_param
                && r.strip_credentials == checked.0.strip_credentials
        },
        call_ensures(Rule::<C>::strip_credentials, (rule, strip), r) ==> {
            &&& r.strip_credentials == strip
            &&& r.token == rule.token && r.audiences == rule.audiences && r.scopes == rule.scopes
                && r.scope_param == rule.scope_param && r.check == rule.check
        },
{
}

/// The scope parameter of a rule with scopes is their names in order with one
/// space between them, and is absent where there are none. Its words are the
/// scopes, where those are words.
pub proof fn law_scope_parameter_names_the_scopes<C>(
    rule: Rule<C>,
    list: Vec<String>,
    r: Rule<C>,
    scope: Seq<char>,
)
    requires
        call_ensures(Rule::<C>::scopes, (rule, list), r),
    ensures
        r.scope_param is None <==> r.scopes@.len() == 0,
        r.scopes@.len() == 1 ==> r.scope_param->0@ == r.scopes@[0]@,
        r.scopes@.len() == 2 ==> r.scope_param->0@ == r.scopes@[0]@ + seq![' '] + r.scopes@[1]@,
        r.scopes@.len() > 0 && words(r.scopes@) ==> (is_word(r.scope_param->0@, scope)
            <==> exists|i: int| 0 <= i < r.scopes@.len() && (#[trigger] r.scopes@[i])@ == scope),
{
    reveal_strlit(" ");
    assert(" "@ == seq![' ']);
    let names = texts(r.scopes@);
    if r.scopes@.len() > 0 {
        assert(names.len() == r.scopes@.len());
        reveal_with_fuel(join, 3);
        if r.scopes@.len() == 2 {
            assert(names.drop_last().drop_last() == Seq::<Seq<char>>::empty());
            assert(names.drop_last().last() == r.scopes@[0]@);
        }
        if words(r.scopes@) {
            assert forall|i: int, k: int|
                0 <= i < names.len() && 0 <= k < names[i].len() implies !is_space(
                #[trigger] names[i][k],
            ) by {
                assert(names[i] == r.scopes@[i]@);
                assert(!is_space(r.scopes@[i]@[k]));
            }
            law_words_of_joined_text(names, scope);
            if names.contains(scope) {
                let i = choose|i: int| 0 <= i < names.len() && names[i] == scope;
                assert(r.scopes@[i]@ == scope);
            }
            if exists|i: int| 0 <= i < r.scopes@.len() && (#[trigger] r.scopes@[i])@ == scope {
                let i = choose|i: int|
                    0 <= i < r.scopes@.len() && (#[trigger] r.scopes@[i])@ == scope;
                assert(names[i] == scope);
            }
        }
    }
}

/// Each text of a list is a word: not empty, and without white space.
pub open spec fn words(list: Seq<String>) -> bool {
    &&& forall|i: int| 0 <= i < list.len() ==> (#[trigger] list[i])@.len() > 0
    &&& forall|i: int, k: int|
        0 <= i < list.len() && 0 <= k < list[i]@.len() ==> !is_space(#[trigger] list[i]@[k])
}

/// What a rule shows of itself: its requirement, its audiences and scopes, and of
/// the custom check only whether there is one.
pub proof fn law_rule_shows_its_constraints<C>(rule: &Rule<C>, r: String)
    requires
        call_ensures(Rule::<C>::describe, (rule,), r),
    ensures
        r@ == "Rule { token: "@ + (match rule.token {
            TokenRequirement::Public => "None"@,
            TokenRequirement::Optional => "Optional"@,
            TokenRequirement::Required => "Required"@,
        }) + ", audiences: "@ + list_repr(texts(rule.audiences@)) + ", scopes: "@ + list_repr(
            texts(rule.scopes@),
        ) + ", strip_credentials: "@ + (if rule.strip_credentials {
            "true"@
        } else {
            "false"@
        }) + ", check: "@ + (if rule.check is Some {
            "Some(..)"@
        } else {
            "None"@
        }) + " }"@,
{
}

/// A rule that is not given asks for a token, and so does a requirement that is
/// not given.
pub proof fn law_default_rule<C>(rule: Rule<C>, token: TokenRequirement)
    requires
        call_ensures(<Rule<C> as Default>::default, (), rule),
        call_ensures(<TokenRequirement as Default>::default, (), token),
    ensures
        token is Required,
        rule.token is Required,
        rule.audiences@.len() == 0,
        rule.scopes@.len() == 0,
        rule.scope_param is None,
        rule.check is None,
        rule.strip_credentials,
{
}

/// A copy of a rule has all its constraints.
pub proof fn law_copied_rule<C>(rule: &Rule<C>, r: Rule<C>)
    requires
        call_ensures(<Rule<C> as Clone>::clone, (rule,), r),
    ensures
        r.token == rule.token,
        r.audiences@ == rule.audiences@,
        r.scopes@ == rule.scopes@,
        r.scope_param == rule.scope_param,
        r.check == rule.check,
        r.strip_credentials == rule.strip_credentials,
{
}

} // verus!
