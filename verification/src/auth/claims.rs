//! The claims of login tokens, and the JSON objects that carry them.

use crate::auth::{AuthPhase, Claims, ClaimsView};
use crate::json::{
    members, object_insert_number, object_insert_text, object_new, object_number, object_text,
    Members,
};
use crate::text::same_text;
use vstd::prelude::*;

verus! {

/// The claims of the token that proves that a login link was followed.
#[derive(Clone, Debug, PartialEq, Eq)]
pub struct ValidationClaims {
    pub phase: AuthPhase,
    /// The address that the link was sent to.
    pub sub: String,
    /// When the token expires, in seconds since the epoch.
    pub exp: i64,
    /// A random number that tells one token from another.
    pub jti: u32,
}

/// What validation claims hold.
pub struct ValidationClaimsView {
    pub phase: AuthPhase,
    pub sub: Seq<char>,
    pub exp: i64,
    pub jti: u32,
}

impl View for ValidationClaims {
    type V = ValidationClaimsView;

    open spec fn view(&self) -> ValidationClaimsView {
        ValidationClaimsView { phase: self.phase, sub: self.sub@, exp: self.exp, jti: self.jti }
    }
}

/// The name of a phase in a token.
pub open spec fn phase_text(phase: AuthPhase) -> Seq<char> {
    match phase {
        AuthPhase::Validation => "Validation"@,
        AuthPhase::LoggedIn => "LoggedIn"@,
    }
}

/// The phase that a name stands for.
pub open spec fn phase_named(text: Seq<char>) -> Option<AuthPhase> {
    if text == "Validation"@ {
        Some(AuthPhase::Validation)
    } else if text == "LoggedIn"@ {
        Some(AuthPhase::LoggedIn)
    } else {
        None
    }
}

/// The members that carry login claims: the phase and the subject.
pub open spec fn login_set(claims: ClaimsView) -> Members {
    Members {
        texts: Map::<Seq<char>, Seq<char>>::empty().insert("phase"@, phase_text(claims.phase)).insert(
            "sub"@,
            claims.sub,
        ),
        numbers: Map::empty(),
    }
}

/// The members that carry validation claims: the phase, the subject, the
/// expiry and the random number.
pub open spec fn validation_set(claims: ValidationClaimsView) -> Members {
    Members {
        texts: Map::<Seq<char>, Seq<char>>::empty().insert("phase"@, phase_text(claims.phase)).insert(
            "sub"@,
            claims.sub,
        ),
        numbers: Map::<Seq<char>, int>::empty().insert("exp"@, claims.exp as int).insert(
            "jti"@,
            claims.jti as int,
        ),
    }
}

/// The login claims that a set of members is read as: it must name a phase
/// and hold a subject. Other members are passed over.
pub open spec fn read_login(set: Members) -> Option<ClaimsView> {
    if set.texts.contains_key("phase"@) && phase_named(set.texts["phase"@]) is Some
        && set.texts.contains_key("sub"@) {
        Some(ClaimsView { phase: phase_named(set.texts["phase"@])->0, sub: set.texts["sub"@] })
    } else {
        None
    }
}

/// The validation claims that a set of members is read as: it must name a
/// phase and hold a subject, an expiry and a random number of 32 bits.
pub open spec fn read_validation(set: Members) -> Option<ValidationClaimsView> {
    if read_login(set) is Some && set.numbers.contains_key("exp"@) && i64::MIN
        <= set.numbers["exp"@] <= i64::MAX && set.numbers.contains_key("jti"@) && 0
        <= set.numbers["jti"@] <= u32::MAX {
        Some(
            ValidationClaimsView {
                phase: read_login(set)->0.phase,
                sub: read_login(set)->0.sub,
                exp: set.numbers["exp"@] as i64,
                jti: set.numbers["jti"@] as u32,
            },
        )
    } else {
        None
    }
}

/// The names of the phases and of the members differ from one another.
pub proof fn lemma_names_differ()
    ensures
        "Validation"@ != "LoggedIn"@,
        "phase"@ != "sub"@,
        "exp"@ != "jti"@,
        "phase"@ != "exp"@,
        "phase"@ != "jti"@,
        "sub"@ != "exp"@,
        "sub"@ != "jti"@,
{
    reveal_strlit("Validation");
    reveal_strlit("LoggedIn");
    reveal_strlit("phase");
    reveal_strlit("sub");
    reveal_strlit("exp");
    reveal_strlit("jti");
    assert("Validation"@.len() != "LoggedIn"@.len());
    assert("phase"@.len() != "sub"@.len());
    assert("exp"@[0] != "jti"@[0]);
}

/// The name of a phase.
pub fn phase_name(phase: AuthPhase) -> (name: &'static str)
    ensures
        name@ == phase_text(phase),
{
    match phase {
        AuthPhase::Validation => "Validation",
        AuthPhase::LoggedIn => "LoggedIn",
    }
}

/// The phase that a name stands for.
pub fn parse_phase(text: &str) -> (r: Option<AuthPhase>)
    ensures
        r == phase_named(text@),
{
    if same_text(text, "Validation") {
        Some(AuthPhase::Validation)
    } else if same_text(text, "LoggedIn") {
        Some(AuthPhase::LoggedIn)
    } else {
        None
    }
}

impl Claims {
    /// The JSON object that carries the claims.
    pub fn to_map(&self) -> (claims: serde_json::Map<String, serde_json::Value>)
        ensures
            members(claims) == login_set(self@),
    {
        let mut claims = object_new();
        object_insert_text(&mut claims, "phase", phase_name(self.phase));
        object_insert_text(&mut claims, "sub", self.sub.as_str());
        proof {
            lemma_names_differ();
            assert(members(claims).texts =~= login_set(self@).texts);
            assert(members(claims).numbers =~= login_set(self@).numbers);
        }
        claims
    }

    /// The claims that a JSON object carries.
    pub fn from_map(claims: &serde_json::Map<String, serde_json::Value>) -> (r: Option<Claims>)
        ensures
            crate::auth::claims_view(r) == read_login(members(*claims)),
    {
        let phase = match object_text(claims, "phase") {
            Some(name) => match parse_phase(name.as_str()) {
                Some(phase) => phase,
                None => {
                    return None;
                },
            },
            None => {
                return None;
            },
        };
        match object_text(claims, "sub") {
            Some(sub) => Some(Claims { phase, sub }),
            None => None,
        }
    }
}

/// The view of validation claims that may be absent.
pub open spec fn validation_view(claims: Option<ValidationClaims>) -> Option<ValidationClaimsView> {
    match claims {
        Some(c) => Some(c@),
        None => None,
    }
}

impl ValidationClaims {
    /// The JSON object that carries the claims.
    pub fn to_map(&self) -> (claims: serde_json::Map<String, serde_json::Value>)
        ensures
            members(claims) == validation_set(self@),
    {
        let mut claims = object_new();
        object_insert_text(&mut claims, "phase", phase_name(self.phase));
        object_insert_text(&mut claims, "sub", self.sub.as_str());
        object_insert_number(&mut claims, "exp", self.exp);
        object_insert_number(&mut claims, "jti", self.jti as i64);
        proof {
            lemma_names_differ();
            assert(members(claims).texts =~= validation_set(self@).texts);
            assert(members(claims).numbers =~= validation_set(self@).numbers);
        }
        claims
    }

    /// The claims that a JSON object carries.
    pub fn from_map(claims: &serde_json::Map<String, serde_json::Value>) -> (r: Option<
        ValidationClaims,
    >)
        ensures
            validation_view(r) == read_validation(members(*claims)),
    {
        let login = match Claims::from_map(claims) {
            Some(login) => login,
            None => {
                return None;
            },
        };
        let exp = match object_number(claims, "exp") {
            Some(exp) => exp,
            None => {
                return None;
            },
        };
        let jti = match object_number(claims, "jti") {
            Some(jti) => jti,
            None => {
                return None;
            },
        };
        if jti < 0 || jti > 0xFFFF_FFFF {
            return None;
        }
        let Claims { phase, sub } = login;
        Some(ValidationClaims { phase, sub, exp, jti: jti as u32 })
    }
}

/// Claims written to a JSON object are read back as they were.
pub proof fn lemma_claims_roundtrip(login: ClaimsView, validation: ValidationClaimsView)
    ensures
        read_login(login_set(login)) == Some(login),
        read_validation(validation_set(validation)) == Some(validation),
        read_login(validation_set(validation)) == Some(
            ClaimsView { phase: validation.phase, sub: validation.sub },
        ),
        read_validation(login_set(login)) is None,
{
    lemma_names_differ();
}

} // verus!
