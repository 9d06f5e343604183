//! Signed tokens, and the two halves that a login token travels in.
//!
//! A signed token is three texts joined by dots: a head, the payload that
//! holds the claims, and a signature. The head and the signature go to the
//! browser in a cookie; the payload goes to the user's mailbox in a link. Only
//! who holds both can put the token together again.

use crate::json::{members, Members};
use crate::text::{
    chars_of, find, find_first, lemma_find_from, occurs_at, rows, split, split_on, string_of,
    sub_vec,
};
use vstd::prelude::*;
use vstd::string::StringExecFns;

verus! {

/// The token that carries the given claims, signed with HMAC-SHA256 under
/// `key`, where `jsonwebtoken` makes one.
pub uninterp spec fn jwt_signed(
    claims: serde_json::Map<String, serde_json::Value>,
    key: Seq<u8>,
) -> Option<Seq<char>>;

/// The claims of a token, where its HMAC-SHA256 signature under `key` holds
/// and `jsonwebtoken` accepts its claims at any time: the expiry plays no
/// part.
pub uninterp spec fn jwt_claims(token: Seq<char>, key: Seq<u8>) -> Option<Members>;

/// `jsonwebtoken::encode` with the default header and a secret key: the
/// signed token that carries the claims, or `None` for the crate's error.
#[verifier::external_body]
pub(crate) fn jwt_encode(claims: &serde_json::Map<String, serde_json::Value>, key: &Vec<u8>) -> (r:
    Option<String>)
    ensures
        match r {
            Some(token) => jwt_signed(*claims, key@) == Some(token@),
            None => jwt_signed(*claims, key@) is None,
        },
{
    let key = jsonwebtoken::EncodingKey::from_secret(key);
    jsonwebtoken::encode(&jsonwebtoken::Header::default(), claims, &key).ok()
}

/// `jsonwebtoken::decode` with a secret key, for HMAC-SHA256 alone: the claims
/// of a token whose signature holds and which holds the claims named in
/// `required`. With `check_expiry` an expiry that the token holds must not
/// have passed, which depends on the time of the call; without it, and with
/// no claim required, the result depends on the token and the key alone.
/// `None` stands for the crate's error.
#[verifier::external_body]
pub(crate) fn jwt_decode(token: &str, key: &Vec<u8>, required: &Vec<String>, check_expiry: bool) -> (r:
    Option<serde_json::Map<String, serde_json::Value>>)
    ensures
        r matches Some(claims) ==> jwt_claims(token@, key@) == Some(members(claims)),
        r is None && !check_expiry && required@.len() == 0 ==> jwt_claims(token@, key@) is None,
{
    let mut validation = jsonwebtoken::Validation::new(jsonwebtoken::Algorithm::HS256);
    validation.validate_exp = check_expiry;
    validation.set_required_spec_claims(required.as_slice());
    let key = jsonwebtoken::DecodingKey::from_secret(key);
    jsonwebtoken::decode::<serde_json::Map<String, serde_json::Value>>(token, &key, &validation)
        .map(|data| data.claims)
        .ok()
}

/// The two halves of a token.
#[derive(Clone, Debug, PartialEq, Eq)]
pub struct SplitToken {
    /// The head and the signature, joined by a dot: the cookie's half.
    pub head_sign: String,
    /// The payload: the link's half.
    pub payload: String,
}

/// What the halves of a token hold.
pub struct SplitTokenView {
    pub head_sign: Seq<char>,
    pub payload: Seq<char>,
}

impl View for SplitToken {
    type V = SplitTokenView;

    open spec fn view(&self) -> SplitTokenView {
        SplitTokenView { head_sign: self.head_sign@, payload: self.payload@ }
    }
}

/// The text of one dot.
pub open spec fn dot() -> Seq<char> {
    seq!['.']
}

/// The halves of a token: of its parts between dots, the first and the third
/// make the cookie's half and the second is the payload. A text of fewer than
/// three parts has no halves.
pub open spec fn halves(token: Seq<char>) -> Option<SplitTokenView> {
    let parts = split_on(token, dot());
    if parts.len() >= 3 {
        Some(SplitTokenView { head_sign: parts[0] + dot() + parts[2], payload: parts[1] })
    } else {
        None
    }
}

/// The token that two halves make: the payload goes between what stands
/// before the first dot of the cookie's half and what stands after it. A
/// cookie's half without a dot makes no token.
pub open spec fn reassembled(head_sign: Seq<char>, payload: Seq<char>) -> Option<Seq<char>> {
    let i = find_first(head_sign, dot());
    if i < 0 || i >= head_sign.len() {
        None
    } else {
        Some(head_sign.take(i) + dot() + payload + dot() + head_sign.skip(i + 1))
    }
}

/// The view of halves that may be absent.
pub open spec fn halves_view(halves: Option<SplitToken>) -> Option<SplitTokenView> {
    match halves {
        Some(h) => Some(h@),
        None => None,
    }
}

/// Splits a token into its halves.
pub fn split_token(token: &str) -> (r: Option<SplitToken>)
    ensures
        halves_view(r) == halves(token@),
{
    let chars = chars_of(token);
    let mut pat: Vec<char> = Vec::new();
    pat.push('.');
    assert(pat@ =~= dot());
    let parts = split(&chars, &pat);
    if parts.len() < 3 {
        assert(rows(parts@).len() == parts@.len());
        return None;
    }
    let ghost views = rows(parts@);
    assert(views[0] == parts@[0]@ && views[1] == parts@[1]@ && views[2] == parts@[2]@);
    let mut head_sign = string_of(&parts[0]);
    head_sign.append(".");
    proof {
        reveal_strlit(".");
        assert("."@ =~= dot());
    }
    let sign = string_of(&parts[2]);
    head_sign.append(sign.as_str());
    let payload = string_of(&parts[1]);
    Some(SplitToken { head_sign, payload })
}

/// Puts a token together from its halves.
pub fn reassemble(head_sign: &str, payload: &str) -> (r: Option<String>)
    ensures
        match r {
            Some(token) => reassembled(head_sign@, payload@) == Some(token@),
            None => reassembled(head_sign@, payload@) is None,
        },
{
    let chars = chars_of(head_sign);
    let mut pat: Vec<char> = Vec::new();
    pat.push('.');
    assert(pat@ =~= dot());
    match find(&chars, &pat) {
        None => None,
        Some(i) => {
            let end: usize = chars.len();
            let head = sub_vec(&chars, 0, i);
            let sign = sub_vec(&chars, i + 1, end);
            assert(head@ =~= head_sign@.take(i as int));
            assert(sign@ =~= head_sign@.skip(i + 1));
            let mut token = string_of(&head);
            proof {
                reveal_strlit(".");
                assert("."@ =~= dot());
            }
            token.append(".");
            token.append(payload);
            token.append(".");
            let sign_text = string_of(&sign);
            token.append(sign_text.as_str());
            Some(token)
        },
    }
}

/// Whether a text holds no dot.
pub open spec fn dotless(s: Seq<char>) -> bool {
    forall|i: int| 0 <= i < s.len() ==> #[trigger] s[i] != '.'
}

/// In a dotless text followed by a dot, the first dot is the one that
/// follows.
pub proof fn lemma_first_dot(a: Seq<char>, b: Seq<char>)
    requires
        dotless(a),
    ensures
        find_first(a + dot() + b, dot()) == a.len(),
{
    let s = a + dot() + b;
    lemma_find_from(s, dot(), 0);
    assert(s.subrange(a.len() as int, a.len() as int + 1) =~= dot());
    assert(occurs_at(s, dot(), a.len() as int));
    let f = find_first(s, dot());
    if f != a.len() {
        assert(0 <= f < a.len());
        assert(s.subrange(f, f + 1)[0] == s[f]);
        assert(s[f] == a[f]);
        assert(false);
    }
}

/// A dotless text is one part.
pub proof fn lemma_split_dotless(a: Seq<char>)
    requires
        dotless(a),
    ensures
        split_on(a, dot()) == seq![a],
{
    lemma_find_from(a, dot(), 0);
    let f = find_first(a, dot());
    if f >= 0 {
        assert(a.subrange(f, f + 1)[0] == a[f]);
        assert(false);
    }
}

/// Splitting and reassembling are inverse to each other on tokens of three
/// dotless parts: the halves of such a token make the token again, and each
/// half is known from the parts.
pub proof fn lemma_reassemble_halves(head: Seq<char>, payload: Seq<char>, sign: Seq<char>)
    requires
        dotless(head),
        dotless(payload),
        dotless(sign),
    ensures
        halves(head + dot() + payload + dot() + sign) == Some(
            SplitTokenView { head_sign: head + dot() + sign, payload },
        ),
        reassembled(head + dot() + sign, payload) == Some(head + dot() + payload + dot() + sign),
{
    let token = head + dot() + payload + dot() + sign;
    let rest = payload + dot() + sign;
    assert(token =~= head + dot() + rest);
    lemma_first_dot(head, rest);
    assert(token.take(head.len() as int) =~= head);
    assert(token.skip(head.len() as int + 1) =~= rest);
    lemma_first_dot(payload, sign);
    assert(rest.take(payload.len() as int) =~= payload);
    assert(rest.skip(payload.len() as int + 1) =~= sign);
    lemma_split_dotless(sign);
    assert(split_on(rest, dot()) =~= seq![payload] + seq![sign]);
    assert(split_on(token, dot()) =~= seq![head] + (seq![payload] + seq![sign]));
    let cookie = head + dot() + sign;
    lemma_first_dot(head, sign);
    assert(cookie.take(head.len() as int) =~= head);
    assert(cookie.skip(head.len() as int + 1) =~= sign);
}

/// The parts of a text between its dots hold no dot.
pub proof fn lemma_parts_dotless(s: Seq<char>)
    ensures
        forall|k: int| 0 <= k < split_on(s, dot()).len() ==> dotless(#[trigger] split_on(s, dot())[k]),
    decreases s.len(),
{
    let i = find_first(s, dot());
    lemma_find_from(s, dot(), 0);
    if i < 0 || i + 1 > s.len() {
        assert(dotless(s)) by {
            assert forall|j: int| 0 <= j < s.len() implies #[trigger] s[j] != '.' by {
                if s[j] == '.' {
                    assert(s.subrange(j, j + 1) =~= dot());
                    assert(occurs_at(s, dot(), j));
                }
            }
        }
    } else {
        let first = s.take(i);
        let rest = s.skip(i + 1);
        assert(dotless(first)) by {
            assert forall|j: int| 0 <= j < first.len() implies #[trigger] first[j] != '.' by {
                if first[j] == '.' {
                    assert(s.subrange(j, j + 1) =~= dot());
                    assert(occurs_at(s, dot(), j));
                }
            }
        }
        lemma_parts_dotless(rest);
        let parts = split_on(s, dot());
        assert(parts =~= seq![first] + split_on(rest, dot()));
        assert forall|k: int| 0 <= k < parts.len() implies dotless(#[trigger] parts[k]) by {
            if k > 0 {
                assert(parts[k] == split_on(rest, dot())[k - 1]);
            }
        }
    }
}

/// The cookie's half of a token holds exactly one dot, between a head and a
/// signature that hold none, and the payload holds none: neither half holds
/// anything of the other.
pub proof fn lemma_halves_shape(token: Seq<char>)
    requires
        halves(token) is Some,
    ensures
        exists|head: Seq<char>, sign: Seq<char>|
            dotless(head) && dotless(sign) && #[trigger] (head + dot() + sign)
                == halves(token)->0.head_sign,
        dotless(halves(token)->0.payload),
        reassembled(halves(token)->0.head_sign, halves(token)->0.payload) is Some,
{
    lemma_parts_dotless(token);
    let parts = split_on(token, dot());
    assert(dotless(parts[0]) && dotless(parts[1]) && dotless(parts[2]));
    assert(parts[0] + dot() + parts[2] == halves(token)->0.head_sign);
    lemma_first_dot(parts[0], parts[2]);
}

/// A payload that differs from the one that was issued makes another token:
/// reassembling is one-to-one in the payload.
pub proof fn lemma_reassembled_payload(head_sign: Seq<char>, p: Seq<char>, q: Seq<char>)
    requires
        reassembled(head_sign, p) is Some,
        reassembled(head_sign, p) == reassembled(head_sign, q),
    ensures
        p == q,
{
    let i = find_first(head_sign, dot());
    let a = head_sign.take(i) + dot();
    let b = dot() + head_sign.skip(i + 1);
    let x = a + p + b;
    let y = a + q + b;
    assert(x =~= reassembled(head_sign, p)->0);
    assert(y =~= reassembled(head_sign, q)->0);
    assert(x.len() == y.len());
    assert(p.len() == q.len());
    assert forall|k: int| 0 <= k < p.len() implies p[k] == q[k] by {
        assert(x[a.len() + k] == p[k]);
        assert(y[a.len() + k] == q[k]);
    }
    assert(p =~= q);
}

} // verus!
