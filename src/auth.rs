//! Stateless login tokens: an HS256-signed claim set that names the user.
use std::collections::BTreeMap;

use hmac::{Hmac, Mac};
use jwt::{SignWithKey, VerifyWithKey};
use sha2::Sha256;
use vstd::prelude::*;

use crate::text::{decimal, decimal_i64, i64_of, lemma_parse_decimal_i64, parse_i64};

verus! {

/// What a login token says of its holder.
pub struct TokenData {
    pub user_id: i64,
}

/// The name of the claim that holds the user's id.
pub open spec fn user_id_claim() -> Seq<char> {
    "user_id"@
}

/// The value of the first claim named `name`.
pub open spec fn claim_value(claims: Seq<(Seq<char>, Seq<char>)>, name: Seq<char>) -> Option<
    Seq<char>,
>
    decreases claims.len(),
{
    if claims.len() == 0 {
        None
    } else if claims[0].0 == name {
        Some(claims[0].1)
    } else {
        claim_value(claims.drop_first(), name)
    }
}

/// The token data that a claim set carries: the `user_id` claim, read as an
/// `i64`.
pub open spec fn token_data_of(claims: Seq<(Seq<char>, Seq<char>)>) -> Option<TokenData> {
    match claim_value(claims, user_id_claim()) {
        Some(v) => match i64_of(v) {
            Some(id) => Some(TokenData { user_id: id }),
            None => None,
        },
        None => None,
    }
}

/// The token that signing the one claim `name: value` with HMAC-SHA256
/// under `key` gives.
pub uninterp spec fn signed_claim_token(key: Seq<u8>, name: Seq<char>, value: Seq<char>) -> Seq<
    char,
>;

/// The claims of `token` where it verifies under `key`.
pub uninterp spec fn verified_claims_of(key: Seq<u8>, token: Seq<char>) -> Option<
    Seq<(Seq<char>, Seq<char>)>,
>;

/// Relies on hmac's `Hmac::<Sha256>::new_from_slice`, which takes a key of any
/// length, and on jwt's `SignWithKey::sign_with_key` for a one-entry
/// `BTreeMap<String, String>`, which cannot fail for that key and claim set:
/// an HS256 token that depends on the key and the claim alone, and whose
/// claims `VerifyWithKey::verify_with_key` reads back under the same key.
#[verifier::external_body]
fn sign_claim(key: &[u8], name: &str, value: &str) -> (r: String)
    ensures
        r@ == signed_claim_token(key@, name@, value@),
        verified_claims_of(key@, r@) == Some(seq![(name@, value@)]),
{
    let k: Hmac<Sha256> = Hmac::new_from_slice(key).expect("an HMAC key may have any length");
    let mut claims: BTreeMap<String, String> = BTreeMap::new();
    claims.insert(name.to_string(), value.to_string());
    claims.sign_with_key(&k).expect("a map of strings always serializes")
}

/// Relies on hmac's `Hmac::<Sha256>::new_from_slice` to make the key, and on
/// jwt's `VerifyWithKey::verify_with_key` into a `BTreeMap<String, String>`:
/// the claims of a token whose HS256 signature checks, which depend on the key
/// and the token alone.
#[verifier::external_body]
fn verify_claims(key: &[u8], token: &str) -> (r: Option<Vec<(String, String)>>)
    ensures
        match r {
            Some(c) => verified_claims_of(key@, token@) == Some(c.deep_view()),
            None => verified_claims_of(key@, token@) is None,
        },
{
    let k: Hmac<Sha256> = Hmac::new_from_slice(key).ok()?;
    let claims: Result<BTreeMap<String, String>, jwt::Error> = token.verify_with_key(&k);
    match claims {
        Ok(m) => Some(m.into_iter().collect()),
        Err(_) => None,
    }
}

/// The token data that `jwt` carries where it verifies under `key`.
pub open spec fn verified_token_data(key: Seq<u8>, jwt: Seq<char>) -> Option<TokenData> {
    match verified_claims_of(key, jwt) {
        Some(c) => token_data_of(c),
        None => None,
    }
}

/// Signs a token for `data` under `key`: the one claim `user_id`, the user's
/// id in decimal. Verifying the token under the same key gives `data` back.
pub fn sign(key: &[u8], data: TokenData) -> (r: String)
    ensures
        r@ == signed_claim_token(key@, user_id_claim(), decimal(data.user_id as int)),
        verified_token_data(key@, r@) == Some(data),
{
    let value = decimal_i64(data.user_id);
    let r = sign_claim(key, "user_id", value.as_str());
    proof {
        lemma_token_data_of_user_id(data.user_id);
    }
    r
}

/// The claim set that holds only `user_id`, with `id` in decimal, carries the
/// token data of `id`.
pub proof fn lemma_token_data_of_user_id(id: i64)
    ensures
        token_data_of(seq![(user_id_claim(), decimal(id as int))]) == Some(TokenData { user_id: id }),
{
    let c = seq![(user_id_claim(), decimal(id as int))];
    assert(c[0].0 == user_id_claim());
    assert(claim_value(c, user_id_claim()) == Some(decimal(id as int)));
    lemma_parse_decimal_i64(id);
}

/// Tokens signed under one key for different users differ.
pub proof fn lemma_sign_distinguishes_users(key: Seq<u8>, t1: Seq<char>, t2: Seq<char>, a: i64, b: i64)
    requires
        verified_token_data(key, t1) == Some(TokenData { user_id: a }),
        verified_token_data(key, t2) == Some(TokenData { user_id: b }),
        a != b,
    ensures
        t1 != t2,
{
}

/// Looks up the first claim named `name`.
pub fn find_claim(claims: &Vec<(String, String)>, name: &String) -> (r: Option<String>)
    ensures
        match r {
            Some(v) => claim_value(claims.deep_view(), name@) == Some(v@),
            None => claim_value(claims.deep_view(), name@) is None,
        },
{
    let ghost all = claims.deep_view();
    let mut i: usize = 0;
    assert(all.subrange(0, all.len() as int) =~= all);
    while i < claims.len()
        invariant
            i <= claims@.len(),
            all == claims.deep_view(),
            claim_value(all, name@) == claim_value(all.subrange(i as int, all.len() as int), name@),
        decreases claims@.len() - i,
    {
        let ghost rest = all.subrange(i as int, all.len() as int);
        assert(rest[0] == all[i as int]);
        if claims[i].0 == *name {
            return Some(claims[i].1.clone());
        }
        assert(rest.drop_first() =~= all.subrange(i + 1, all.len() as int));
        i = i + 1;
    }
    None
}

/// Reads the token data out of a verified claim set: the `user_id` claim
/// parsed as an `i64`.
pub fn token_data_from_claims(claims: &Vec<(String, String)>) -> (r: Option<TokenData>)
    ensures
        r == token_data_of(claims.deep_view()),
{
    let name = String::from_str("user_id");
    match find_claim(claims, &name) {
        Some(v) => match parse_i64(v.as_str()) {
            Some(id) => Some(TokenData { user_id: id }),
            None => None,
        },
        None => None,
    }
}

/// Checks `jwt` under `key` and reads its token data.
pub fn verify(key: &[u8], jwt: &str) -> (r: Option<TokenData>)
    ensures
        r == verified_token_data(key@, jwt@),
{
    match verify_claims(key, jwt) {
        Some(claims) => token_data_from_claims(&claims),
        None => None,
    }
}

} // verus!
