//! Names of cache keys. Every kind of key has its own prefix, so keys of
//! different kinds never coincide.

use vstd::prelude::*;
use crate::text::push_str;

verus! {

pub open spec fn refresh_token_prefix() -> Seq<char> { "wms:refresh_token:"@ }
pub open spec fn failed_login_prefix() -> Seq<char> { "wms:failed_login:"@ }
pub open spec fn lockout_prefix() -> Seq<char> { "wms:lockout:"@ }
pub open spec fn rate_limit_prefix() -> Seq<char> { "wms:rate_limit:"@ }
pub open spec fn token_blacklist_prefix() -> Seq<char> { "wms:blacklist:"@ }

fn prefixed(prefix: &str, s: &str) -> (r: String)
    ensures
        r@ == prefix@ + s@,
{
    let mut k = String::new();
    push_str(&mut k, prefix);
    push_str(&mut k, s);
    assert(k@ =~= prefix@ + s@);
    k
}

/// Refresh token storage: token_hash → user_id
pub fn refresh_token(token_hash: &str) -> (r: String)
    ensures
        r@ == refresh_token_prefix() + token_hash@,
{
    prefixed("wms:refresh_token:", token_hash)
}

/// Failed login counter per email
pub fn failed_login(email: &str) -> (r: String)
    ensures
        r@ == failed_login_prefix() + email@,
{
    prefixed("wms:failed_login:", email)
}

/// Account lockout flag per email
pub fn lockout(email: &str) -> (r: String)
    ensures
        r@ == lockout_prefix() + email@,
{
    prefixed("wms:lockout:", email)
}

/// Rate limit counter per IP
pub fn rate_limit(ip: &str) -> (r: String)
    ensures
        r@ == rate_limit_prefix() + ip@,
{
    prefixed("wms:rate_limit:", ip)
}

/// Blacklisted access tokens (for logout)
pub fn token_blacklist(jti: &str) -> (r: String)
    ensures
        r@ == token_blacklist_prefix() + jti@,
{
    prefixed("wms:blacklist:", jti)
}

/// The key prefixes, in a fixed order.
pub open spec fn key_prefix(kind: int) -> Seq<char> {
    if kind == 0 { refresh_token_prefix() }
    else if kind == 1 { failed_login_prefix() }
    else if kind == 2 { lockout_prefix() }
    else if kind == 3 { rate_limit_prefix() }
    else { token_blacklist_prefix() }
}

/// Keys of two different kinds never coincide, whatever they are made
/// of; and keys of one kind coincide only when made of the same text.
pub proof fn lemma_keys_distinct(kind1: int, kind2: int, a: Seq<char>, b: Seq<char>)
    requires
        0 <= kind1 < 5,
        0 <= kind2 < 5,
    ensures
        kind1 != kind2 ==> key_prefix(kind1) + a != key_prefix(kind2) + b,
        kind1 == kind2 ==> (key_prefix(kind1) + a == key_prefix(kind2) + b <==> a == b),
{
    reveal_strlit("wms:refresh_token:");
    reveal_strlit("wms:failed_login:");
    reveal_strlit("wms:lockout:");
    reveal_strlit("wms:rate_limit:");
    reveal_strlit("wms:blacklist:");
    let p1 = key_prefix(kind1);
    let p2 = key_prefix(kind2);
    assert(p1.len() >= 6 && p2.len() >= 6);
    if kind1 != kind2 {
        assert((p1 + a)[4] == p1[4]);
        assert((p2 + b)[4] == p2[4]);
        assert((p1 + a)[5] == p1[5]);
        assert((p2 + b)[5] == p2[5]);
        assert(p1[4] != p2[4] || p1[5] != p2[5]);
    } else {
        assert(p1 == p2);
        if p1 + a == p2 + b {
            assert((p1 + a).len() == (p2 + b).len());
            assert(a.len() == b.len());
            assert forall|i: int| 0 <= i < a.len() implies a[i] == b[i] by {
                assert((p1 + a)[p1.len() + i] == a[i]);
                assert((p2 + b)[p2.len() + i] == b[i]);
            }
            assert(a =~= b);
        }
    }
}

} // verus!

verus! {

/// Every key lives in the "wms:" namespace and ends its prefix with ':'
/// before the part that names the record, so the part can be read back
/// from the key: refresh tokens, failed logins, lockouts, rate limits and
/// the token blacklist use "refresh_token", "failed_login", "lockout",
/// "rate_limit" and "blacklist".
pub proof fn lemma_key_layout(kind: int, part: Seq<char>)
    requires
        0 <= kind < 5,
    ensures
        (key_prefix(kind) + part).take(4) == "wms:"@,
        key_prefix(kind).last() == ':',
        (key_prefix(kind) + part).skip(key_prefix(kind).len() as int) == part,
        key_prefix(0) == "wms:"@ + "refresh_token"@ + ":"@,
        key_prefix(1) == "wms:"@ + "failed_login"@ + ":"@,
        key_prefix(2) == "wms:"@ + "lockout"@ + ":"@,
        key_prefix(3) == "wms:"@ + "rate_limit"@ + ":"@,
        key_prefix(4) == "wms:"@ + "blacklist"@ + ":"@,
{
    reveal_strlit("wms:refresh_token:");
    reveal_strlit("wms:failed_login:");
    reveal_strlit("wms:lockout:");
    reveal_strlit("wms:rate_limit:");
    reveal_strlit("wms:blacklist:");
    reveal_strlit("wms:");
    reveal_strlit(":");
    reveal_strlit("refresh_token");
    reveal_strlit("failed_login");
    reveal_strlit("lockout");
    reveal_strlit("rate_limit");
    reveal_strlit("blacklist");
    assert("wms:"@ + "refresh_token"@ + ":"@ =~= "wms:refresh_token:"@);
    assert("wms:"@ + "failed_login"@ + ":"@ =~= "wms:failed_login:"@);
    assert("wms:"@ + "lockout"@ + ":"@ =~= "wms:lockout:"@);
    assert("wms:"@ + "rate_limit"@ + ":"@ =~= "wms:rate_limit:"@);
    assert("wms:"@ + "blacklist"@ + ":"@ =~= "wms:blacklist:"@);
    let p = key_prefix(kind);
    assert((p + part).take(4) =~= p.take(4));
    assert(p.take(4) =~= "wms:"@);
    assert((p + part).skip(p.len() as int) =~= part);
}

} // verus!
