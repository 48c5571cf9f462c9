//! The signatures that the exchanges ask for.
//!
//! Binance and Bybit sign the query string of the sorted parameters,
//! OKX signs timestamp, method, path and body in a row; all of them with
//! HMAC-SHA256 under the secret key, in hexadecimal or in base 64.

use vstd::prelude::*;
use vstd::string::*;
use vstd::utf8::encode_utf8;
use crate::engine::executor::idempotent::hex_char;

verus! {

/// The HMAC-SHA256 of a message under a key.
pub uninterp spec fn hmac_sha256_of(key: Seq<u8>, message: Seq<u8>) -> Seq<u8>;

/// The standard base 64 text of some bytes, with padding.
pub uninterp spec fn base64_text(bytes: Seq<u8>) -> Seq<char>;

/// The hexadecimal text of some bytes: two digits a byte, in lower case.
pub open spec fn hex_text(bytes: Seq<u8>) -> Seq<char> {
    Seq::new(
        2 * bytes.len(),
        |i: int|
            if i % 2 == 0 {
                hex_char(bytes[i / 2] as int / 16)
            } else {
                hex_char(bytes[i / 2] as int % 16)
            },
    )
}

/// Wraps `Hmac<Sha256>`: the code of the message under the key, 32 bytes
/// long.
#[verifier::external_body]
fn hmac_sha256(key: &[u8], message: &[u8]) -> (r: Vec<u8>)
    ensures
        r@ == hmac_sha256_of(key@, message@),
        r@.len() == 32,
{
    let mut mac = <hmac::Hmac<sha2::Sha256> as hmac::Mac>::new_from_slice(key).expect("any key length");
    hmac::Mac::update(&mut mac, message);
    hmac::Mac::finalize(mac).into_bytes().to_vec()
}

/// The text of one hexadecimal digit, in lower case.
pub fn hex_digit(d: u8) -> (r: &'static str)
    requires
        d < 16,
    ensures
        r@ == seq![hex_char(d as int)],
{
    proof {
        reveal_strlit("0");
        reveal_strlit("1");
        reveal_strlit("2");
        reveal_strlit("3");
        reveal_strlit("4");
        reveal_strlit("5");
        reveal_strlit("6");
        reveal_strlit("7");
        reveal_strlit("8");
        reveal_strlit("9");
        reveal_strlit("a");
        reveal_strlit("b");
        reveal_strlit("c");
        reveal_strlit("d");
        reveal_strlit("e");
        reveal_strlit("f");
    }
    let r = if d == 0 {
        "0"
    } else if d == 1 {
        "1"
    } else if d == 2 {
        "2"
    } else if d == 3 {
        "3"
    } else if d == 4 {
        "4"
    } else if d == 5 {
        "5"
    } else if d == 6 {
        "6"
    } else if d == 7 {
        "7"
    } else if d == 8 {
        "8"
    } else if d == 9 {
        "9"
    } else if d == 10 {
        "a"
    } else if d == 11 {
        "b"
    } else if d == 12 {
        "c"
    } else if d == 13 {
        "d"
    } else if d == 14 {
        "e"
    } else {
        "f"
    };
    proof {
        assert(r@ =~= seq![hex_char(d as int)]);
    }
    r
}

/// The hexadecimal text of some bytes: two digits a byte, in lower case.
pub fn hex_encode(bytes: &[u8]) -> (r: String)
    ensures
        r@ == hex_text(bytes@),
{
    let mut out = String::new();
    let mut i: usize = 0;
    while i < bytes.len()
        invariant
            i <= bytes@.len(),
            out@.len() == 2 * i,
            forall|k: int| 0 <= k < 2 * i ==> out@[k] == #[trigger] hex_text(bytes@)[k],
        decreases bytes@.len() - i,
    {
        let b = bytes[i];
        let ghost before = out@;
        out.append(hex_digit(b / 16));
        out.append(hex_digit(b % 16));
        proof {
            assert(out@ =~= before.push(hex_char(b as int / 16)).push(hex_char(b as int % 16)));
            assert forall|k: int| 0 <= k < 2 * (i + 1) implies out@[k] == #[trigger] hex_text(bytes@)[k] by {
                if k < 2 * i {
                    assert(out@[k] == before[k]);
                } else if k == 2 * i {
                    assert(k % 2 == 0 && k / 2 == i);
                } else {
                    assert(k % 2 == 1 && k / 2 == i);
                }
            }
        }
        i += 1;
    }
    proof {
        assert(out@ =~= hex_text(bytes@));
    }
    out
}

/// Wraps the `encode` of the standard engine of `base64`.
#[verifier::external_body]
fn base64_encode(bytes: &[u8]) -> (r: String)
    ensures
        r@ == base64_text(bytes@),
{
    base64::Engine::encode(&base64::engine::general_purpose::STANDARD, bytes)
}

/// Keys and values as sequences of characters.
pub open spec fn pairs_view(params: Seq<(String, String)>) -> Seq<(Seq<char>, Seq<char>)> {
    Seq::new(params.len(), |i: int| (params[i].0@, params[i].1@))
}

/// Whether `a` stands before `b` in the order of texts, given that they
/// agree before the place `from`: at the first place from there on at
/// which they differ `a` has the character with the smaller code, or `a`
/// ends before they differ and `b` goes on.
pub open spec fn before_from(a: Seq<char>, b: Seq<char>, from: int) -> bool
    decreases a.len() - from,
{
    if from >= b.len() {
        false
    } else if from >= a.len() {
        true
    } else if a[from] != b[from] {
        (a[from] as u32) < (b[from] as u32)
    } else {
        before_from(a, b, from + 1)
    }
}

/// Whether `a` stands before `b` in the order of texts.
pub open spec fn text_before(a: Seq<char>, b: Seq<char>) -> bool {
    before_from(a, b, 0)
}

/// The key at place `i` stands behind the key before it.
pub open spec fn ascends_at(params: Seq<(Seq<char>, Seq<char>)>, i: int) -> bool {
    text_before(params[i - 1].0, params[i].0)
}

/// The keys of the parameters ascend: each stands behind the one before
/// it in the order of texts, so that none comes twice.
pub open spec fn keys_ascend(params: Seq<(Seq<char>, Seq<char>)>) -> bool {
    forall|i: int| 0 < i < params.len() ==> #[trigger] ascends_at(params, i)
}

/// Parameters whose keys ascend still do so with one more parameter at
/// the end whose key stands behind the last.
pub proof fn lemma_ascend_push(params: Seq<(Seq<char>, Seq<char>)>, last: (Seq<char>, Seq<char>))
    requires
        keys_ascend(params),
        params.len() > 0 ==> text_before(params[params.len() - 1].0, last.0),
    ensures
        keys_ascend(params.push(last)),
{
    let longer = params.push(last);
    assert forall|i: int| 0 < i < longer.len() implies #[trigger] ascends_at(longer, i) by {
        if i < params.len() {
            assert(ascends_at(params, i));
        }
    }
}

/// Whether `a` stands before `b` in the order of texts.
pub fn stands_before(a: &str, b: &str) -> (r: bool)
    ensures
        r == text_before(a@, b@),
{
    let n = a.unicode_len();
    let m = b.unicode_len();
    let mut i: usize = 0;
    while i < n && i < m
        invariant
            n == a@.len(),
            m == b@.len(),
            i <= n,
            i <= m,
            text_before(a@, b@) == before_from(a@, b@, i as int),
        decreases n - i,
    {
        let x = a.get_char(i);
        let y = b.get_char(i);
        if x != y {
            return (x as u32) < (y as u32);
        }
        i += 1;
    }
    i < m
}

/// Whether the keys of the parameters ascend.
pub fn keys_ascending(params: &Vec<(String, String)>) -> (r: bool)
    ensures
        r == keys_ascend(pairs_view(params@)),
{
    let mut i: usize = 1;
    while i < params.len()
        invariant
            1 <= i,
            forall|j: int| 0 < j < i && j < params@.len() ==> #[trigger] ascends_at(pairs_view(params@), j),
        decreases params@.len() - i,
    {
        if !stands_before(params[i - 1].0.as_str(), params[i].0.as_str()) {
            proof {
                assert(!ascends_at(pairs_view(params@), i as int));
            }
            return false;
        }
        proof {
            assert(ascends_at(pairs_view(params@), i as int));
        }
        i += 1;
    }
    true
}

/// The query string of the first `upto` parameters: `key=value` for each,
/// with `&` between them.
pub open spec fn query_upto(params: Seq<(Seq<char>, Seq<char>)>, upto: int) -> Seq<char>
    decreases upto,
{
    if upto <= 0 {
        Seq::empty()
    } else if upto == 1 {
        params[0].0 + "="@ + params[0].1
    } else {
        query_upto(params, upto - 1) + "&"@ + params[upto - 1].0 + "="@ + params[upto - 1].1
    }
}

/// The query string of the parameters.
pub open spec fn query_of(params: Seq<(Seq<char>, Seq<char>)>) -> Seq<char> {
    query_upto(params, params.len() as int)
}

/// The query string of the parameters.
pub fn query_string(params: &Vec<(String, String)>) -> (r: String)
    ensures
        r@ == query_of(pairs_view(params@)),
{
    let mut out = String::new();
    let mut i: usize = 0;
    while i < params.len()
        invariant
            i <= params@.len(),
            out@ == query_upto(pairs_view(params@), i as int),
        decreases params@.len() - i,
    {
        if i > 0 {
            out.append("&");
        }
        out.append(params[i].0.as_str());
        out.append("=");
        out.append(params[i].1.as_str());
        i += 1;
        proof {
            assert(out@ =~= query_upto(pairs_view(params@), i as int));
        }
    }
    out
}

/// The keys of an account with an exchange.
pub struct Signer {
    api_key: String,
    secret_key: String,
}

impl Clone for Signer {
    fn clone(&self) -> (r: Self)
        ensures
            r == *self,
    {
        Signer { api_key: self.api_key.clone(), secret_key: self.secret_key.clone() }
    }
}

impl Signer {
    /// The public key.
    pub closed spec fn key(self) -> Seq<char> {
        self.api_key@
    }

    /// The secret key.
    pub closed spec fn secret(self) -> Seq<char> {
        self.secret_key@
    }

    /// The signature of a text: its HMAC-SHA256 under the secret key.
    pub open spec fn code_of(self, text: Seq<char>) -> Seq<u8> {
        hmac_sha256_of(encode_utf8(self.secret()), encode_utf8(text))
    }

    pub fn new(api_key: String, secret_key: String) -> (r: Signer)
        ensures
            r.key() == api_key@,
            r.secret() == secret_key@,
    {
        Signer { api_key, secret_key }
    }

    /// The signature of the parameters as Binance wants it: the code of
    /// their query string, in hexadecimal. The parameters stand in the
    /// order of their keys.
    pub fn sign_binance(&self, params: &Vec<(String, String)>) -> (r: String)
        requires
            keys_ascend(pairs_view(params@)),
        ensures
            r@ == hex_text(self.code_of(query_of(pairs_view(params@)))),
            r@.len() == 64,
    {
        let query = query_string(params);
        let code = hmac_sha256(self.secret_key.as_str().as_bytes(), query.as_str().as_bytes());
        hex_encode(code.as_slice())
    }

    /// The signature of a request as OKX wants it: the code of timestamp,
    /// method, path and body in a row, in base 64.
    pub fn sign_okex(&self, timestamp: &str, method: &str, path: &str, body: &str) -> (r: String)
        ensures
            r@ == base64_text(self.code_of(timestamp@ + method@ + path@ + body@)),
    {
        let mut message = String::from_str(timestamp);
        message.append(method);
        message.append(path);
        message.append(body);
        let code = hmac_sha256(self.secret_key.as_str().as_bytes(), message.as_str().as_bytes());
        base64_encode(code.as_slice())
    }

    /// The signature of the parameters as Bybit wants it: the code of
    /// their query string, in hexadecimal. The parameters stand in the
    /// order of their keys.
    pub fn sign_bybit(&self, params: &Vec<(String, String)>) -> (r: String)
        requires
            keys_ascend(pairs_view(params@)),
        ensures
            r@ == hex_text(self.code_of(query_of(pairs_view(params@)))),
            r@.len() == 64,
    {
        let query = query_string(params);
        let code = hmac_sha256(self.secret_key.as_str().as_bytes(), query.as_str().as_bytes());
        hex_encode(code.as_slice())
    }

    /// The public key.
    pub fn api_key(&self) -> (r: &str)
        ensures
            r@ == self.key(),
    {
        self.api_key.as_str()
    }
}

} // verus!
