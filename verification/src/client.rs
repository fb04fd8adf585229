//! The authenticated client: credentials, the nonce discipline, and the
//! assembly of signed requests. Sending the assembled request over HTTP is
//! the caller's business; everything up to the wire bytes is built and
//! verified here.

use vstd::prelude::*;
use vstd::string::StrSliceExecFns;
use vstd::string::StringExecFns;
use crate::crypto::base64_decode_of;
use crate::errors::KrakenError;
use crate::numeric::dec_str_of;
use crate::numeric::u64_to_dec_string;
use crate::signing::{sign, signature_of};

verus! {

/// One client instance. The nonce state is owned by the instance, so
/// independent instances never interfere; a caller sharing one instance
/// must serialise access to it.
pub struct KrakenClient {
    /// The API key, sent as the `API-Key` header.
    pub api_key: String,
    /// The API secret as issued, base64-encoded.
    pub api_secret: String,
    /// The default trading pair.
    pub pair: String,
    /// The last nonce issued by this instance; `0` before the first.
    pub last_nonce: u64,
}

/// A fully assembled authenticated request: everything the HTTP layer needs
/// to perform the round trip, and nothing it may alter.
pub struct SignedRequest {
    /// The request path, e.g. `/0/private/Balance`.
    pub path: String,
    /// The URL-encoded body, `key=value` pairs joined with `&`.
    pub body: String,
    /// The value of the `API-Key` header.
    pub api_key: String,
    /// The value of the `API-Sign` header.
    pub signature: String,
}

/// The nonce drawn after `last` when the clock reads `now`: the clock value
/// where it has advanced past `last`, else the counter fallback `last + 1`,
/// held at the top of the range once it is exhausted. A clock that stands
/// still or moves backward never lowers the nonce.
pub open spec fn nonce_step(last: u64, now: u64) -> u64 {
    if now > last {
        now
    } else if last < u64::MAX {
        (last + 1) as u64
    } else {
        u64::MAX
    }
}

/// Law: nonces are strictly increasing. A draw after `last` exceeds `last`
/// whatever the clock reported, and a second draw exceeds the first, until
/// the 64-bit range is exhausted.
pub proof fn lemma_nonce_strictly_increasing(last: u64, now1: u64, now2: u64)
    requires
        last < u64::MAX,
    ensures
        nonce_step(last, now1) > last,
        nonce_step(last, now1) < u64::MAX ==> nonce_step(nonce_step(last, now1), now2)
            > nonce_step(last, now1),
{
}

/// The nonce values drawn in turn from `last` under the clock readings
/// `nows`, in order: each draw feeds the next.
pub open spec fn nonce_run(last: u64, nows: Seq<u64>) -> Seq<u64>
    decreases nows.len(),
{
    if nows.len() == 0 {
        Seq::empty()
    } else {
        let first = nonce_step(last, nows[0]);
        seq![first] + nonce_run(first, nows.drop_first())
    }
}

proof fn lemma_nonce_run_len(last: u64, nows: Seq<u64>)
    ensures
        nonce_run(last, nows).len() == nows.len(),
    decreases nows.len(),
{
    if nows.len() > 0 {
        lemma_nonce_run_len(nonce_step(last, nows[0]), nows.drop_first());
    }
}

/// Law: a run of N draws yields a strictly increasing sequence of N
/// nonces — so no duplicates — however the clock behaved across the run,
/// as long as the 64-bit range is not exhausted (the one case left out:
/// a run that reaches the largest value and saturates there).
pub proof fn lemma_nonce_run_strictly_increasing(last: u64, nows: Seq<u64>)
    requires
        forall|k: int| 0 <= k < nows.len() ==> #[trigger] nonce_run(last, nows)[k] < u64::MAX,
    ensures
        nonce_run(last, nows).len() == nows.len(),
        forall|i: int, j: int|
            0 <= i < j < nows.len() ==> nonce_run(last, nows)[i] < nonce_run(last, nows)[j],
        nows.len() > 0 ==> nonce_run(last, nows)[0] > last,
    decreases nows.len(),
{
    if nows.len() > 0 {
        let first = nonce_step(last, nows[0]);
        let run = nonce_run(last, nows);
        let sub = nonce_run(first, nows.drop_first());
        lemma_nonce_run_len(first, nows.drop_first());
        assert(run == seq![first] + sub);
        assert(run.len() == 1 + sub.len());
        assert(run[0] == first);
        assert(first < u64::MAX);
        assert(first > last) by {
            if last == u64::MAX {
                assert(nonce_step(last, nows[0]) == u64::MAX);
            }
        }
        assert forall|k: int| 0 <= k < nows.drop_first().len() implies #[trigger] sub[k]
            < u64::MAX by {
            assert(seq![first].len() == 1);
            assert(run[k + 1] == (seq![first] + sub)[k + 1]);
            assert((seq![first] + sub)[k + 1] == sub[k + 1 - 1]);
            assert(run[k + 1] < u64::MAX);
        }
        lemma_nonce_run_strictly_increasing(first, nows.drop_first());
        assert forall|i: int, j: int| 0 <= i < j < nows.len() implies run[i] < run[j] by {
            if i == 0 {
                assert(run[j] == sub[j - 1]);
                if j == 1 {
                    assert(sub[0] > first);
                } else {
                    assert(sub[0] < sub[j - 1]);
                    assert(sub[0] > first);
                }
            } else {
                assert(run[i] == sub[i - 1]);
                assert(run[j] == sub[j - 1]);
            }
        }
    }
}

/// Relies on `std::time::SystemTime::now`, `duration_since` and
/// `as_millis`: the wall clock's milliseconds since the Unix epoch,
/// truncated to 64 bits, or `0` where the clock stands before the epoch.
/// Nothing is promised of the value; the nonce discipline holds whatever
/// comes back.
#[verifier::external_body]
fn clock_millis() -> u64 {
    std::time::SystemTime::now().duration_since(std::time::UNIX_EPOCH).map(
        |d| d.as_millis() as u64,
    ).unwrap_or(0)
}

/// One `key=value` piece of a form-encoded body.
pub open spec fn pair_encoded(k: Seq<char>, v: Seq<char>) -> Seq<char> {
    k + seq!['='] + v
}

/// The `key=value` pieces joined with `&`, in the given order.
pub open spec fn form_encoded(params: Seq<(Seq<char>, Seq<char>)>) -> Seq<char>
    decreases params.len(),
{
    if params.len() == 0 {
        Seq::empty()
    } else if params.len() == 1 {
        pair_encoded(params[0].0, params[0].1)
    } else {
        form_encoded(params.drop_last()) + seq!['&'] + pair_encoded(
            params.last().0,
            params.last().1,
        )
    }
}

/// The views of a parameter list.
pub open spec fn params_view(params: Seq<(String, String)>) -> Seq<(Seq<char>, Seq<char>)> {
    params.map(|i: int, p: (String, String)| (p.0@, p.1@))
}

/// Renders a parameter list as a form-encoded body.
pub fn form_body(params: &Vec<(String, String)>) -> (r: String)
    ensures
        r@ == form_encoded(params_view(params@)),
{
    let n = params.len();
    let mut r = String::new();
    let mut i: usize = 0;
    loop
        invariant
            0 <= i <= n,
            n == params@.len(),
            r@ == form_encoded(params_view(params@).take(i as int)),
        decreases n - i,
    {
        proof {
            assert(params_view(params@).len() == n);
        }
        if i >= n {
            assert(params_view(params@).take(i as int) =~= params_view(params@));
            return r;
        }
        let ghost pre = r@;
        if i > 0 {
            r.append("&");
        }
        let e = &params[i];
        r.append(e.0.as_str());
        r.append("=");
        r.append(e.1.as_str());
        proof {
            reveal_strlit("&");
            reveal_strlit("=");
            let pv = params_view(params@);
            assert(pv.take(i + 1).drop_last() =~= pv.take(i as int));
            assert(pv.take(i + 1).last() == pv[i as int]);
            assert(pv[i as int].0 == e.0@ && pv[i as int].1 == e.1@);
            assert("&"@ =~= seq!['&']);
            assert("="@ =~= seq!['=']);
            if i == 0 {
                assert(r@ =~= pair_encoded(e.0@, e.1@));
                assert(pv.take(1) =~= seq![pv[0]]);
                assert(form_encoded(pv.take(1)) == pair_encoded(pv[0].0, pv[0].1));
            } else {
                assert(r@ =~= pre + seq!['&'] + pair_encoded(e.0@, e.1@));
                assert(form_encoded(pv.take(i + 1)) == form_encoded(pv.take(i as int))
                    + seq!['&'] + pair_encoded(pv[i as int].0, pv[i as int].1));
            }
        }
        i = i + 1;
    }
}

/// `s` is the word `buy` up to ASCII letter case.
pub open spec fn is_buy_side(s: Seq<char>) -> bool {
    &&& s.len() == 3
    &&& (s[0] == 'b' || s[0] == 'B')
    &&& (s[1] == 'u' || s[1] == 'U')
    &&& (s[2] == 'y' || s[2] == 'Y')
}

/// `s` is the word `sell` up to ASCII letter case.
pub open spec fn is_sell_side(s: Seq<char>) -> bool {
    &&& s.len() == 4
    &&& (s[0] == 's' || s[0] == 'S')
    &&& (s[1] == 'e' || s[1] == 'E')
    &&& (s[2] == 'l' || s[2] == 'L')
    &&& (s[3] == 'l' || s[3] == 'L')
}

/// An order side the exchange accepts. The two accepted words are plain
/// ASCII, so folding letter case by ASCII rules decides membership.
pub open spec fn valid_side(s: Seq<char>) -> bool {
    is_buy_side(s) || is_sell_side(s)
}

/// The lowercase word an order side normalises to.
pub open spec fn side_word(s: Seq<char>) -> Seq<char> {
    if is_buy_side(s) {
        "buy"@
    } else {
        "sell"@
    }
}

/// Normalises an order side to its lowercase word, refusing anything that
/// is not `buy` or `sell` up to letter case.
fn side_lowercase(side: &str) -> (r: Option<&'static str>)
    ensures
        match r {
            Some(t) => valid_side(side@) && t@ == side_word(side@),
            None => !valid_side(side@),
        },
{
    let n = side.unicode_len();
    if n == 3 {
        let c0 = side.get_char(0);
        let c1 = side.get_char(1);
        let c2 = side.get_char(2);
        if (c0 == 'b' || c0 == 'B') && (c1 == 'u' || c1 == 'U') && (c2 == 'y' || c2 == 'Y') {
            Some("buy")
        } else {
            None
        }
    } else if n == 4 {
        let c0 = side.get_char(0);
        let c1 = side.get_char(1);
        let c2 = side.get_char(2);
        let c3 = side.get_char(3);
        if (c0 == 's' || c0 == 'S') && (c1 == 'e' || c1 == 'E') && (c2 == 'l' || c2 == 'L') && (c3
            == 'l' || c3 == 'L') {
            Some("sell")
        } else {
            None
        }
    } else {
        None
    }
}

/// The parameters of an order placement, beyond the nonce: a limit order
/// of `volume` at `price` on `pair`, on the normalised side.
pub open spec fn add_order_extra(
    side: Seq<char>,
    volume: Seq<char>,
    price: Seq<char>,
    pair: Seq<char>,
) -> Seq<(Seq<char>, Seq<char>)> {
    seq![
        ("ordertype"@, "limit"@),
        ("type"@, side_word(side)),
        ("volume"@, volume),
        ("price"@, price),
        ("pair"@, pair),
    ]
}

/// The parameters of an order amendment: those of a placement, then the
/// transaction id, then the new user reference where one was supplied.
pub open spec fn edit_order_extra(
    side: Seq<char>,
    volume: Seq<char>,
    price: Seq<char>,
    pair: Seq<char>,
    txid: Seq<char>,
    userref: Option<Seq<char>>,
) -> Seq<(Seq<char>, Seq<char>)> {
    let base = add_order_extra(side, volume, price, pair).push(("txid"@, txid));
    match userref {
        Some(u) => base.push(("userref"@, u)),
        None => base,
    }
}

/// A form-encoded body begins with the first character of its first key.
proof fn lemma_form_encoded_first(ps: Seq<(Seq<char>, Seq<char>)>)
    requires
        ps.len() > 0,
        ps[0].0.len() > 0,
    ensures
        form_encoded(ps).len() > 0,
        form_encoded(ps)[0] == ps[0].0[0],
    decreases ps.len(),
{
    if ps.len() == 1 {
        assert(pair_encoded(ps[0].0, ps[0].1)[0] == ps[0].0[0]);
    } else {
        lemma_form_encoded_first(ps.drop_last());
        assert(ps.drop_last()[0] == ps[0]);
        assert(form_encoded(ps)[0] == form_encoded(ps.drop_last())[0]);
    }
}

/// Law: the body of every private request begins with the `nonce` key, so
/// its first character is the letter `n` and never a digit — together with
/// the nonce string being all digits, the nonce/body split of the signing
/// input is unambiguous (see the signing module's injectivity law).
pub proof fn lemma_private_body_starts_with_nonce_key(
    nonce: Seq<char>,
    extra: Seq<(Seq<char>, Seq<char>)>,
)
    ensures
        form_encoded(seq![("nonce"@, nonce)] + extra).len() > 0,
        form_encoded(seq![("nonce"@, nonce)] + extra)[0] == 'n',
        !crate::numeric::is_dec_digit(form_encoded(seq![("nonce"@, nonce)] + extra)[0]),
{
    reveal_strlit("nonce");
    let ps = seq![("nonce"@, nonce)] + extra;
    assert(ps[0] == ("nonce"@, nonce));
    assert("nonce"@[0] == 'n');
    lemma_form_encoded_first(ps);
}

/// Credentials and the default pair are untouched.
pub open spec fn creds_unchanged(a: KrakenClient, b: KrakenClient) -> bool {
    a.api_key == b.api_key && a.api_secret == b.api_secret && a.pair == b.pair
}

/// The nonce state never moves backward, and strictly advances while the
/// range lasts.
pub open spec fn nonce_advanced(a: KrakenClient, b: KrakenClient) -> bool {
    b.last_nonce >= a.last_nonce && (a.last_nonce < u64::MAX ==> b.last_nonce > a.last_nonce)
}

/// What a correctly prepared private request looks like against the client
/// state right after it was built: the body is the form encoding of the
/// fresh nonce followed by `extra`, and the signature is the engine's token
/// over path, nonce and body under the decoded secret.
pub open spec fn prepared(
    req: SignedRequest,
    c: KrakenClient,
    path: Seq<char>,
    extra: Seq<(Seq<char>, Seq<char>)>,
) -> bool {
    let nonce = dec_str_of(c.last_nonce as nat);
    &&& req.path@ == path
    &&& req.api_key@ == c.api_key@
    &&& req.body@ == form_encoded(seq![("nonce"@, nonce)] + extra)
    &&& base64_decode_of(c.api_secret@) is Some
    &&& req.signature@ == signature_of(
        base64_decode_of(c.api_secret@).unwrap(),
        path,
        nonce,
        req.body@,
    )
}

impl KrakenClient {
    /// A fresh client around one credential set. Loading credentials from
    /// wherever they live is the caller's business.
    pub fn new(api_key: String, api_secret: String, pair: String) -> (r: KrakenClient)
        ensures
            r.api_key == api_key,
            r.api_secret == api_secret,
            r.pair == pair,
            r.last_nonce == 0,
    {
        KrakenClient { api_key, api_secret, pair, last_nonce: 0 }
    }

    /// Draws the next nonce: the clock reading where it has advanced, else
    /// the counter fallback, so the value is strictly greater than every
    /// nonce this instance has issued, whatever the clock does, until the
    /// 64-bit range is exhausted.
    pub fn generate_nonce(&mut self) -> (r: String)
        ensures
            nonce_advanced(*old(self), *final(self)),
            creds_unchanged(*old(self), *final(self)),
            r@ == dec_str_of(final(self).last_nonce as nat),
            exists|now: u64|
                final(self).last_nonce == nonce_step(old(self).last_nonce, now),
    {
        let now = clock_millis();
        let next = if now > self.last_nonce {
            now
        } else if self.last_nonce < u64::MAX {
            self.last_nonce + 1
        } else {
            u64::MAX
        };
        self.last_nonce = next;
        proof {
            assert(self.last_nonce == nonce_step(old(self).last_nonce, now));
        }
        u64_to_dec_string(next)
    }

    /// Builds the bytes handed to the MAC for one request: the path's
    /// bytes, then the SHA-256 digest of the nonce string concatenated with
    /// the body string.
    pub fn create_signature_message(&self, path: &str, nonce: &str, body_str: &str) -> (r: Vec<
        u8,
    >)
        ensures
            r@ == crate::signing::sig_message_of(path@, nonce@, body_str@),
    {
        crate::signing::signature_message(path, nonce, body_str)
    }

    /// Signs raw message bytes under this client's secret: decodes the
    /// secret from base64, computes HMAC-SHA-512 over `message`, and
    /// renders the result as base64. Fails exactly when the secret is not
    /// valid base64.
    pub fn sign_message(&self, message: &[u8]) -> (r: Result<String, KrakenError>)
        ensures
            match r {
                Ok(sig) => base64_decode_of(self.api_secret@) is Some && sig@
                    == crate::crypto::base64_encode_of(
                    crate::crypto::hmac_sha512_of(
                        base64_decode_of(self.api_secret@).unwrap(),
                        message@,
                    ),
                ),
                Err(e) => base64_decode_of(self.api_secret@) is None && e matches
                    KrakenError::ParseError(_),
            },
    {
        let key = match crate::crypto::base64_decode(self.api_secret.as_str()) {
            Some(k) => k,
            None => {
                return Err(
                    KrakenError::ParseError(String::from_str("api_secret is not valid base64")),
                );
            },
        };
        let mac = match crate::crypto::hmac_sha512(key.as_slice(), message) {
            Ok(m) => m,
            Err(_) => {
                return Err(
                    KrakenError::ParseError(String::from_str("MAC key initialisation failed")),
                );
            },
        };
        Ok(crate::crypto::base64_encode(mac.as_slice()))
    }

    /// Assembles and signs one private request from an already drawn nonce
    /// and the full parameter list (whose first pair must carry that
    /// nonce). Fails exactly when the secret is not valid base64.
    fn signed_with(&self, path: &str, nonce: &str, params: &Vec<(String, String)>) -> (r: Result<
        SignedRequest,
        KrakenError,
    >)
        ensures
            match r {
                Ok(req) => {
                    &&& base64_decode_of(self.api_secret@) is Some
                    &&& req.path@ == path@
                    &&& req.api_key@ == self.api_key@
                    &&& req.body@ == form_encoded(params_view(params@))
                    &&& req.signature@ == signature_of(
                        base64_decode_of(self.api_secret@).unwrap(),
                        path@,
                        nonce@,
                        req.body@,
                    )
                },
                Err(e) => base64_decode_of(self.api_secret@) is None && e matches
                    KrakenError::ParseError(_),
            },
    {
        let body = form_body(params);
        match sign(self.api_secret.as_str(), path, nonce, body.as_str()) {
            Ok(sig) => Ok(
                SignedRequest {
                    path: String::from_str(path),
                    body,
                    api_key: self.api_key.clone(),
                    signature: sig,
                },
            ),
            Err(_) => Err(
                KrakenError::ParseError(String::from_str("api_secret is not valid base64")),
            ),
        }
    }

    /// Prepares the balance query: a signed `POST /0/private/Balance` whose
    /// body carries the fresh nonce alone.
    pub fn prepare_balance(&mut self) -> (r: Result<SignedRequest, KrakenError>)
        ensures
            creds_unchanged(*old(self), *final(self)),
            nonce_advanced(*old(self), *final(self)),
            match r {
                Ok(req) => prepared(req, *final(self), "/0/private/Balance"@, Seq::empty()),
                Err(e) => base64_decode_of(old(self).api_secret@) is None && e matches
                    KrakenError::ParseError(_),
            },
    {
        let nonce = self.generate_nonce();
        let mut params: Vec<(String, String)> = Vec::new();
        params.push((String::from_str("nonce"), nonce.clone()));
        let r = self.signed_with("/0/private/Balance", nonce.as_str(), &params);
        proof {
            assert(params_view(params@) =~= seq![("nonce"@, nonce@)]);
            assert(seq![("nonce"@, nonce@)] + Seq::<(Seq<char>, Seq<char>)>::empty() =~= seq![
                ("nonce"@, nonce@),
            ]);
        }
        r
    }

    /// Prepares the open-orders query: a signed `POST /0/private/OpenOrders`
    /// whose body carries the fresh nonce alone.
    pub fn prepare_open_orders(&mut self) -> (r: Result<SignedRequest, KrakenError>)
        ensures
            creds_unchanged(*old(self), *final(self)),
            nonce_advanced(*old(self), *final(self)),
            match r {
                Ok(req) => prepared(req, *final(self), "/0/private/OpenOrders"@, Seq::empty()),
                Err(e) => base64_decode_of(old(self).api_secret@) is None && e matches
                    KrakenError::ParseError(_),
            },
    {
        let nonce = self.generate_nonce();
        let mut params: Vec<(String, String)> = Vec::new();
        params.push((String::from_str("nonce"), nonce.clone()));
        let r = self.signed_with("/0/private/OpenOrders", nonce.as_str(), &params);
        proof {
            assert(params_view(params@) =~= seq![("nonce"@, nonce@)]);
            assert(seq![("nonce"@, nonce@)] + Seq::<(Seq<char>, Seq<char>)>::empty() =~= seq![
                ("nonce"@, nonce@),
            ]);
        }
        r
    }

    /// Prepares a cancellation: a signed `POST /0/private/CancelOrder` whose
    /// body carries the fresh nonce and the transaction id.
    pub fn prepare_cancel_order(&mut self, txid: &str) -> (r: Result<SignedRequest, KrakenError>)
        ensures
            creds_unchanged(*old(self), *final(self)),
            nonce_advanced(*old(self), *final(self)),
            match r {
                Ok(req) => prepared(
                    req,
                    *final(self),
                    "/0/private/CancelOrder"@,
                    seq![("txid"@, txid@)],
                ),
                Err(e) => base64_decode_of(old(self).api_secret@) is None && e matches
                    KrakenError::ParseError(_),
            },
    {
        let nonce = self.generate_nonce();
        let mut params: Vec<(String, String)> = Vec::new();
        params.push((String::from_str("nonce"), nonce.clone()));
        params.push((String::from_str("txid"), String::from_str(txid)));
        let r = self.signed_with("/0/private/CancelOrder", nonce.as_str(), &params);
        proof {
            assert(params_view(params@) =~= seq![("nonce"@, nonce@), ("txid"@, txid@)]);
            assert(seq![("nonce"@, nonce@)] + seq![("txid"@, txid@)] =~= seq![
                ("nonce"@, nonce@),
                ("txid"@, txid@),
            ]);
        }
        r
    }

    /// Prepares an order placement: validates the side before anything else
    /// — an invalid side is refused with no nonce drawn and no other effect
    /// — then assembles and signs `POST /0/private/AddOrder`. `price` and
    /// `volume` arrive already rendered as decimal strings.
    pub fn prepare_add_order(&mut self, pair: &str, side: &str, price: &str, volume: &str) -> (r:
        Result<SignedRequest, KrakenError>)
        ensures
            creds_unchanged(*old(self), *final(self)),
            match r {
                Ok(req) => {
                    &&& valid_side(side@)
                    &&& nonce_advanced(*old(self), *final(self))
                    &&& prepared(
                        req,
                        *final(self),
                        "/0/private/AddOrder"@,
                        add_order_extra(side@, volume@, price@, pair@),
                    )
                },
                Err(e) => match e {
                    KrakenError::ValidationError(_) => !valid_side(side@) && *final(self) == *old(
                        self,
                    ),
                    KrakenError::ParseError(_) => valid_side(side@) && nonce_advanced(
                        *old(self),
                        *final(self),
                    ) && base64_decode_of(old(self).api_secret@) is None,
                    _ => false,
                },
            },
    {
        let side_l = match side_lowercase(side) {
            Some(t) => t,
            None => {
                return Err(
                    KrakenError::ValidationError(String::from_str("side must be 'buy' or 'sell'")),
                );
            },
        };
        let nonce = self.generate_nonce();
        let mut params: Vec<(String, String)> = Vec::new();
        params.push((String::from_str("nonce"), nonce.clone()));
        params.push((String::from_str("ordertype"), String::from_str("limit")));
        params.push((String::from_str("type"), String::from_str(side_l)));
        params.push((String::from_str("volume"), String::from_str(volume)));
        params.push((String::from_str("price"), String::from_str(price)));
        params.push((String::from_str("pair"), String::from_str(pair)));
        let r = self.signed_with("/0/private/AddOrder", nonce.as_str(), &params);
        proof {
            assert(params_view(params@) =~= seq![("nonce"@, nonce@)] + add_order_extra(
                side@,
                volume@,
                price@,
                pair@,
            ));
        }
        r
    }

    /// Prepares an order amendment: the same validation and parameters as a
    /// placement, plus the mandatory transaction id and, where supplied,
    /// the new user reference; assembles and signs
    /// `POST /0/private/EditOrder`.
    pub fn prepare_edit_order(
        &mut self,
        txid: &str,
        pair: &str,
        side: &str,
        price: &str,
        volume: &str,
        new_userref: Option<&str>,
    ) -> (r: Result<SignedRequest, KrakenError>)
        ensures
            creds_unchanged(*old(self), *final(self)),
            match r {
                Ok(req) => {
                    &&& valid_side(side@)
                    &&& nonce_advanced(*old(self), *final(self))
                    &&& prepared(
                        req,
                        *final(self),
                        "/0/private/EditOrder"@,
                        edit_order_extra(
                            side@,
                            volume@,
                            price@,
                            pair@,
                            txid@,
                            new_userref.deep_view(),
                        ),
                    )
                },
                Err(e) => match e {
                    KrakenError::ValidationError(_) => !valid_side(side@) && *final(self) == *old(
                        self,
                    ),
                    KrakenError::ParseError(_) => valid_side(side@) && nonce_advanced(
                        *old(self),
                        *final(self),
                    ) && base64_decode_of(old(self).api_secret@) is None,
                    _ => false,
                },
            },
    {
        let side_l = match side_lowercase(side) {
            Some(t) => t,
            None => {
                return Err(
                    KrakenError::ValidationError(String::from_str("side must be 'buy' or 'sell'")),
                );
            },
        };
        let nonce = self.generate_nonce();
        let mut params: Vec<(String, String)> = Vec::new();
        params.push((String::from_str("nonce"), nonce.clone()));
        params.push((String::from_str("ordertype"), String::from_str("limit")));
        params.push((String::from_str("type"), String::from_str(side_l)));
        params.push((String::from_str("volume"), String::from_str(volume)));
        params.push((String::from_str("price"), String::from_str(price)));
        params.push((String::from_str("pair"), String::from_str(pair)));
        params.push((String::from_str("txid"), String::from_str(txid)));
        match new_userref {
            Some(u) => {
                params.push((String::from_str("userref"), String::from_str(u)));
            },
            None => {},
        }
        let r = self.signed_with("/0/private/EditOrder", nonce.as_str(), &params);
        proof {
            assert(params_view(params@) =~= seq![("nonce"@, nonce@)] + edit_order_extra(
                side@,
                volume@,
                price@,
                pair@,
                txid@,
                new_userref.deep_view(),
            ));
        }
        r
    }
}

} // verus!
