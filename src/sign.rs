//! Signing: the receive window and the timestamp are appended to the encoded
//! parameters, and an HMAC-SHA256 tag of the result, keyed by the API secret,
//! is appended as the last parameter.

use vstd::prelude::*;
use vstd::string::*;
use crate::text::{
    dec_text, hex_text, lemma_dec_text, lemma_dec_text_injective,
    lemma_digits_prefix, to_hex, u64_text,
};

verus! {

/// The HMAC-SHA256 tag of `msg` (as UTF-8) under `key` (as UTF-8).
pub uninterp spec fn hmac_sha256_of(key: Seq<char>, msg: Seq<char>) -> Seq<u8>;

/// Relies on hmac::Hmac<sha2::Sha256>: `new_from_slice` takes a key of any
/// length and never fails, `update` then `finalize` give the tag of the message.
#[verifier::external_body]
fn hmac_sha256(key: &str, msg: &str) -> (r: Option<Vec<u8>>)
    ensures
        r is Some,
        r matches Some(tag) ==> tag@ == hmac_sha256_of(key@, msg@),
{
    match <hmac::Hmac<sha2::Sha256> as hmac::Mac>::new_from_slice(key.as_bytes()) {
        Ok(mut mac) => {
            hmac::Mac::update(&mut mac, msg.as_bytes());
            Some(hmac::Mac::finalize(mac).into_bytes().to_vec())
        },
        Err(_) => None,
    }
}

/// The encoded parameters followed by `&`, or nothing where there are none.
pub open spec fn params_head(params: Seq<char>) -> Seq<char> {
    if params.len() == 0 {
        Seq::empty()
    } else {
        params + seq!['&']
    }
}

/// The text that is signed: the parameters, then the receive window, then the
/// timestamp.
pub open spec fn signing_payload(params: Seq<char>, recv_window: nat, timestamp: nat) -> Seq<char> {
    params_head(params) + "recvWindow="@ + dec_text(recv_window) + "&timestamp="@ + dec_text(timestamp)
}

/// The signature of a payload: the hexadecimal HMAC-SHA256 tag under the secret.
pub open spec fn signature_of(payload: Seq<char>, secret: Seq<char>) -> Seq<char> {
    hex_text(hmac_sha256_of(secret, payload))
}

/// The full signed query: the payload, then the signature as last parameter.
pub open spec fn signed_query(params: Seq<char>, recv_window: nat, timestamp: nat, secret: Seq<char>) -> Seq<char> {
    let payload = signing_payload(params, recv_window, timestamp);
    payload + "&signature="@ + signature_of(payload, secret)
}

/// Appends the receive window, the timestamp and the signature to encoded
/// parameters. The window is passed on as it is: bounding it is the
/// exchange's affair.
pub fn sign_query(params: &str, recv_window: u64, timestamp: u64, secret: &str) -> (r: String)
    ensures
        r@ == signed_query(params@, recv_window as nat, timestamp as nat, secret@),
{
    let mut payload = String::new();
    if params.unicode_len() > 0 {
        payload.append(params);
        payload.append("&");
        proof {
            reveal_strlit("&");
        }
    }
    assert(payload@ == params_head(params@));
    payload.append("recvWindow=");
    payload.append(u64_text(recv_window).as_str());
    payload.append("&timestamp=");
    payload.append(u64_text(timestamp).as_str());
    let tag = hmac_sha256(secret, payload.as_str());
    let sig = match tag {
        Some(t) => to_hex(&t),
        None => String::new(),
    };
    payload.append("&signature=");
    payload.append(sig.as_str());
    payload
}

/// Signing is a function of the parameters, the receive window, the timestamp
/// and the secret: the same four give the same signed query. Changing the
/// parameters, the receive window or the timestamp alone changes the text
/// that is signed. (That a changed text or a changed secret also changes the
/// tag is the collision resistance of HMAC-SHA256, which is not proved here.)
pub proof fn lemma_signature_inputs(
    p1: Seq<char>,
    rw1: nat,
    ts1: nat,
    s1: Seq<char>,
    p2: Seq<char>,
    rw2: nat,
    ts2: nat,
    s2: Seq<char>,
)
    ensures
        (p1 == p2 && rw1 == rw2 && ts1 == ts2 && s1 == s2) ==> signed_query(p1, rw1, ts1, s1)
            == signed_query(p2, rw2, ts2, s2),
        (rw1 == rw2 && ts1 == ts2 && p1 != p2) ==> signing_payload(p1, rw1, ts1)
            != signing_payload(p2, rw2, ts2),
        (p1 == p2 && ts1 == ts2 && rw1 != rw2) ==> signing_payload(p1, rw1, ts1)
            != signing_payload(p2, rw2, ts2),
        (p1 == p2 && rw1 == rw2 && ts1 != ts2) ==> signing_payload(p1, rw1, ts1)
            != signing_payload(p2, rw2, ts2),
{
    if rw1 == rw2 && ts1 == ts2 && signing_payload(p1, rw1, ts1) == signing_payload(p2, rw2, ts2) {
        lemma_payload_params(p1, p2, rw1, ts1);
    }
    if p1 == p2 && ts1 == ts2 && signing_payload(p1, rw1, ts1) == signing_payload(p2, rw2, ts2) {
        lemma_payload_recv_window(p1, rw1, rw2, ts1);
    }
    if p1 == p2 && rw1 == rw2 && signing_payload(p1, rw1, ts1) == signing_payload(p2, rw2, ts2) {
        lemma_payload_timestamp(p1, rw1, ts1, ts2);
    }
}

proof fn lemma_payload_params(p1: Seq<char>, p2: Seq<char>, rw: nat, ts: nat)
    requires
        signing_payload(p1, rw, ts) == signing_payload(p2, rw, ts),
    ensures
        p1 == p2,
{
    let tail = "recvWindow="@ + dec_text(rw) + "&timestamp="@ + dec_text(ts);
    let h1 = params_head(p1);
    let h2 = params_head(p2);
    assert(signing_payload(p1, rw, ts) == h1 + tail);
    assert(signing_payload(p2, rw, ts) == h2 + tail);
    assert(h1.len() == h2.len());
    assert(h1 == (h1 + tail).take(h1.len() as int));
    assert(h2 == (h2 + tail).take(h2.len() as int));
    if p1.len() > 0 && p2.len() > 0 {
        assert(p1 == h1.drop_last());
        assert(p2 == h2.drop_last());
    }
}

proof fn lemma_payload_recv_window(p: Seq<char>, rw1: nat, rw2: nat, ts: nat)
    requires
        signing_payload(p, rw1, ts) == signing_payload(p, rw2, ts),
    ensures
        rw1 == rw2,
{
    let a = params_head(p) + "recvWindow="@;
    let t = "&timestamp="@ + dec_text(ts);
    reveal_strlit("&timestamp=");
    let d1 = dec_text(rw1);
    let d2 = dec_text(rw2);
    assert(signing_payload(p, rw1, ts) == a + (d1 + t));
    assert(signing_payload(p, rw2, ts) == a + (d2 + t));
    assert(d1 + t == (a + (d1 + t)).skip(a.len() as int));
    assert(d2 + t == (a + (d2 + t)).skip(a.len() as int));
    lemma_dec_text(rw1);
    lemma_dec_text(rw2);
    assert(t[0] == '&');
    lemma_digits_prefix(d1, t, d2, t);
    lemma_dec_text_injective(rw1, rw2);
}

proof fn lemma_payload_timestamp(p: Seq<char>, rw: nat, ts1: nat, ts2: nat)
    requires
        signing_payload(p, rw, ts1) == signing_payload(p, rw, ts2),
    ensures
        ts1 == ts2,
{
    let b = params_head(p) + "recvWindow="@ + dec_text(rw) + "&timestamp="@;
    let d1 = dec_text(ts1);
    let d2 = dec_text(ts2);
    assert(d1 == (b + d1).skip(b.len() as int));
    assert(d2 == (b + d2).skip(b.len() as int));
    lemma_dec_text_injective(ts1, ts2);
}

} // verus!
