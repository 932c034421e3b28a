//! Response framing.
//!
//! A response is one status line, a content-type header, a content-encoding
//! header when the asset is the gzip variant, a content-length header, an
//! empty line, and then the asset's bytes unchanged.

use crate::assets::StaticAsset;
use vstd::prelude::*;

verus! {

/// The line `HTTP/1.1 200 OK\r\n`.
pub open spec fn status_line() -> Seq<u8> {
    seq![72u8, 84u8, 84u8, 80u8, 47u8, 49u8, 46u8, 49u8, 32u8, 50u8, 48u8, 48u8, 32u8, 79u8, 75u8, 13u8, 10u8]
}

/// The header name `Content-Type: `.
pub open spec fn ct_prefix() -> Seq<u8> {
    seq![67u8, 111u8, 110u8, 116u8, 101u8, 110u8, 116u8, 45u8, 84u8, 121u8, 112u8, 101u8, 58u8, 32u8]
}

/// The whole header `Content-Encoding: gzip\r\n`.
pub open spec fn enc_header() -> Seq<u8> {
    seq![67u8, 111u8, 110u8, 116u8, 101u8, 110u8, 116u8, 45u8, 69u8, 110u8, 99u8, 111u8, 100u8, 105u8, 110u8, 103u8, 58u8, 32u8, 103u8, 122u8, 105u8, 112u8, 13u8, 10u8]
}

/// The header name `Content-Length: `.
pub open spec fn cl_prefix() -> Seq<u8> {
    seq![67u8, 111u8, 110u8, 116u8, 101u8, 110u8, 116u8, 45u8, 76u8, 101u8, 110u8, 103u8, 116u8, 104u8, 58u8, 32u8]
}

/// The line end `\r\n`.
pub open spec fn crlf() -> Seq<u8> {
    seq![13u8, 10u8]
}

/// The decimal digits of `n`, most significant first, without a sign and
/// without leading zeros (`0` itself is the single digit `0`).
pub open spec fn dec_digits(n: nat) -> Seq<u8>
    decreases n,
{
    if n < 10 {
        seq![(48 + n) as u8]
    } else {
        dec_digits(n / 10) + seq![(48 + n % 10) as u8]
    }
}

/// Everything of the response before the body: status line, content-type
/// header for `ct`, content-encoding header when `gz`, content-length
/// header for `len`, and the empty line.
pub open spec fn spec_head(ct: Seq<u8>, gz: bool, len: nat) -> Seq<u8> {
    status_line() + ct_prefix() + ct + crlf() + (if gz {
        enc_header()
    } else {
        Seq::<u8>::empty()
    }) + cl_prefix() + dec_digits(len) + crlf() + crlf()
}

/// The full response for an asset: its head followed by the asset's bytes,
/// unchanged.
pub open spec fn spec_response(a: StaticAsset) -> Seq<u8> {
    spec_head(a.content_type@, a.gzipped, a.body@.len()) + a.body@
}

/// Appends every byte of `src` to `out`, in order.
pub fn push_all(out: &mut Vec<u8>, src: &[u8])
    ensures
        final(out)@ == old(out)@ + src@,
{
    let n = src.len();
    let mut i: usize = 0;
    while i < n
        invariant
            n == src@.len(),
            i <= n,
            out@ =~= old(out)@ + src@.subrange(0, i as int),
        decreases n - i,
    {
        out.push(src[i]);
        assert(src@.subrange(0, i + 1) =~= src@.subrange(0, i as int).push(src@[i as int]));
        i = i + 1;
    }
    assert(src@.subrange(0, n as int) =~= src@);
}

/// Appends the decimal digits of `n` to `out`.
pub fn push_dec(out: &mut Vec<u8>, n: u64)
    ensures
        final(out)@ == old(out)@ + dec_digits(n as nat),
    decreases n,
{
    if n >= 10 {
        push_dec(out, n / 10);
    }
    out.push(48 + (n % 10) as u8);
    assert(out@ =~= old(out)@ + dec_digits(n as nat));
}

fn push_status_line(out: &mut Vec<u8>)
    ensures
        final(out)@ == old(out)@ + status_line(),
{
    out.push(72);
    out.push(84);
    out.push(84);
    out.push(80);
    out.push(47);
    out.push(49);
    out.push(46);
    out.push(49);
    out.push(32);
    out.push(50);
    out.push(48);
    out.push(48);
    out.push(32);
    out.push(79);
    out.push(75);
    out.push(13);
    out.push(10);
    assert(out@ =~= old(out)@ + status_line());
}

fn push_ct_prefix(out: &mut Vec<u8>)
    ensures
        final(out)@ == old(out)@ + ct_prefix(),
{
    out.push(67);
    out.push(111);
    out.push(110);
    out.push(116);
    out.push(101);
    out.push(110);
    out.push(116);
    out.push(45);
    out.push(84);
    out.push(121);
    out.push(112);
    out.push(101);
    out.push(58);
    out.push(32);
    assert(out@ =~= old(out)@ + ct_prefix());
}

fn push_enc_header(out: &mut Vec<u8>)
    ensures
        final(out)@ == old(out)@ + enc_header(),
{
    out.push(67);
    out.push(111);
    out.push(110);
    out.push(116);
    out.push(101);
    out.push(110);
    out.push(116);
    out.push(45);
    out.push(69);
    out.push(110);
    out.push(99);
    out.push(111);
    out.push(100);
    out.push(105);
    out.push(110);
    out.push(103);
    out.push(58);
    out.push(32);
    out.push(103);
    out.push(122);
    out.push(105);
    out.push(112);
    out.push(13);
    out.push(10);
    assert(out@ =~= old(out)@ + enc_header());
}

fn push_cl_prefix(out: &mut Vec<u8>)
    ensures
        final(out)@ == old(out)@ + cl_prefix(),
{
    out.push(67);
    out.push(111);
    out.push(110);
    out.push(116);
    out.push(101);
    out.push(110);
    out.push(116);
    out.push(45);
    out.push(76);
    out.push(101);
    out.push(110);
    out.push(103);
    out.push(116);
    out.push(104);
    out.push(58);
    out.push(32);
    assert(out@ =~= old(out)@ + cl_prefix());
}

fn push_crlf(out: &mut Vec<u8>)
    ensures
        final(out)@ == old(out)@ + crlf(),
{
    out.push(13);
    out.push(10);
    assert(out@ =~= old(out)@ + crlf());
}

/// Builds the one response served for `a`, byte for byte.
pub fn build_response(a: &StaticAsset) -> (r: Vec<u8>)
    ensures
        r@ == spec_response(*a),
{
    let mut r: Vec<u8> = Vec::new();
    push_status_line(&mut r);
    push_ct_prefix(&mut r);
    push_all(&mut r, a.content_type.as_slice());
    push_crlf(&mut r);
    if a.gzipped {
        push_enc_header(&mut r);
    }
    push_cl_prefix(&mut r);
    push_dec(&mut r, a.body.len() as u64);
    push_crlf(&mut r);
    push_crlf(&mut r);
    push_all(&mut r, a.body.as_slice());
    assert(r@ =~= spec_response(*a));
    r
}

/// Law: every response opens with the success status line — the server
/// never answers a routed request with anything but `200 OK`.
pub proof fn lemma_response_starts_with_status(a: StaticAsset)
    ensures
        spec_response(a).subrange(0, 17) == status_line(),
{
    assert(spec_response(a).subrange(0, 17) =~= status_line());
}

/// Law: a response carries the asset's bytes unchanged — what follows the
/// head is exactly the body, so a reader that strips the head recovers the
/// baked-in bytes (and, for a gzip variant, decompressing them yields the
/// original asset wherever compressing it produced them).
pub proof fn lemma_response_body_is_asset(a: StaticAsset)
    ensures
        spec_response(a).skip(
            spec_head(a.content_type@, a.gzipped, a.body@.len()).len() as int,
        ) == a.body@,
{
    assert(spec_response(a).skip(
        spec_head(a.content_type@, a.gzipped, a.body@.len()).len() as int,
    ) =~= a.body@);
}

/// Law: the response head declares the asset's own content type — the bytes
/// right after the status line and the content-type header name are exactly
/// the asset's declared value.
pub proof fn lemma_response_declares_content_type(a: StaticAsset)
    ensures
        spec_response(a).subrange(31, 31 + a.content_type@.len() as int) == a.content_type@,
{
    assert(status_line().len() + ct_prefix().len() == 31);
    assert(spec_response(a).subrange(31, 31 + a.content_type@.len() as int)
        =~= a.content_type@);
}

} // verus!
