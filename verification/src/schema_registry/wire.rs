//! The wire format of a record that carries a schema identifier: one zero
//! byte, the identifier as four big-endian bytes, then the encoded message.

use byteorder::{BigEndian, ByteOrder};
use vstd::prelude::*;
use vstd::slice::{slice_subrange, slice_to_vec};

verus! {

/// What the bytes of a record's key or value turned out to be.
#[derive(Debug)]
pub enum BytesResult {
    /// There were no bytes at all.
    Null,
    /// The bytes do not start with a header; they are handed back whole.
    Invalid(Vec<u8>),
    /// A header with this schema identifier, followed by these message bytes,
    /// of which there is at least one.
    Valid(u32, Vec<u8>),
}

/// The mathematical content of a [`BytesResult`].
pub enum BytesResultView {
    Null,
    Invalid(Seq<u8>),
    Valid(u32, Seq<u8>),
}

impl View for BytesResult {
    type V = BytesResultView;

    open spec fn view(&self) -> BytesResultView {
        match self {
            BytesResult::Null => BytesResultView::Null,
            BytesResult::Invalid(raw) => BytesResultView::Invalid(raw@),
            BytesResult::Valid(id, payload) => BytesResultView::Valid(*id, payload@),
        }
    }
}

/// The number that the first four bytes of `bytes` spell, most significant
/// byte first.
pub open spec fn big_endian_u32(bytes: Seq<u8>) -> int
    recommends
        bytes.len() >= 4,
{
    bytes[0] * 0x100_0000 + bytes[1] * 0x1_0000 + bytes[2] * 0x100 + bytes[3]
}

/// The four bytes that spell `n`, most significant byte first.
pub open spec fn big_endian_bytes(n: u32) -> Seq<u8> {
    seq![
        (n / 0x100_0000) as u8,
        ((n / 0x1_0000) % 0x100) as u8,
        ((n / 0x100) % 0x100) as u8,
        (n % 0x100) as u8,
    ]
}

/// Whether `bytes` starts with a header that a message follows: the zero
/// byte, the four identifier bytes, and at least one byte more. A header with
/// nothing behind it does not count.
pub open spec fn has_header(bytes: Seq<u8>) -> bool {
    bytes.len() > 5 && bytes[0] == 0
}

/// What [`get_bytes_result`] makes of a record's bytes.
pub open spec fn bytes_result_of(bytes: Option<Seq<u8>>) -> BytesResultView {
    match bytes {
        None => BytesResultView::Null,
        Some(p) => if has_header(p) {
            BytesResultView::Valid(big_endian_u32(p.subrange(1, 5)) as u32, p.skip(5))
        } else {
            BytesResultView::Invalid(p)
        },
    }
}

/// The bytes that [`get_payload`] builds: header, then message.
pub open spec fn payload_of(id: u32, encoded_bytes: Seq<u8>) -> Seq<u8> {
    seq![0u8] + big_endian_bytes(id) + encoded_bytes
}

/// Calls `byteorder::BigEndian::read_u32`, which reads the first four bytes of
/// `buf` as a big-endian number and panics on a shorter slice. The contract
/// claims exactly that number.
#[verifier::external_body]
fn read_u32_big_endian(buf: &[u8]) -> (value: u32)
    requires
        buf@.len() >= 4,
    ensures
        value == big_endian_u32(buf@),
{
    BigEndian::read_u32(buf)
}

/// Calls `byteorder::BigEndian::write_u32` on a fresh buffer of four bytes,
/// which it fills with the big-endian bytes of `n`. The contract claims
/// exactly those bytes.
#[verifier::external_body]
fn u32_big_endian_bytes(n: u32) -> (bytes: [u8; 4])
    ensures
        bytes@ == big_endian_bytes(n),
{
    let mut buf = [0u8; 4];
    BigEndian::write_u32(&mut buf, n);
    buf
}

/// Analyses the bytes of the key or value of a record. With a header and a
/// message behind it they are valid, and the identifier and the message bytes
/// are returned; else they are returned unchanged as invalid, also where the
/// header is there and the message is empty.
pub fn get_bytes_result(bytes: Option<&[u8]>) -> (result: BytesResult)
    ensures
        result@ == bytes_result_of(
            match bytes {
                Some(p) => Some(p@),
                None => None,
            },
        ),
{
    match bytes {
        None => BytesResult::Null,
        Some(p) => {
            if p.len() > 5 && p[0] == 0 {
                let id = read_u32_big_endian(slice_subrange(p, 1, 5));
                let message = slice_to_vec(slice_subrange(p, 5, p.len()));
                BytesResult::Valid(id, message)
            } else {
                BytesResult::Invalid(slice_to_vec(p))
            }
        },
    }
}

/// Creates the bytes that can be used as key or value of a record: the header
/// for `id`, followed by the encoded message.
pub fn get_payload(id: u32, encoded_bytes: Vec<u8>) -> (payload: Vec<u8>)
    ensures
        payload@ == payload_of(id, encoded_bytes@),
{
    let mut payload: Vec<u8> = Vec::new();
    payload.push(0u8);
    let id_bytes = u32_big_endian_bytes(id);
    payload.extend_from_slice(id_bytes.as_slice());
    payload.extend_from_slice(encoded_bytes.as_slice());
    payload
}

/// Reading back the four bytes written for a number gives that number.
pub proof fn lemma_big_endian_round_trip(n: u32)
    ensures
        big_endian_u32(big_endian_bytes(n)) == n,
{
    let written = big_endian_bytes(n);
    assert(written[0] == n / 0x100_0000);
    assert(written[1] == (n / 0x1_0000) % 0x100);
    assert(written[2] == (n / 0x100) % 0x100);
    assert(written[3] == n % 0x100);
}

/// Writing the number that four bytes spell gives those four bytes again.
pub proof fn lemma_big_endian_bytes_of_value(bytes: Seq<u8>)
    requires
        bytes.len() == 4,
    ensures
        0 <= big_endian_u32(bytes) <= u32::MAX,
        big_endian_bytes(big_endian_u32(bytes) as u32) == bytes,
{
    let n = big_endian_u32(bytes);
    assert(n / 0x100_0000 == bytes[0]);
    assert((n / 0x1_0000) % 0x100 == bytes[1]);
    assert((n / 0x100) % 0x100 == bytes[2]);
    assert(n % 0x100 == bytes[3]);
    assert(big_endian_bytes(n as u32) =~= bytes);
}

/// Framing and unframing are inverse to each other: the bytes built for an
/// identifier and a message that is not empty are valid and give back that
/// identifier and that message. The bytes built for an empty message are a
/// header alone, which is invalid.
pub proof fn lemma_payload_round_trip(id: u32, encoded_bytes: Seq<u8>)
    ensures
        encoded_bytes.len() > 0 ==> bytes_result_of(Some(payload_of(id, encoded_bytes)))
            == BytesResultView::Valid(id, encoded_bytes),
        encoded_bytes.len() == 0 ==> bytes_result_of(Some(payload_of(id, encoded_bytes)))
            == BytesResultView::Invalid(payload_of(id, encoded_bytes)),
{
    let framed = payload_of(id, encoded_bytes);
    assert(framed.skip(5) =~= encoded_bytes);
    lemma_big_endian_round_trip(id);
}

/// More than five bytes of which the first is zero are valid, with the
/// identifier that bytes one to four spell and the rest as the message; all
/// other bytes are invalid and kept whole, among them all of four bytes or
/// fewer; no bytes give `Null`.
pub proof fn lemma_bytes_result_cases(p: Seq<u8>)
    ensures
        bytes_result_of(None) == BytesResultView::Null,
        p.len() > 4 ==> 0 <= big_endian_u32(p.subrange(1, 5)) <= u32::MAX,
        p.len() > 5 && p[0] == 0 ==> bytes_result_of(Some(p)) == BytesResultView::Valid(
            big_endian_u32(p.subrange(1, 5)) as u32,
            p.skip(5),
        ),
        !(p.len() > 5 && p[0] == 0) ==> bytes_result_of(Some(p)) == BytesResultView::Invalid(p),
        p.len() <= 4 ==> bytes_result_of(Some(p)) == BytesResultView::Invalid(p),
{
}

} // verus!
