//! Captured responses and their binary form.
//!
//! A captured response is a status code, an ordered list of header pairs
//! (duplicates kept in order and count) and the body bytes. Its binary form
//! is MessagePack as rmp-serde writes it: an array of the status, the array
//! of `[name, value]` pairs, and the body.

use vstd::prelude::*;
use crate::text::utf8_len;

verus! {

#[verifier::external_type_specification]
#[verifier::external_body]
pub struct ExEncodeError(rmp_serde::encode::Error);

#[verifier::external_type_specification]
#[verifier::external_body]
pub struct ExDecodeError(rmp_serde::decode::Error);

/// One response header: its name and its raw value bytes.
#[derive(Debug, PartialEq, Eq)]
pub struct HeaderPair {
    pub name: String,
    pub value: Vec<u8>,
}

impl View for HeaderPair {
    type V = (Seq<char>, Seq<u8>);

    open spec fn view(&self) -> (Seq<char>, Seq<u8>) {
        (self.name@, self.value@)
    }
}

/// The abstract value of a captured response.
pub struct ResponseView {
    pub status: u16,
    pub headers: Seq<(Seq<char>, Seq<u8>)>,
    pub body: Seq<u8>,
}

/// A response captured for exact replay. A status code of 0 stands for "no
/// response captured yet" and is never replayed.
#[derive(Debug, PartialEq, Eq)]
pub struct IdempotencyData {
    pub response_status_code: u16,
    pub response_headers: Vec<HeaderPair>,
    pub response_body: Vec<u8>,
}

pub open spec fn headers_view(h: Seq<HeaderPair>) -> Seq<(Seq<char>, Seq<u8>)> {
    h.map_values(|p: HeaderPair| p@)
}

impl View for IdempotencyData {
    type V = ResponseView;

    open spec fn view(&self) -> ResponseView {
        ResponseView {
            status: self.response_status_code,
            headers: headers_view(self.response_headers@),
            body: self.response_body@,
        }
    }
}

/// The plain value that the binary form carries.
pub type WireValue = (u16, Vec<(String, Vec<u8>)>, Vec<u8>);

/// The abstract value of a `WireValue`.
pub type WireView = (u16, Seq<(Seq<char>, Seq<u8>)>, Seq<u8>);

pub open spec fn pairs_view(p: Seq<(String, Vec<u8>)>) -> Seq<(Seq<char>, Seq<u8>)> {
    p.map_values(|x: (String, Vec<u8>)| (x.0@, x.1@))
}

pub open spec fn wire_view(w: WireValue) -> WireView {
    (w.0, pairs_view(w.1@), w.2@)
}

pub open spec fn to_wire(r: ResponseView) -> WireView {
    (r.status, r.headers, r.body)
}

pub open spec fn from_wire(w: WireView) -> ResponseView {
    ResponseView { status: w.0, headers: w.1, body: w.2 }
}

/// The MessagePack bytes that rmp-serde writes for a value.
pub uninterp spec fn msgpack_bytes(v: WireView) -> Seq<u8>;

/// The value that rmp-serde reads from bytes, if it reads one.
pub uninterp spec fn msgpack_value(b: Seq<u8>) -> Option<WireView>;

/// MessagePack writes lengths in 32 bits: every string, byte list and list
/// of the binary form must be shorter than this.
pub const WIRE_LEN_LIMIT: u64 = 0x1_0000_0000;

/// Whether every length in `w` fits the binary form.
pub open spec fn wire_fits(w: WireView) -> bool {
    &&& w.1.len() < WIRE_LEN_LIMIT
    &&& w.2.len() < WIRE_LEN_LIMIT
    &&& forall|i: int|
        0 <= i < w.1.len() ==> #[trigger] utf8_len(w.1[i].0) < WIRE_LEN_LIMIT && w.1[i].1.len()
            < WIRE_LEN_LIMIT
}

/// Relies on `rmp_serde::encode::write` into a `Vec<u8>`, whose writes never
/// fail: with every length below 2^32 it writes each length as it is and
/// returns `Ok`; the bytes depend on the value alone, and
/// `rmp_serde::from_slice` reads them back to the same value.
#[verifier::external_body]
fn msgpack_write(v: &WireValue) -> (r: Result<Vec<u8>, rmp_serde::encode::Error>)
    requires
        wire_fits(wire_view(*v)),
    ensures
        r is Ok,
        r matches Ok(b) ==> b@ == msgpack_bytes(wire_view(*v)),
        r matches Ok(b) ==> msgpack_value(b@) == Some(wire_view(*v)),
{
    let mut buf: Vec<u8> = Vec::new();
    rmp_serde::encode::write(&mut buf, v)?;
    Ok(buf)
}

/// Relies on `rmp_serde::from_slice`: whether it reads a value, and which,
/// depends on the bytes alone.
#[verifier::external_body]
fn msgpack_from_slice(b: &[u8]) -> (r: Result<WireValue, rmp_serde::decode::Error>)
    ensures
        r is Ok <==> msgpack_value(b@) is Some,
        r matches Ok(v) ==> msgpack_value(b@) == Some(wire_view(v)),
{
    rmp_serde::from_slice(b)
}

/// Whether a captured response can be written in the binary form.
pub open spec fn representable(r: ResponseView) -> bool {
    wire_fits(to_wire(r))
}

/// The binary form of a captured response.
pub open spec fn encoded(r: ResponseView) -> Seq<u8> {
    msgpack_bytes(to_wire(r))
}

/// The captured response that `b` holds, if it holds one.
pub open spec fn decoded(b: Seq<u8>) -> Option<ResponseView> {
    match msgpack_value(b) {
        Some(w) => Some(from_wire(w)),
        None => None,
    }
}

/// Why the binary form could not be written or read.
#[derive(Debug, Clone, Copy, PartialEq, Eq, Structural)]
pub enum CodecError {
    Encoding,
    Decoding,
}

/// A copy of a byte vector.
pub(crate) fn copy_bytes(v: &Vec<u8>) -> (r: Vec<u8>)
    ensures
        r@ == v@,
{
    let r = v.clone();
    assert(r@ =~= v@);
    r
}

impl HeaderPair {
    /// A copy of the pair.
    pub fn duplicate(&self) -> (r: HeaderPair)
        ensures
            r@ == self@,
    {
        HeaderPair { name: self.name.clone(), value: copy_bytes(&self.value) }
    }
}

impl IdempotencyData {
    /// A copy of the captured response.
    pub fn duplicate(&self) -> (r: IdempotencyData)
        ensures
            r@ == self@,
    {
        let mut headers: Vec<HeaderPair> = Vec::new();
        let mut i: usize = 0;
        while i < self.response_headers.len()
            invariant
                i <= self.response_headers@.len(),
                headers@.len() == i,
                forall|k: int| 0 <= k < i ==> headers@[k]@ == self.response_headers@[k]@,
            decreases self.response_headers@.len() - i,
        {
            headers.push(self.response_headers[i].duplicate());
            i = i + 1;
        }
        assert(headers_view(headers@) =~= headers_view(self.response_headers@));
        IdempotencyData {
            response_status_code: self.response_status_code,
            response_headers: headers,
            response_body: copy_bytes(&self.response_body),
        }
    }

    fn to_wire_value(&self) -> (r: WireValue)
        ensures
            wire_view(r) == to_wire(self@),
    {
        let mut pairs: Vec<(String, Vec<u8>)> = Vec::new();
        let mut i: usize = 0;
        while i < self.response_headers.len()
            invariant
                i <= self.response_headers@.len(),
                pairs@.len() == i,
                forall|k: int|
                    0 <= k < i ==> (pairs@[k].0@, pairs@[k].1@) == self.response_headers@[k]@,
            decreases self.response_headers@.len() - i,
        {
            let h = &self.response_headers[i];
            pairs.push((h.name.clone(), copy_bytes(&h.value)));
            i = i + 1;
        }
        assert(pairs_view(pairs@) =~= headers_view(self.response_headers@));
        (self.response_status_code, pairs, copy_bytes(&self.response_body))
    }

    fn from_wire_value(w: &WireValue) -> (r: IdempotencyData)
        ensures
            r@ == from_wire(wire_view(*w)),
    {
        let pairs = &w.1;
        let mut headers: Vec<HeaderPair> = Vec::new();
        let mut i: usize = 0;
        while i < pairs.len()
            invariant
                i <= pairs@.len(),
                headers@.len() == i,
                forall|k: int| 0 <= k < i ==> headers@[k]@ == (pairs@[k].0@, pairs@[k].1@),
            decreases pairs@.len() - i,
        {
            let p = &pairs[i];
            headers.push(HeaderPair { name: p.0.clone(), value: copy_bytes(&p.1) });
            i = i + 1;
        }
        assert(headers_view(headers@) =~= pairs_view(pairs@));
        IdempotencyData {
            response_status_code: w.0,
            response_headers: headers,
            response_body: copy_bytes(&w.2),
        }
    }

    /// Whether every length of the response fits the binary form.
    pub fn fits_wire(&self) -> (r: bool)
        ensures
            r == representable(self@),
    {
        if self.response_body.len() as u64 >= WIRE_LEN_LIMIT
            || self.response_headers.len() as u64 >= WIRE_LEN_LIMIT {
            return false;
        }
        let mut i: usize = 0;
        while i < self.response_headers.len()
            invariant
                i <= self.response_headers@.len(),
                forall|k: int|
                    0 <= k < i ==> #[trigger] utf8_len(self.response_headers@[k].name@)
                        < WIRE_LEN_LIMIT && self.response_headers@[k].value@.len()
                        < WIRE_LEN_LIMIT,
            decreases self.response_headers@.len() - i,
        {
            let h = &self.response_headers[i];
            if h.name.as_str().as_bytes().len() as u64 >= WIRE_LEN_LIMIT || h.value.len() as u64
                >= WIRE_LEN_LIMIT {
                let ghost w = to_wire(self@);
                assert(w.1[i as int] == h@);
                assert(!(utf8_len(w.1[i as int].0) < WIRE_LEN_LIMIT && w.1[i as int].1.len()
                    < WIRE_LEN_LIMIT));
                return false;
            }
            i = i + 1;
        }
        assert forall|k: int| 0 <= k < self.response_headers@.len() implies #[trigger] utf8_len(
            headers_view(self.response_headers@)[k].0,
        ) < WIRE_LEN_LIMIT && headers_view(self.response_headers@)[k].1.len() < WIRE_LEN_LIMIT by {
            assert(headers_view(self.response_headers@)[k] == self.response_headers@[k]@);
        }
        true
    }

    /// Writes the binary form, which exists exactly when every length fits
    /// (`representable`). The bytes are `encoded(self@)`, and `decode` reads
    /// them back to exactly this response.
    pub fn encode(&self) -> (r: Result<Vec<u8>, CodecError>)
        ensures
            r is Ok <==> representable(self@),
            r matches Ok(b) ==> b@ == encoded(self@),
            r matches Ok(b) ==> decoded(b@) == Some(self@),
            r matches Err(e) ==> e == CodecError::Encoding,
    {
        if !self.fits_wire() {
            return Err(CodecError::Encoding);
        }
        let w = self.to_wire_value();
        match msgpack_write(&w) {
            Ok(b) => Ok(b),
            Err(_) => Err(CodecError::Encoding),
        }
    }

    /// Reads a captured response from its binary form.
    pub fn decode(bytes: &[u8]) -> (r: Result<IdempotencyData, CodecError>)
        ensures
            r is Ok <==> decoded(bytes@) is Some,
            r matches Ok(d) ==> Some(d@) == decoded(bytes@),
            r matches Err(e) ==> e == CodecError::Decoding,
    {
        match msgpack_from_slice(bytes) {
            Ok(w) => Ok(IdempotencyData::from_wire_value(&w)),
            Err(_) => Err(CodecError::Decoding),
        }
    }
}

} // verus!
