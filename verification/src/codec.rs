//! Canonical AAD encoding.
//!
//! The additional authenticated data of an envelope is the record
//! `{topic, tenant_id?, content_type?, key_version}`. Its canonical
//! byte form fixes the field order, omits absent optional fields, and
//! length-prefixes every byte-string value, so two records with the
//! same field values serialize to the same bytes in every
//! implementation. `decode` is the exact inverse of `canonicalize` and
//! rejects every byte string that no record canonicalizes to.
//!
//! Wire form, in order:
//! - `0x01`, four length bytes (LE), the topic bytes;
//! - if the tenant id is present: `0x02`, four length bytes, its bytes;
//! - if the content type is present: `0x03`, four length bytes, its bytes;
//! - `0x04`, the key version as four LE bytes.

use vstd::prelude::*;
use vstd::bytes::{
    lemma_auto_spec_u32_to_from_le_bytes, spec_u32_from_le_bytes, spec_u32_to_le_bytes,
    u32_from_le_bytes, u32_to_le_bytes,
};
use vstd::utf8::valid_utf8;
use crate::bytesutil::append_bytes;
use crate::errors::FabricError;
use crate::utf8check::is_valid_utf8;

verus! {

/// The mathematical value of an AAD record.
pub struct AadModel {
    pub topic: Seq<u8>,
    pub tenant_id: Option<Seq<u8>>,
    pub content_type: Option<Seq<u8>>,
    pub key_version: u32,
}

/// An AAD record as held by callers.
#[derive(Debug)]
pub struct AadRecord {
    pub topic: Vec<u8>,
    pub tenant_id: Option<Vec<u8>>,
    pub content_type: Option<Vec<u8>>,
    pub key_version: u32,
}

/// The mathematical value of an optional byte string.
pub open spec fn opt_bytes_view(o: Option<Vec<u8>>) -> Option<Seq<u8>> {
    match o {
        Option::Some(v) => Option::Some(v@),
        Option::None => Option::None,
    }
}

impl View for AadRecord {
    type V = AadModel;

    open spec fn view(&self) -> AadModel {
        AadModel {
            topic: self.topic@,
            tenant_id: opt_bytes_view(self.tenant_id),
            content_type: opt_bytes_view(self.content_type),
            key_version: self.key_version,
        }
    }
}

impl AadModel {
    /// Every byte-string field is UTF-8 and fits its four length bytes.
    pub open spec fn wf(self) -> bool {
        &&& self.topic.len() < 0x100000000
        &&& valid_utf8(self.topic)
        &&& (self.tenant_id matches Option::Some(t) ==> t.len() < 0x100000000 && valid_utf8(t))
        &&& (self.content_type matches Option::Some(c) ==> c.len() < 0x100000000 && valid_utf8(
            c,
        ))
    }
}

/// One tagged, length-prefixed field.
pub open spec fn canon_field(tag: u8, data: Seq<u8>) -> Seq<u8>
    recommends
        data.len() < 0x100000000,
{
    seq![tag] + spec_u32_to_le_bytes(data.len() as u32) + data
}

/// The canonical bytes of an optional field: empty when absent.
pub open spec fn canon_opt_field(tag: u8, data: Option<Seq<u8>>) -> Seq<u8> {
    match data {
        Option::Some(d) => canon_field(tag, d),
        Option::None => Seq::empty(),
    }
}

/// The canonical byte form of an AAD record.
pub open spec fn aad_canon(m: AadModel) -> Seq<u8>
    recommends
        m.wf(),
{
    canon_field(1, m.topic) + canon_opt_field(2, m.tenant_id) + canon_opt_field(
        3,
        m.content_type,
    ) + seq![4u8] + spec_u32_to_le_bytes(m.key_version)
}

/// The length field starting at `pos`, as a plain integer.
pub open spec fn read_len(s: Seq<u8>, pos: int) -> int
    recommends
        0 <= pos && pos + 4 <= s.len(),
{
    spec_u32_from_le_bytes(s.subrange(pos, pos + 4)) as int
}

/// Parse an optional tagged field at `pos`: `None` on malformed input,
/// otherwise the field value (or `None` when the tag does not match)
/// and the position after it.
pub open spec fn parse_opt_field(s: Seq<u8>, pos: int, tag: u8) -> Option<(Option<Seq<u8>>, int)>
    recommends
        0 <= pos <= s.len(),
{
    if pos < s.len() && s[pos] == tag {
        if pos + 5 <= s.len() {
            let l = read_len(s, pos + 1);
            if pos + 5 + l <= s.len() && valid_utf8(s.subrange(pos + 5, pos + 5 + l)) {
                Option::Some((Option::Some(s.subrange(pos + 5, pos + 5 + l)), pos + 5 + l))
            } else {
                Option::None
            }
        } else {
            Option::None
        }
    } else {
        Option::Some((Option::None, pos))
    }
}

/// Parse the closing key-version field, which must end the input.
pub open spec fn parse_tail(s: Seq<u8>, pos: int) -> Option<u32>
    recommends
        0 <= pos <= s.len(),
{
    if pos < s.len() && s[pos] == 4u8 && pos + 5 == s.len() {
        Option::Some(spec_u32_from_le_bytes(s.subrange(pos + 1, pos + 5)))
    } else {
        Option::None
    }
}

/// The record a canonical byte string denotes, or `None` when the bytes
/// are not the canonical form of any record.
pub open spec fn aad_decode(s: Seq<u8>) -> Option<AadModel> {
    if s.len() >= 5 && s[0] == 1u8 {
        let tlen = read_len(s, 1);
        if 5 + tlen <= s.len() && valid_utf8(s.subrange(5, 5 + tlen)) {
            let topic = s.subrange(5, 5 + tlen);
            match parse_opt_field(s, 5 + tlen, 2u8) {
                Option::Some((tenant_id, p2)) => match parse_opt_field(s, p2, 3u8) {
                    Option::Some((content_type, p3)) => match parse_tail(s, p3) {
                        Option::Some(kv) => Option::Some(
                            AadModel { topic, tenant_id, content_type, key_version: kv },
                        ),
                        Option::None => Option::None,
                    },
                    Option::None => Option::None,
                },
                Option::None => Option::None,
            }
        } else {
            Option::None
        }
    } else {
        Option::None
    }
}

/// Decoding inverts canonicalization: every well-formed record is
/// recovered exactly from its canonical bytes.
pub proof fn lemma_aad_round_trip(m: AadModel)
    requires
        m.wf(),
    ensures
        aad_decode(aad_canon(m)) == Option::Some(m),
{
    lemma_auto_spec_u32_to_from_le_bytes();
    let s = aad_canon(m);
    let a = canon_field(1, m.topic);
    let b = canon_opt_field(2, m.tenant_id);
    let c = canon_opt_field(3, m.content_type);
    let d = seq![4u8] + spec_u32_to_le_bytes(m.key_version);
    assert(s =~= a + b + c + d);
    assert(s == a + b + c + d);
    assert(a.len() == 5 + m.topic.len());
    assert(d.len() == 5);
    let p1 = a.len() as int;
    let p2 = p1 + b.len();
    let p3 = p2 + c.len();
    assert(s.len() == p3 + 5);
    assert(s[0] == 1u8);
    assert(s.subrange(1, 5) =~= spec_u32_to_le_bytes(m.topic.len() as u32));
    assert(read_len(s, 1) == m.topic.len());
    assert(s.subrange(5, 5 + m.topic.len() as int) =~= m.topic);
    // the optional tenant field
    match m.tenant_id {
        Option::Some(t) => {
            assert(b == canon_field(2, t));
            assert(s[p1] == b[0] == 2u8);
            assert(s.subrange(p1 + 1, p1 + 5) =~= spec_u32_to_le_bytes(t.len() as u32));
            assert(read_len(s, p1 + 1) == t.len());
            assert(s.subrange(p1 + 5, p1 + 5 + t.len() as int) =~= t);
            assert(parse_opt_field(s, p1, 2u8) == Option::Some((Option::Some(t), p2)));
        },
        Option::None => {
            assert(b.len() == 0);
            assert(p1 < s.len());
            match m.content_type {
                Option::Some(cv) => {
                    assert(s[p1] == c[0] == 3u8);
                },
                Option::None => {
                    assert(s[p1] == d[0] == 4u8);
                },
            }
            assert(s[p1] != 2u8);
            assert(parse_opt_field(s, p1, 2u8) == Option::Some((Option::None::<Seq<u8>>, p2)));
        },
    }
    // the optional content-type field
    match m.content_type {
        Option::Some(cv) => {
            assert(c == canon_field(3, cv));
            assert(s[p2] == c[0] == 3u8);
            assert(s.subrange(p2 + 1, p2 + 5) =~= spec_u32_to_le_bytes(cv.len() as u32));
            assert(read_len(s, p2 + 1) == cv.len());
            assert(s.subrange(p2 + 5, p2 + 5 + cv.len() as int) =~= cv);
            assert(parse_opt_field(s, p2, 3u8) == Option::Some((Option::Some(cv), p3)));
        },
        Option::None => {
            assert(c.len() == 0);
            assert(s[p2] == d[0] == 4u8);
            assert(s[p2] != 3u8);
            assert(parse_opt_field(s, p2, 3u8) == Option::Some((Option::None::<Seq<u8>>, p3)));
        },
    }
    // the closing key-version field
    assert(s[p3] == d[0] == 4u8);
    assert(s.subrange(p3 + 1, p3 + 5) =~= spec_u32_to_le_bytes(m.key_version));
    assert(parse_tail(s, p3) == Option::Some(m.key_version));
    assert(aad_decode(s) == Option::Some(m));
}

/// Decoding is sound: whatever it accepts is the canonical form of the
/// (well-formed) record it returns. No other byte string is accepted.
pub proof fn lemma_aad_decode_sound(s: Seq<u8>)
    requires
        aad_decode(s) is Some,
    ensures
        aad_decode(s)->Some_0.wf(),
        aad_canon(aad_decode(s)->Some_0) == s,
{
    lemma_auto_spec_u32_to_from_le_bytes();
    let m = aad_decode(s)->Some_0;
    let tlen = read_len(s, 1);
    let p1 = 5 + tlen;
    let r2 = parse_opt_field(s, p1, 2u8);
    let p2 = r2->Some_0.1;
    let r3 = parse_opt_field(s, p2, 3u8);
    let p3 = r3->Some_0.1;
    assert(m.topic == s.subrange(5, p1));
    assert(m.tenant_id == r2->Some_0.0);
    assert(m.content_type == r3->Some_0.0);
    assert(p3 + 5 == s.len());
    assert(m.wf());
    let a = canon_field(1, m.topic);
    let b = canon_opt_field(2, m.tenant_id);
    let c = canon_opt_field(3, m.content_type);
    let d = seq![4u8] + spec_u32_to_le_bytes(m.key_version);
    assert(spec_u32_to_le_bytes(m.topic.len() as u32) == s.subrange(1, 5));
    assert(a =~= s.subrange(0, p1));
    if s[p1] == 2u8 {
        let t = r2->Some_0.0->Some_0;
        assert(m.tenant_id == Option::Some(t));
        assert(t == s.subrange(p1 + 5, p2));
        assert(spec_u32_to_le_bytes(t.len() as u32) == s.subrange(p1 + 1, p1 + 5));
        assert(b =~= s.subrange(p1, p2));
    } else {
        assert(m.tenant_id is None);
        assert(b =~= s.subrange(p1, p2));
    }
    if s[p2] == 3u8 {
        let cv = r3->Some_0.0->Some_0;
        assert(m.content_type == Option::Some(cv));
        assert(cv == s.subrange(p2 + 5, p3));
        assert(spec_u32_to_le_bytes(cv.len() as u32) == s.subrange(p2 + 1, p2 + 5));
        assert(c =~= s.subrange(p2, p3));
    } else {
        assert(m.content_type is None);
        assert(c =~= s.subrange(p2, p3));
    }
    assert(spec_u32_to_le_bytes(m.key_version) == s.subrange(p3 + 1, p3 + 5));
    assert(d =~= s.subrange(p3, s.len() as int));
    assert(aad_canon(m) =~= s);
}

/// Canonicalization is injective: records with the same canonical bytes
/// have the same field values.
pub proof fn lemma_aad_canon_injective(m1: AadModel, m2: AadModel)
    requires
        m1.wf(),
        m2.wf(),
        aad_canon(m1) == aad_canon(m2),
    ensures
        m1 == m2,
{
    lemma_aad_round_trip(m1);
    lemma_aad_round_trip(m2);
}

/// Produce the canonical bytes of `record`.
///
/// Fails with `MalformedAad` exactly when a field is not UTF-8 or too
/// long for its four length bytes.
pub fn canonicalize(record: &AadRecord) -> (r: Result<Vec<u8>, FabricError>)
    ensures
        r is Ok <==> record@.wf(),
        r is Ok ==> r->Ok_0@ == aad_canon(record@),
        r is Err ==> r->Err_0 == FabricError::MalformedAad,
{
    if record.topic.len() as u64 >= 0x100000000u64 || !is_valid_utf8(&record.topic) {
        return Err(FabricError::MalformedAad);
    }
    match &record.tenant_id {
        Option::Some(t) => {
            if t.len() as u64 >= 0x100000000u64 || !is_valid_utf8(t) {
                return Err(FabricError::MalformedAad);
            }
        },
        Option::None => {},
    }
    match &record.content_type {
        Option::Some(c) => {
            if c.len() as u64 >= 0x100000000u64 || !is_valid_utf8(c) {
                return Err(FabricError::MalformedAad);
            }
        },
        Option::None => {},
    }
    let mut out: Vec<u8> = Vec::new();
    out.push(1u8);
    let tlen_bytes = u32_to_le_bytes(record.topic.len() as u32);
    append_bytes(&mut out, &tlen_bytes);
    append_bytes(&mut out, &record.topic);
    assert(out@ =~= canon_field(1, record@.topic));
    match &record.tenant_id {
        Option::Some(t) => {
            out.push(2u8);
            let len_bytes = u32_to_le_bytes(t.len() as u32);
            append_bytes(&mut out, &len_bytes);
            append_bytes(&mut out, t);
        },
        Option::None => {},
    }
    assert(out@ =~= canon_field(1, record@.topic) + canon_opt_field(2, record@.tenant_id));
    match &record.content_type {
        Option::Some(c) => {
            out.push(3u8);
            let len_bytes = u32_to_le_bytes(c.len() as u32);
            append_bytes(&mut out, &len_bytes);
            append_bytes(&mut out, c);
        },
        Option::None => {},
    }
    assert(out@ =~= canon_field(1, record@.topic) + canon_opt_field(2, record@.tenant_id)
        + canon_opt_field(3, record@.content_type));
    out.push(4u8);
    let kv_bytes = u32_to_le_bytes(record.key_version);
    append_bytes(&mut out, &kv_bytes);
    assert(out@ =~= aad_canon(record@));
    Ok(out)
}

/// Copy `v[from..to]` into a fresh vector.
fn subrange_vec(v: &Vec<u8>, from: usize, to: usize) -> (r: Vec<u8>)
    requires
        from <= to <= v@.len(),
    ensures
        r@ == v@.subrange(from as int, to as int),
{
    let mut out: Vec<u8> = Vec::new();
    let mut i: usize = from;
    while i < to
        invariant
            from <= i <= to <= v@.len(),
            out@ == v@.subrange(from as int, i as int),
        decreases to - i,
    {
        out.push(v[i]);
        i = i + 1;
        assert(v@.subrange(from as int, i as int) == v@.subrange(from as int, i - 1) + seq![
            v@[i - 1],
        ]);
    }
    out
}

/// Read the four-byte length field at `pos`.
fn read_len_field(bytes: &Vec<u8>, pos: usize) -> (r: u32)
    requires
        pos + 4 <= bytes@.len(),
    ensures
        r == spec_u32_from_le_bytes(bytes@.subrange(pos as int, pos as int + 4)),
        r == read_len(bytes@, pos as int),
{
    let n = bytes.len();
    assert(pos + 4 <= n);
    let quad = subrange_vec(bytes, pos, pos + 4);
    u32_from_le_bytes(quad.as_slice())
}

/// Decode canonical AAD bytes back into the record they denote.
///
/// Accepts exactly the byte strings `canonicalize` produces and returns
/// the record unchanged; everything else fails with `MalformedAad`.
pub fn decode(bytes: &Vec<u8>) -> (r: Result<AadRecord, FabricError>)
    ensures
        aad_decode(bytes@) is Some ==> r is Ok && r->Ok_0@ == aad_decode(bytes@)->Some_0,
        aad_decode(bytes@) is None ==> r is Err && r->Err_0 == FabricError::MalformedAad,
{
    let n = bytes.len();
    if n < 5 || bytes[0] != 1u8 {
        return Err(FabricError::MalformedAad);
    }
    let tlen = read_len_field(bytes, 1) as usize;
    if (5 as u64) + (tlen as u64) > n as u64 {
        return Err(FabricError::MalformedAad);
    }
    let topic = subrange_vec(bytes, 5, 5 + tlen);
    if !is_valid_utf8(&topic) {
        return Err(FabricError::MalformedAad);
    }
    let p1 = 5 + tlen;
    // optional tenant field
    let (tenant_id, p2): (Option<Vec<u8>>, usize) = if p1 < n && bytes[p1] == 2u8 {
        if (p1 as u64) + 5 > n as u64 {
            return Err(FabricError::MalformedAad);
        }
        let l = read_len_field(bytes, p1 + 1) as usize;
        if (p1 as u64) + 5 + (l as u64) > n as u64 {
            return Err(FabricError::MalformedAad);
        }
        let v = subrange_vec(bytes, p1 + 5, p1 + 5 + l);
        if !is_valid_utf8(&v) {
            return Err(FabricError::MalformedAad);
        }
        (Option::Some(v), p1 + 5 + l)
    } else {
        (Option::None, p1)
    };
    assert(parse_opt_field(bytes@, p1 as int, 2u8) == Option::Some(
        (
            match tenant_id {
                Option::Some(v) => Option::Some(v@),
                Option::None => Option::None::<Seq<u8>>,
            },
            p2 as int,
        ),
    ));
    // optional content-type field
    let (content_type, p3): (Option<Vec<u8>>, usize) = if p2 < n && bytes[p2] == 3u8 {
        if (p2 as u64) + 5 > n as u64 {
            return Err(FabricError::MalformedAad);
        }
        let l = read_len_field(bytes, p2 + 1) as usize;
        if (p2 as u64) + 5 + (l as u64) > n as u64 {
            return Err(FabricError::MalformedAad);
        }
        let v = subrange_vec(bytes, p2 + 5, p2 + 5 + l);
        if !is_valid_utf8(&v) {
            return Err(FabricError::MalformedAad);
        }
        (Option::Some(v), p2 + 5 + l)
    } else {
        (Option::None, p2)
    };
    assert(parse_opt_field(bytes@, p2 as int, 3u8) == Option::Some(
        (
            match content_type {
                Option::Some(v) => Option::Some(v@),
                Option::None => Option::None::<Seq<u8>>,
            },
            p3 as int,
        ),
    ));
    // closing key-version field
    if p3 >= n || bytes[p3] != 4u8 {
        return Err(FabricError::MalformedAad);
    }
    if (p3 as u64) + 5 != n as u64 {
        return Err(FabricError::MalformedAad);
    }
    let key_version = read_len_field(bytes, p3 + 1);
    assert(parse_tail(bytes@, p3 as int) == Option::Some(key_version));
    Ok(AadRecord { topic, tenant_id, content_type, key_version })
}

} // verus!
