//! Protobuf wire-format reading for Rithmic frames.
//!
//! Every Rithmic message carries a `template_id` field that tells which
//! message it is, and most responses carry the `user_msg`,
//! `rq_handler_rp_code` and `rp_code` string lists. This module reads those
//! fields out of an encoded message with the field readers of `prost`, and
//! skips every other field the way `prost` skips unknown fields.

use vstd::prelude::*;
use prost::encoding::{DecodeContext, WireType};
use prost::DecodeError;
use vstd::utf8::{valid_utf8, decode_utf8};

verus! {

#[verifier::external_type_specification]
#[verifier::external_body]
pub struct ExDecodeError(DecodeError);

/// Position just past the first byte below `0x80` among the first ten bytes
/// of `b`, starting the search at index `i`; a terminator at index 9 must be
/// `0` or `1`, or the encoded value would not fit in 64 bits.
pub open spec fn varint_end(b: Seq<u8>, i: nat) -> Option<nat>
    decreases 10 - i,
{
    if i >= 10 || i >= b.len() {
        None
    } else if b[i as int] < 128 {
        if i == 9 && b[i as int] >= 2 {
            None
        } else {
            Some(i + 1)
        }
    } else {
        varint_end(b, i + 1)
    }
}

/// Value of the little-endian base-128 digits `b[0..n]`.
pub open spec fn varint_value(b: Seq<u8>, n: nat) -> nat
    decreases n,
{
    if n == 0 {
        0
    } else {
        (b[0] % 128) as nat + 128 * varint_value(b.drop_first(), (n - 1) as nat)
    }
}

/// A LEB128 varint at the start of `b`: its value and its length in bytes.
#[verifier::opaque]
pub open spec fn spec_varint(b: Seq<u8>) -> Option<(nat, nat)> {
    match varint_end(b, 0) {
        Some(n) => Some((varint_value(b, n), n)),
        None => None,
    }
}

pub proof fn lemma_varint_end_bounds(b: Seq<u8>, i: nat)
    ensures
        varint_end(b, i) matches Some(n) ==> i < n && n <= b.len() && n <= 10,
    decreases 10 - i,
{
    if i < 10 && i < b.len() && b[i as int] >= 128 {
        lemma_varint_end_bounds(b, i + 1);
    }
}

/// A field key at the start of `b`: its tag, its wire type and its length.
pub open spec fn spec_key(b: Seq<u8>) -> Option<(u32, u8, nat)> {
    match spec_varint(b) {
        Some((k, n)) => if k <= u32::MAX && k % 8 <= 5 && k / 8 >= 1 {
            Some(((k / 8) as u32, (k % 8) as u8, n))
        } else {
            None
        },
        None => None,
    }
}

/// Reads a field key at `buf[pos..]` with `prost::encoding::decode_key`.
///
/// The contract claims that `decode_key` reads a varint as `decode_varint`
/// does (at most ten bytes, the tenth below `2`), refuses a key above
/// `u32::MAX`, a wire type above `5` and tag `0`, and returns the tag
/// (`key >> 3`) and the wire type (`key & 7`); the result also gives how
/// many bytes are left after the key.
#[verifier::external_body]
fn read_key(buf: &[u8], pos: usize) -> (r: Result<(u32, u8, usize), DecodeError>)
    requires
        pos <= buf@.len(),
    ensures
        r is Ok <==> spec_key(buf@.skip(pos as int)) is Some,
        r matches Ok((tag, wt, rest)) ==> spec_key(buf@.skip(pos as int)) matches Some((t, w, n))
            && tag == t && wt == w && pos + n + rest == buf@.len(),
{
    let mut rest: &[u8] = &buf[pos..];
    match prost::encoding::decode_key(&mut rest) {
        Ok((tag, wire_type)) => Ok((tag, wire_type as u8, rest.len())),
        Err(e) => Err(e),
    }
}

/// A field value read by `prost::encoding::int32::merge`: the varint,
/// truncated to 32 bits, and its length.
pub open spec fn spec_int32(wt: u8, b: Seq<u8>) -> Option<(i32, nat)> {
    if wt == 0 {
        match spec_varint(b) {
            Some((v, n)) => Some(((v as u64) as i32, n)),
            None => None,
        }
    } else {
        None
    }
}

/// A field value read by `prost::encoding::string::merge`: a length, then
/// that many bytes of UTF-8 text.
pub open spec fn spec_string(wt: u8, b: Seq<u8>) -> Option<(Seq<char>, nat)> {
    if wt == 2 {
        match spec_varint(b) {
            Some((l, n)) => if n + l <= b.len() && valid_utf8(b.subrange(n as int, (n + l) as int)) {
                Some((decode_utf8(b.subrange(n as int, (n + l) as int)), n + l))
            } else {
                None
            },
            None => None,
        }
    } else {
        None
    }
}

/// How many bytes `prost::encoding::skip_field` consumes when it skips a
/// group with the given tag at the start of `b`, or `None` where it fails.
pub uninterp spec fn prost_group_skip(tag: u32, b: Seq<u8>) -> Option<nat>;

/// How many bytes `prost::encoding::skip_field` consumes to skip a field of
/// the given wire type at the start of `b`.
pub open spec fn spec_skip(wt: u8, tag: u32, b: Seq<u8>) -> Option<nat> {
    if wt == 0 {
        match spec_varint(b) {
            Some((_v, n)) => Some(n),
            None => None,
        }
    } else if wt == 1 {
        if b.len() >= 8 { Some(8) } else { None }
    } else if wt == 2 {
        match spec_varint(b) {
            Some((l, n)) => if n + l <= b.len() { Some(n + l) } else { None },
            None => None,
        }
    } else if wt == 3 {
        match prost_group_skip(tag, b) {
            Some(m) => if m <= b.len() { Some(m) } else { None },
            None => None,
        }
    } else if wt == 5 {
        if b.len() >= 4 { Some(4) } else { None }
    } else {
        None
    }
}

/// Reads an `int32` field value at `buf[pos..]` with
/// `prost::encoding::int32::merge`.
///
/// The contract claims that `int32::merge` accepts only the varint wire type,
/// reads one varint as `decode_varint` does and keeps its low 32 bits.
#[verifier::external_body]
fn read_int32(wire_type: u8, buf: &[u8], pos: usize) -> (r: Result<(i32, usize), DecodeError>)
    requires
        wire_type <= 5,
        pos <= buf@.len(),
    ensures
        r is Ok <==> spec_int32(wire_type, buf@.skip(pos as int)) is Some,
        r matches Ok((v, rest)) ==> spec_int32(wire_type, buf@.skip(pos as int)) matches Some((
            w,
            n,
        )) && v == w && pos + n + rest == buf@.len(),
{
    let wire_type = WireType::try_from(u64::from(wire_type))?;
    let mut value: i32 = 0;
    let mut rest: &[u8] = &buf[pos..];
    match prost::encoding::int32::merge(wire_type, &mut value, &mut rest, DecodeContext::default()) {
        Ok(()) => Ok((value, rest.len())),
        Err(e) => Err(e),
    }
}

/// Reads a `string` field value at `buf[pos..]` with
/// `prost::encoding::string::merge`.
///
/// The contract claims that `string::merge` accepts only the length-delimited
/// wire type, reads the length as `decode_varint` does, refuses a length
/// beyond the buffer and bytes that are not UTF-8, and otherwise yields the
/// decoded text of those bytes.
#[verifier::external_body]
fn read_string(wire_type: u8, buf: &[u8], pos: usize) -> (r: Result<(String, usize), DecodeError>)
    requires
        wire_type <= 5,
        pos <= buf@.len(),
    ensures
        r is Ok <==> spec_string(wire_type, buf@.skip(pos as int)) is Some,
        r matches Ok((s, rest)) ==> spec_string(wire_type, buf@.skip(pos as int)) matches Some((
            t,
            n,
        )) && s@ == t && pos + n + rest == buf@.len(),
{
    let wire_type = WireType::try_from(u64::from(wire_type))?;
    let mut value = String::new();
    let mut rest: &[u8] = &buf[pos..];
    match prost::encoding::string::merge(wire_type, &mut value, &mut rest, DecodeContext::default()) {
        Ok(()) => Ok((value, rest.len())),
        Err(e) => Err(e),
    }
}

/// Skips a field at `buf[pos..]` with `prost::encoding::skip_field`.
///
/// The contract claims that `skip_field` consumes one varint for the varint
/// wire type, eight and four bytes for the fixed-width types, a length and
/// that many bytes for the length-delimited type, fails where the buffer is
/// too short, fails on an end-group key, and consumes as many bytes as
/// `prost_group_skip` names for a group.
#[verifier::external_body]
fn skip_value(wire_type: u8, tag: u32, buf: &[u8], pos: usize) -> (r: Result<usize, DecodeError>)
    requires
        wire_type <= 5,
        pos <= buf@.len(),
    ensures
        r is Ok <==> spec_skip(wire_type, tag, buf@.skip(pos as int)) is Some,
        r matches Ok(rest) ==> spec_skip(wire_type, tag, buf@.skip(pos as int)) matches Some(m)
            && pos + m + rest == buf@.len(),
        wire_type == 3 && r is Ok ==> prost_group_skip(tag, buf@.skip(pos as int)) == Some(
            (buf@.len() - pos - r->Ok_0) as nat,
        ),
{
    let wire_type = WireType::try_from(u64::from(wire_type))?;
    let mut rest: &[u8] = &buf[pos..];
    match prost::encoding::skip_field(wire_type, tag, &mut rest, DecodeContext::default()) {
        Ok(()) => Ok(rest.len()),
        Err(e) => Err(e),
    }
}

/// Field number of `template_id`, which every Rithmic message carries.
pub const TEMPLATE_ID_FIELD: u32 = 154467;
/// Field number of `user_msg`, the strings a request carries back in its response.
pub const USER_MSG_FIELD: u32 = 132760;
/// Field number of `rq_handler_rp_code`, which tells whether more responses follow.
pub const RQ_HANDLER_RP_CODE_FIELD: u32 = 132764;
/// Field number of `rp_code`, the response code and its description.
pub const RP_CODE_FIELD: u32 = 132766;

/// The fields of a Rithmic message that the client reads, as values.
#[verifier::ext_equal]
pub struct EnvelopeView {
    pub template_id: i32,
    pub user_msg: Seq<Seq<char>>,
    pub rq_handler_rp_code: Seq<Seq<char>>,
    pub rp_code: Seq<Seq<char>>,
}

/// The envelope of a message with no field set.
pub open spec fn empty_envelope() -> EnvelopeView {
    EnvelopeView {
        template_id: 0,
        user_msg: Seq::empty(),
        rq_handler_rp_code: Seq::empty(),
        rp_code: Seq::empty(),
    }
}

/// The views of a list of strings.
pub open spec fn strings_view(v: Seq<String>) -> Seq<Seq<char>> {
    v.map_values(|s: String| s@)
}

/// The fields of a Rithmic message that the client reads.
#[derive(Debug, Clone)]
pub struct MessageEnvelope {
    pub template_id: i32,
    pub user_msg: Vec<String>,
    pub rq_handler_rp_code: Vec<String>,
    pub rp_code: Vec<String>,
}

impl View for MessageEnvelope {
    type V = EnvelopeView;

    open spec fn view(&self) -> EnvelopeView {
        EnvelopeView {
            template_id: self.template_id,
            user_msg: strings_view(self.user_msg@),
            rq_handler_rp_code: strings_view(self.rq_handler_rp_code@),
            rp_code: strings_view(self.rp_code@),
        }
    }
}

/// The envelope after a string value has been read for field `tag`.
pub open spec fn with_string(acc: EnvelopeView, tag: u32, s: Seq<char>) -> EnvelopeView {
    if tag == USER_MSG_FIELD {
        EnvelopeView { user_msg: acc.user_msg.push(s), ..acc }
    } else if tag == RQ_HANDLER_RP_CODE_FIELD {
        EnvelopeView { rq_handler_rp_code: acc.rq_handler_rp_code.push(s), ..acc }
    } else {
        EnvelopeView { rp_code: acc.rp_code.push(s), ..acc }
    }
}

/// Whether field `tag` is read as a string: the string fields of the
/// envelope, when the whole envelope is wanted.
pub open spec fn is_string_field(tag: u32, full: bool) -> bool {
    full && (tag == USER_MSG_FIELD || tag == RQ_HANDLER_RP_CODE_FIELD || tag == RP_CODE_FIELD)
}

/// Reads the fields of the encoded message `b` into `acc`, field after field,
/// as a `prost` message decoder does: `template_id` is read as an `int32`,
/// the string fields as strings when `full` holds, and every other field is
/// skipped. `None` where a field cannot be read.
pub open spec fn scan_fields(b: Seq<u8>, acc: EnvelopeView, full: bool) -> Option<EnvelopeView>
    decreases b.len(),
    via scan_fields_decreases
{
    if b.len() == 0 {
        Some(acc)
    } else {
        match spec_key(b) {
            None => None,
            Some((tag, wt, n)) => {
                let rest = b.skip(n as int);
                if tag == TEMPLATE_ID_FIELD {
                    match spec_int32(wt, rest) {
                        Some((v, m)) => scan_fields(
                            rest.skip(m as int),
                            EnvelopeView { template_id: v, ..acc },
                            full,
                        ),
                        None => None,
                    }
                } else if is_string_field(tag, full) {
                    match spec_string(wt, rest) {
                        Some((s, m)) => scan_fields(rest.skip(m as int), with_string(acc, tag, s), full),
                        None => None,
                    }
                } else {
                    match spec_skip(wt, tag, rest) {
                        Some(m) => scan_fields(rest.skip(m as int), acc, full),
                        None => None,
                    }
                }
            },
        }
    }
}

pub proof fn lemma_key_len(b: Seq<u8>)
    ensures
        spec_key(b) matches Some((_t, _w, n)) ==> 1 <= n <= b.len(),
{
    reveal(spec_varint);
    lemma_varint_end_bounds(b, 0);
}

pub proof fn lemma_varint_len(b: Seq<u8>)
    ensures
        spec_varint(b) matches Some((_v, n)) ==> 1 <= n <= b.len(),
{
    reveal(spec_varint);
    lemma_varint_end_bounds(b, 0);
}

#[via_fn]
proof fn scan_fields_decreases(b: Seq<u8>, acc: EnvelopeView, full: bool) {
    lemma_key_len(b);
    if let Some((tag, wt, n)) = spec_key(b) {
        let rest = b.skip(n as int);
        lemma_varint_len(rest);
    }
}

/// Reads one field of the encoded message at `buf[pos..]` into `env` and
/// returns the position just past it.
fn read_field(buf: &[u8], pos: usize, env: &mut MessageEnvelope, full: bool) -> (r: Result<
    usize,
    DecodeError,
>)
    requires
        pos < buf@.len(),
    ensures
        r matches Ok(next) ==> pos < next <= buf@.len() && scan_fields(
            buf@.skip(pos as int),
            old(env)@,
            full,
        ) == scan_fields(buf@.skip(next as int), final(env)@, full),
        r is Err ==> scan_fields(buf@.skip(pos as int), old(env)@, full) is None,
{
    let ghost b = buf@.skip(pos as int);
    proof {
        lemma_key_len(b);
    }
    let (tag, wt, rest) = read_key(buf, pos)?;
    let key_end = buf.len() - rest;
    let ghost after_key = buf@.skip(key_end as int);
    proof {
        assert(b.skip((key_end - pos) as int) =~= after_key);
        lemma_varint_len(after_key);
    }
    if tag == TEMPLATE_ID_FIELD {
        let (v, rest2) = read_int32(wt, buf, key_end)?;
        let next = buf.len() - rest2;
        proof {
            assert(after_key.skip((next - key_end) as int) =~= buf@.skip(next as int));
        }
        env.template_id = v;
        Ok(next)
    } else if full && (tag == USER_MSG_FIELD || tag == RQ_HANDLER_RP_CODE_FIELD || tag
        == RP_CODE_FIELD) {
        let (s, rest2) = read_string(wt, buf, key_end)?;
        let next = buf.len() - rest2;
        proof {
            assert(after_key.skip((next - key_end) as int) =~= buf@.skip(next as int));
        }
        let ghost old_env = env@;
        if tag == USER_MSG_FIELD {
            env.user_msg.push(s);
        } else if tag == RQ_HANDLER_RP_CODE_FIELD {
            env.rq_handler_rp_code.push(s);
        } else {
            env.rp_code.push(s);
        }
        proof {
            assert(env@ =~= with_string(old_env, tag, s@));
        }
        Ok(next)
    } else {
        let rest2 = skip_value(wt, tag, buf, key_end)?;
        let next = buf.len() - rest2;
        proof {
            assert(after_key.skip((next - key_end) as int) =~= buf@.skip(next as int));
        }
        Ok(next)
    }
}

/// Reads the envelope of the encoded message `buf[start..]`; the string
/// fields are read only when `full` holds.
pub fn decode_envelope(buf: &[u8], start: usize, full: bool) -> (r: Result<MessageEnvelope, DecodeError>)
    requires
        start <= buf@.len(),
    ensures
        r is Ok <==> scan_fields(buf@.skip(start as int), empty_envelope(), full) is Some,
        r matches Ok(e) ==> Some(e@) == scan_fields(buf@.skip(start as int), empty_envelope(), full),
{
    let mut env = MessageEnvelope {
        template_id: 0,
        user_msg: Vec::new(),
        rq_handler_rp_code: Vec::new(),
        rp_code: Vec::new(),
    };
    let mut pos = start;
    proof {
        assert(env@ =~= empty_envelope());
    }
    while pos < buf.len()
        invariant
            start <= pos <= buf@.len(),
            scan_fields(buf@.skip(pos as int), env@, full) == scan_fields(
                buf@.skip(start as int),
                empty_envelope(),
                full,
            ),
        decreases buf@.len() - pos,
    {
        pos = read_field(buf, pos, &mut env, full)?;
    }
    proof {
        assert(buf@.skip(pos as int).len() == 0);
    }
    Ok(env)
}

/// The envelope `a` with its string lists emptied.
pub open spec fn without_strings(a: EnvelopeView) -> EnvelopeView {
    EnvelopeView { template_id: a.template_id, ..empty_envelope() }
}

/// Reading a string field appends its text to the list of that field and
/// leaves the other fields alone, whatever was read before.
pub proof fn lemma_string_field_appended(b: Seq<u8>, acc: EnvelopeView)
    ensures
        spec_key(b) matches Some((tag, wt, n)) ==> (spec_string(wt, b.skip(n as int)) matches Some(
            (s, m),
        ) ==> {
            let rest = b.skip(n as int).skip(m as int);
            &&& tag == USER_MSG_FIELD ==> scan_fields(b, acc, true) == scan_fields(
                rest,
                EnvelopeView { user_msg: acc.user_msg.push(s), ..acc },
                true,
            )
            &&& tag == RQ_HANDLER_RP_CODE_FIELD ==> scan_fields(b, acc, true) == scan_fields(
                rest,
                EnvelopeView { rq_handler_rp_code: acc.rq_handler_rp_code.push(s), ..acc },
                true,
            )
            &&& tag == RP_CODE_FIELD ==> scan_fields(b, acc, true) == scan_fields(
                rest,
                EnvelopeView { rp_code: acc.rp_code.push(s), ..acc },
                true,
            )
        }),
{
    lemma_key_len(b);
    if let Some((tag, wt, n)) = spec_key(b) {
        if let Some((s, m)) = spec_string(wt, b.skip(n as int)) {
            let rest = b.skip(n as int).skip(m as int);
            if tag == USER_MSG_FIELD {
                assert(with_string(acc, tag, s) =~= EnvelopeView { user_msg: acc.user_msg.push(s), ..acc });
            } else if tag == RQ_HANDLER_RP_CODE_FIELD {
                assert(with_string(acc, tag, s) =~= EnvelopeView {
                    rq_handler_rp_code: acc.rq_handler_rp_code.push(s),
                    ..acc
                });
            } else if tag == RP_CODE_FIELD {
                assert(with_string(acc, tag, s) =~= EnvelopeView { rp_code: acc.rp_code.push(s), ..acc });
            }
        }
    }
}

/// What a message contributes to the string lists does not depend on what
/// was read before: reading it after `a` gives `a`'s lists followed by the
/// lists that reading it alone gives, every occurrence of a string field in
/// order, and the same template id; and reading succeeds either way or
/// fails either way.
pub proof fn lemma_string_lists_extend(b: Seq<u8>, a: EnvelopeView, full: bool)
    ensures
        scan_fields(b, a, full) is Some <==> scan_fields(b, without_strings(a), full) is Some,
        scan_fields(b, a, full) matches Some(e) ==> {
            let c = scan_fields(b, without_strings(a), full)->Some_0;
            &&& e.template_id == c.template_id
            &&& e.user_msg == a.user_msg + c.user_msg
            &&& e.rq_handler_rp_code == a.rq_handler_rp_code + c.rq_handler_rp_code
            &&& e.rp_code == a.rp_code + c.rp_code
        },
    decreases b.len(),
{
    let w = without_strings(a);
    if b.len() == 0 {
        assert(a.user_msg + w.user_msg =~= a.user_msg);
        assert(a.rq_handler_rp_code + w.rq_handler_rp_code =~= a.rq_handler_rp_code);
        assert(a.rp_code + w.rp_code =~= a.rp_code);
        return;
    }
    lemma_key_len(b);
    if let Some((tag, wt, n)) = spec_key(b) {
        let rest = b.skip(n as int);
        lemma_varint_len(rest);
        if tag == TEMPLATE_ID_FIELD {
            if let Some((v, m)) = spec_int32(wt, rest) {
                let a2 = EnvelopeView { template_id: v, ..a };
                let w2 = EnvelopeView { template_id: v, ..w };
                assert(without_strings(a2) =~= w2);
                lemma_string_lists_extend(rest.skip(m as int), a2, full);
            }
        } else if is_string_field(tag, full) {
            if let Some((s, m)) = spec_string(wt, rest) {
                let a2 = with_string(a, tag, s);
                let w2 = with_string(w, tag, s);
                assert(without_strings(a2) =~= without_strings(w2));
                lemma_string_lists_extend(rest.skip(m as int), a2, full);
                lemma_string_lists_extend(rest.skip(m as int), w2, full);
                let tail = rest.skip(m as int);
                if let Some(e) = scan_fields(tail, a2, full) {
                    let c = scan_fields(tail, without_strings(a2), full)->Some_0;
                    assert(a2.user_msg + c.user_msg =~= a.user_msg + (w2.user_msg + c.user_msg));
                    assert(a2.rq_handler_rp_code + c.rq_handler_rp_code =~= a.rq_handler_rp_code + (
                    w2.rq_handler_rp_code + c.rq_handler_rp_code));
                    assert(a2.rp_code + c.rp_code =~= a.rp_code + (w2.rp_code + c.rp_code));
                }
            }
        } else {
            if let Some(m) = spec_skip(wt, tag, rest) {
                lemma_string_lists_extend(rest.skip(m as int), a, full);
            }
        }
    }
}

} // verus!
