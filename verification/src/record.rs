//! The binary container record: the structured `{salt, encrypted}` pair that
//! travels inside the printable transport string.
//!
//! The encoding is deterministic and self-describing: each field is preceded
//! by its length as four big-endian bytes, and a record is exactly the two
//! length-prefixed fields with nothing after them. Parsing either recovers
//! the two fields or rejects the buffer; it never guesses a boundary.

use vstd::prelude::*;

verus! {

/// Four big-endian bytes of `n`.
pub open spec fn be32(n: u32) -> Seq<u8> {
    seq![
        (n / 0x1000000) as u8,
        ((n / 0x10000) % 0x100) as u8,
        ((n / 0x100) % 0x100) as u8,
        (n % 0x100) as u8,
    ]
}

/// The value of four big-endian bytes.
pub open spec fn be32_val(b: Seq<u8>) -> int {
    b[0] * 0x1000000 + b[1] * 0x10000 + b[2] * 0x100 + b[3]
}

pub proof fn lemma_be32_val(n: u32)
    ensures
        be32(n).len() == 4,
        be32_val(be32(n)) == n,
{
    assert((n / 0x1000000) * 0x1000000 + ((n / 0x10000) % 0x100) * 0x10000 + ((n / 0x100)
        % 0x100) * 0x100 + (n % 0x100) == n) by (nonlinear_arith);
}

/// The wire form of a record: both fields length-prefixed, in order.
pub open spec fn record_bytes(salt: Seq<u8>, encrypted: Seq<u8>) -> Seq<u8> {
    be32(salt.len() as u32) + salt + be32(encrypted.len() as u32) + encrypted
}

/// What parsing a buffer yields: the two fields, if and only if the buffer
/// is exactly two length-prefixed fields.
pub open spec fn parse_record_spec(b: Seq<u8>) -> Option<(Seq<u8>, Seq<u8>)> {
    if b.len() < 4 {
        None
    } else {
        let n1 = be32_val(b.take(4));
        if b.len() - 4 < n1 {
            None
        } else {
            let salt = b.subrange(4, 4 + n1);
            let rest = b.skip(4 + n1);
            if rest.len() < 4 {
                None
            } else {
                let n2 = be32_val(rest.take(4));
                if rest.len() - 4 != n2 {
                    None
                } else {
                    Some((salt, rest.subrange(4, 4 + n2)))
                }
            }
        }
    }
}

/// Law: packing two fields and parsing the result gives the fields back,
/// whatever they hold, as long as each length fits its four-byte prefix.
pub proof fn lemma_record_round_trip(salt: Seq<u8>, encrypted: Seq<u8>)
    requires
        salt.len() <= u32::MAX,
        encrypted.len() <= u32::MAX,
    ensures
        parse_record_spec(record_bytes(salt, encrypted)) == Some((salt, encrypted)),
{
    let n1 = salt.len() as u32;
    let n2 = encrypted.len() as u32;
    let b = record_bytes(salt, encrypted);
    lemma_be32_val(n1);
    lemma_be32_val(n2);
    assert(b.len() == 8 + salt.len() + encrypted.len());
    assert(b.take(4) =~= be32(n1));
    assert(b.subrange(4, 4 + salt.len() as int) =~= salt);
    let rest = b.skip(4 + salt.len() as int);
    assert(rest.len() == 4 + encrypted.len());
    assert(rest.take(4) =~= be32(n2));
    assert(rest.subrange(4, 4 + encrypted.len() as int) =~= encrypted);
}

/// Appends a copy of `src` to `out`.
fn append_bytes(out: &mut Vec<u8>, src: &Vec<u8>)
    requires
        old(out)@.len() + src@.len() <= usize::MAX,
    ensures
        final(out)@ == old(out)@ + src@,
{
    let mut i: usize = 0;
    while i < src.len()
        invariant
            i <= src@.len(),
            out@ == old(out)@ + src@.take(i as int),
            out@.len() + src@.len() <= usize::MAX + i,
        decreases src@.len() - i,
    {
        out.push(src[i]);
        i = i + 1;
        assert(out@ =~= old(out)@ + src@.take(i as int));
    }
    assert(out@ =~= old(out)@ + src@);
}

/// Appends the four big-endian bytes of `n` to `out`.
fn push_be32(out: &mut Vec<u8>, n: u32)
    requires
        old(out)@.len() + 4 <= usize::MAX,
    ensures
        final(out)@ == old(out)@ + be32(n),
{
    out.push((n / 0x1000000) as u8);
    out.push(((n / 0x10000) % 0x100) as u8);
    out.push(((n / 0x100) % 0x100) as u8);
    out.push((n % 0x100) as u8);
    assert(out@ =~= old(out)@ + be32(n));
}

/// Packs the two fields of a record into its wire form.
pub fn pack_record(salt: &Vec<u8>, encrypted: &Vec<u8>) -> (r: Vec<u8>)
    requires
        salt@.len() <= u32::MAX,
        encrypted@.len() <= u32::MAX,
        8 + salt@.len() + encrypted@.len() <= usize::MAX,
    ensures
        r@ == record_bytes(salt@, encrypted@),
        r@.len() == 8 + salt@.len() + encrypted@.len(),
{
    let mut out: Vec<u8> = Vec::new();
    push_be32(&mut out, salt.len() as u32);
    append_bytes(&mut out, salt);
    push_be32(&mut out, encrypted.len() as u32);
    append_bytes(&mut out, encrypted);
    assert(out@ =~= record_bytes(salt@, encrypted@));
    out
}

/// Reads the four big-endian bytes at `off`.
fn read_be32(b: &[u8], off: usize) -> (r: u32)
    requires
        off + 4 <= b@.len(),
    ensures
        r == be32_val(b@.subrange(off as int, off as int + 4)),
{
    let n = b.len();
    assert(off + 4 <= n);
    let b0 = *vstd::slice::slice_index_get(b, off);
    let b1 = *vstd::slice::slice_index_get(b, off + 1);
    let b2 = *vstd::slice::slice_index_get(b, off + 2);
    let b3 = *vstd::slice::slice_index_get(b, off + 3);
    (b0 as u32) * 0x1000000 + (b1 as u32) * 0x10000 + (b2 as u32) * 0x100 + (b3 as u32)
}

/// Parses a wire-form buffer back into the two fields of a record, rejecting
/// any buffer that is not exactly two length-prefixed fields.
pub fn parse_record(b: &[u8]) -> (r: Option<(Vec<u8>, Vec<u8>)>)
    ensures
        match r {
            Some(fields) => parse_record_spec(b@) == Some((fields.0@, fields.1@)),
            None => parse_record_spec(b@) is None,
        },
{
    if b.len() < 4 {
        return None;
    }
    let n1 = read_be32(b, 0);
    assert(b@.subrange(0, 4) =~= b@.take(4));
    let n1u = n1 as usize;
    if b.len() - 4 < n1u {
        return None;
    }
    let salt = vstd::slice::slice_to_vec(vstd::slice::slice_subrange(b, 4, 4 + n1u));
    let off: usize = 4 + n1u;
    let ghost rest = b@.skip(off as int);
    if b.len() - off < 4 {
        return None;
    }
    let n2 = read_be32(b, off);
    assert(b@.subrange(off as int, off as int + 4) =~= rest.take(4));
    let n2u = n2 as usize;
    if b.len() - off - 4 != n2u {
        return None;
    }
    let encrypted = vstd::slice::slice_to_vec(
        vstd::slice::slice_subrange(b, off + 4, off + 4 + n2u),
    );
    assert(b@.subrange(off as int + 4, off as int + 4 + n2u as int) =~= rest.subrange(
        4,
        4 + n2u as int,
    ));
    assert(rest.len() - 4 == n2u);
    Some((salt, encrypted))
}

} // verus!
