//! Binary wire-format primitives.
//!
//! Every value the node puts on the wire is built from four primitives:
//! little-endian integers, length-prefixed byte blobs, length-prefixed UTF-8
//! strings, and single tag bytes. Each primitive has a spec-level encoder, a
//! spec-level parser that consumes a prefix of a byte sequence, and a proved
//! round-trip lemma; the executable readers and writers are verified against
//! those spec functions.

use vstd::prelude::*;
use vstd::slice::slice_to_vec;
use vstd::string::StrSliceExecFns;
use vstd::utf8::{decode_utf8, encode_utf8, valid_utf8};

verus! {

broadcast use vstd::utf8::encode_utf8_valid_utf8, vstd::utf8::encode_utf8_decode_utf8;

/// Upper bound (exclusive) for every length field on the wire.
pub open spec fn fits_u32(n: int) -> bool {
    n < 0x1_0000_0000
}

/// A character sequence whose UTF-8 form fits behind a 32-bit length prefix.
pub open spec fn str_wf(s: Seq<char>) -> bool {
    fits_u32(encode_utf8(s).len() as int)
}

// ---------------------------------------------------------------------------
// Spec encoders
// ---------------------------------------------------------------------------

/// Little-endian bytes of a 32-bit integer.
pub open spec fn le32(n: u32) -> Seq<u8> {
    seq![
        (n & 0xff) as u8,
        ((n >> 8) & 0xff) as u8,
        ((n >> 16) & 0xff) as u8,
        ((n >> 24) & 0xff) as u8,
    ]
}

/// Little-endian bytes of a 64-bit integer.
pub open spec fn le64(n: u64) -> Seq<u8> {
    seq![
        (n & 0xff) as u8,
        ((n >> 8) & 0xff) as u8,
        ((n >> 16) & 0xff) as u8,
        ((n >> 24) & 0xff) as u8,
        ((n >> 32) & 0xff) as u8,
        ((n >> 40) & 0xff) as u8,
        ((n >> 48) & 0xff) as u8,
        ((n >> 56) & 0xff) as u8,
    ]
}

/// A byte blob prefixed with its 32-bit length.
pub open spec fn enc_blob(b: Seq<u8>) -> Seq<u8> {
    le32(b.len() as u32) + b
}

/// A string as the blob of its UTF-8 bytes.
pub open spec fn enc_str(s: Seq<char>) -> Seq<u8> {
    enc_blob(encode_utf8(s))
}

/// An optional string: a presence tag, then the string if present.
pub open spec fn enc_opt_str(o: Option<Seq<char>>) -> Seq<u8> {
    match o {
        None => seq![0u8],
        Some(s) => seq![1u8] + enc_str(s),
    }
}

/// The strings of a list, concatenated without a count.
pub open spec fn enc_str_seq(l: Seq<Seq<char>>) -> Seq<u8>
    decreases l.len(),
{
    if l.len() == 0 {
        Seq::empty()
    } else {
        enc_str(l[0]) + enc_str_seq(l.drop_first())
    }
}

/// A list of strings prefixed with its 32-bit count.
pub open spec fn enc_str_list(l: Seq<Seq<char>>) -> Seq<u8> {
    le32(l.len() as u32) + enc_str_seq(l)
}

/// Every string of the list fits behind a length prefix, as does the count.
pub open spec fn str_list_wf(l: Seq<Seq<char>>) -> bool {
    &&& fits_u32(l.len() as int)
    &&& forall|i: int| 0 <= i < l.len() ==> str_wf(#[trigger] l[i])
}

// ---------------------------------------------------------------------------
// Spec parsers: each consumes a prefix and yields the value and the rest.
// ---------------------------------------------------------------------------

pub open spec fn u32_of_le(b0: u8, b1: u8, b2: u8, b3: u8) -> u32 {
    (b0 as u32) | ((b1 as u32) << 8) | ((b2 as u32) << 16) | ((b3 as u32) << 24)
}

pub open spec fn u64_of_le(b: Seq<u8>) -> u64
    recommends
        b.len() == 8,
{
    (b[0] as u64) | ((b[1] as u64) << 8) | ((b[2] as u64) << 16) | ((b[3] as u64) << 24)
        | ((b[4] as u64) << 32) | ((b[5] as u64) << 40) | ((b[6] as u64) << 48) | (
    (b[7] as u64) << 56)
}

pub open spec fn take_u8(b: Seq<u8>) -> Option<(u8, Seq<u8>)> {
    if b.len() >= 1 {
        Some((b[0], b.skip(1)))
    } else {
        None
    }
}

pub open spec fn take_u32(b: Seq<u8>) -> Option<(u32, Seq<u8>)> {
    if b.len() >= 4 {
        Some((u32_of_le(b[0], b[1], b[2], b[3]), b.skip(4)))
    } else {
        None
    }
}

pub open spec fn take_u64(b: Seq<u8>) -> Option<(u64, Seq<u8>)> {
    if b.len() >= 8 {
        Some((u64_of_le(b.take(8)), b.skip(8)))
    } else {
        None
    }
}

pub open spec fn take_bytes(n: int, b: Seq<u8>) -> Option<(Seq<u8>, Seq<u8>)> {
    if 0 <= n <= b.len() {
        Some((b.take(n), b.skip(n)))
    } else {
        None
    }
}

pub open spec fn take_blob(b: Seq<u8>) -> Option<(Seq<u8>, Seq<u8>)> {
    match take_u32(b) {
        Some((n, rest)) => take_bytes(n as int, rest),
        None => None,
    }
}

pub open spec fn take_str(b: Seq<u8>) -> Option<(Seq<char>, Seq<u8>)> {
    match take_blob(b) {
        Some((bytes, rest)) => if valid_utf8(bytes) {
            Some((decode_utf8(bytes), rest))
        } else {
            None
        },
        None => None,
    }
}

pub open spec fn take_opt_str(b: Seq<u8>) -> Option<(Option<Seq<char>>, Seq<u8>)> {
    match take_u8(b) {
        Some((tag, rest)) => if tag == 0 {
            Some((None, rest))
        } else if tag == 1 {
            match take_str(rest) {
                Some((s, rest2)) => Some((Some(s), rest2)),
                None => None,
            }
        } else {
            None
        },
        None => None,
    }
}

/// Parse exactly `n` strings.
pub open spec fn take_str_n(n: nat, b: Seq<u8>) -> Option<(Seq<Seq<char>>, Seq<u8>)>
    decreases n,
{
    if n == 0 {
        Some((Seq::empty(), b))
    } else {
        match take_str(b) {
            Some((s, rest)) => match take_str_n((n - 1) as nat, rest) {
                Some((l, rest2)) => Some((seq![s] + l, rest2)),
                None => None,
            },
            None => None,
        }
    }
}

pub open spec fn take_str_list(b: Seq<u8>) -> Option<(Seq<Seq<char>>, Seq<u8>)> {
    match take_u32(b) {
        Some((n, rest)) => take_str_n(n as nat, rest),
        None => None,
    }
}

// ---------------------------------------------------------------------------
// Round-trip lemmas
// ---------------------------------------------------------------------------

pub proof fn lemma_take_u8(t: u8, rest: Seq<u8>)
    ensures
        take_u8(seq![t] + rest) == Some((t, rest)),
{
    assert((seq![t] + rest).skip(1) =~= rest);
}

pub proof fn lemma_take_u32(n: u32, rest: Seq<u8>)
    ensures
        take_u32(le32(n) + rest) == Some((n, rest)),
{
    let s = le32(n) + rest;
    assert(((((n & 0xff) as u8) as u32) | ((((n >> 8) & 0xff) as u8) as u32) << 8 | ((((n >> 16)
        & 0xff) as u8) as u32) << 16 | ((((n >> 24) & 0xff) as u8) as u32) << 24) == n)
        by (bit_vector);
    assert(s.skip(4) =~= rest);
}

pub proof fn lemma_take_u64(n: u64, rest: Seq<u8>)
    ensures
        take_u64(le64(n) + rest) == Some((n, rest)),
{
    let s = le64(n) + rest;
    assert(s.take(8) =~= le64(n));
    assert(((((n & 0xff) as u8) as u64) | ((((n >> 8) & 0xff) as u8) as u64) << 8 | ((((n >> 16)
        & 0xff) as u8) as u64) << 16 | ((((n >> 24) & 0xff) as u8) as u64) << 24 | ((((n >> 32)
        & 0xff) as u8) as u64) << 32 | ((((n >> 40) & 0xff) as u8) as u64) << 40 | ((((n >> 48)
        & 0xff) as u8) as u64) << 48 | ((((n >> 56) & 0xff) as u8) as u64) << 56) == n)
        by (bit_vector);
    assert(s.skip(8) =~= rest);
}

pub proof fn lemma_take_bytes(b: Seq<u8>, rest: Seq<u8>)
    ensures
        take_bytes(b.len() as int, b + rest) == Some((b, rest)),
{
    assert((b + rest).take(b.len() as int) =~= b);
    assert((b + rest).skip(b.len() as int) =~= rest);
}

pub proof fn lemma_take_blob(b: Seq<u8>, rest: Seq<u8>)
    requires
        fits_u32(b.len() as int),
    ensures
        take_blob(enc_blob(b) + rest) == Some((b, rest)),
{
    assert(enc_blob(b) + rest =~= le32(b.len() as u32) + (b + rest));
    lemma_take_u32(b.len() as u32, b + rest);
    lemma_take_bytes(b, rest);
}

pub proof fn lemma_take_str(s: Seq<char>, rest: Seq<u8>)
    requires
        str_wf(s),
    ensures
        take_str(enc_str(s) + rest) == Some((s, rest)),
{
    lemma_take_blob(encode_utf8(s), rest);
}

pub proof fn lemma_take_opt_str(o: Option<Seq<char>>, rest: Seq<u8>)
    requires
        o is Some ==> str_wf(o->0),
    ensures
        take_opt_str(enc_opt_str(o) + rest) == Some((o, rest)),
{
    match o {
        None => {
            lemma_take_u8(0u8, rest);
        },
        Some(s) => {
            assert(enc_opt_str(o) + rest =~= seq![1u8] + (enc_str(s) + rest));
            lemma_take_u8(1u8, enc_str(s) + rest);
            lemma_take_str(s, rest);
        },
    }
}

pub proof fn lemma_take_str_n(l: Seq<Seq<char>>, rest: Seq<u8>)
    requires
        forall|i: int| 0 <= i < l.len() ==> str_wf(#[trigger] l[i]),
    ensures
        take_str_n(l.len() as nat, enc_str_seq(l) + rest) == Some((l, rest)),
    decreases l.len(),
{
    if l.len() == 0 {
        assert(enc_str_seq(l) + rest =~= rest);
        assert(take_str_n(0, rest) == Some((Seq::<Seq<char>>::empty(), rest)));
        assert(l =~= Seq::<Seq<char>>::empty());
    } else {
        let tail = l.drop_first();
        assert(enc_str_seq(l) + rest =~= enc_str(l[0]) + (enc_str_seq(tail) + rest));
        lemma_take_str(l[0], enc_str_seq(tail) + rest);
        lemma_take_str_n(tail, rest);
        assert(seq![l[0]] + tail =~= l);
    }
}

pub proof fn lemma_take_str_list(l: Seq<Seq<char>>, rest: Seq<u8>)
    requires
        str_list_wf(l),
    ensures
        take_str_list(enc_str_list(l) + rest) == Some((l, rest)),
{
    assert(enc_str_list(l) + rest =~= le32(l.len() as u32) + (enc_str_seq(l) + rest));
    lemma_take_u32(l.len() as u32, enc_str_seq(l) + rest);
    lemma_take_str_n(l, rest);
}

// ---------------------------------------------------------------------------
// Executable writers
// ---------------------------------------------------------------------------

proof fn lemma_u32_bytes_fit(n: u32)
    ensures
        n & 0xff < 256,
        (n >> 8) & 0xff < 256,
        (n >> 16) & 0xff < 256,
        (n >> 24) & 0xff < 256,
{
    assert(n & 0xff < 256 && (n >> 8) & 0xff < 256 && (n >> 16) & 0xff < 256 && (n >> 24) & 0xff
        < 256) by (bit_vector);
}

proof fn lemma_u64_bytes_fit(n: u64)
    ensures
        n & 0xff < 256,
        (n >> 8) & 0xff < 256,
        (n >> 16) & 0xff < 256,
        (n >> 24) & 0xff < 256,
        (n >> 32) & 0xff < 256,
        (n >> 40) & 0xff < 256,
        (n >> 48) & 0xff < 256,
        (n >> 56) & 0xff < 256,
{
    assert(n & 0xff < 256 && (n >> 8) & 0xff < 256 && (n >> 16) & 0xff < 256 && (n >> 24) & 0xff
        < 256 && (n >> 32) & 0xff < 256 && (n >> 40) & 0xff < 256 && (n >> 48) & 0xff < 256 && (n
        >> 56) & 0xff < 256) by (bit_vector);
}

pub fn write_u8(out: &mut Vec<u8>, t: u8)
    ensures
        final(out)@ == old(out)@ + seq![t],
{
    out.push(t);
    assert(out@ =~= old(out)@ + seq![t]);
}

pub fn write_u32(out: &mut Vec<u8>, n: u32)
    ensures
        final(out)@ == old(out)@ + le32(n),
{
    proof {
        lemma_u32_bytes_fit(n);
    }
    out.push((n & 0xff) as u8);
    out.push(((n >> 8) & 0xff) as u8);
    out.push(((n >> 16) & 0xff) as u8);
    out.push(((n >> 24) & 0xff) as u8);
    assert(out@ =~= old(out)@ + le32(n));
}

pub fn write_u64(out: &mut Vec<u8>, n: u64)
    ensures
        final(out)@ == old(out)@ + le64(n),
{
    proof {
        lemma_u64_bytes_fit(n);
    }
    out.push((n & 0xff) as u8);
    out.push(((n >> 8) & 0xff) as u8);
    out.push(((n >> 16) & 0xff) as u8);
    out.push(((n >> 24) & 0xff) as u8);
    out.push(((n >> 32) & 0xff) as u8);
    out.push(((n >> 40) & 0xff) as u8);
    out.push(((n >> 48) & 0xff) as u8);
    out.push(((n >> 56) & 0xff) as u8);
    assert(out@ =~= old(out)@ + le64(n));
}

/// An ASCII string's UTF-8 form has one byte per character, so it fits
/// behind a 32-bit length prefix whenever its character count does.
pub proof fn lemma_ascii_str_wf(s: Seq<char>)
    requires
        vstd::utf8::is_ascii_chars(s),
        s.len() < 0x1_0000_0000,
    ensures
        str_wf(s),
        encode_utf8(s).len() == s.len(),
{
    vstd::utf8::is_ascii_chars_encode_utf8(s);
}

/// String equality, via the UTF-8 bytes. Two strings are equal exactly when
/// their byte forms are: UTF-8 encoding is injective.
pub fn str_eq(a: &str, b: &str) -> (r: bool)
    ensures
        r == (a@ == b@),
{
    broadcast use vstd::utf8::encode_utf8_decode_utf8;

    let ab = a.as_bytes();
    let bb = b.as_bytes();
    if ab.len() != bb.len() {
        assert(encode_utf8(a@) != encode_utf8(b@));
        return false;
    }
    let mut i: usize = 0;
    while i < ab.len()
        invariant
            i <= ab@.len(),
            ab@.len() == bb@.len(),
            ab@ == encode_utf8(a@),
            bb@ == encode_utf8(b@),
            forall|j: int| 0 <= j < i ==> ab@[j] == bb@[j],
        decreases ab@.len() - i,
    {
        if ab[i] != bb[i] {
            assert(encode_utf8(a@) != encode_utf8(b@));
            return false;
        }
        i += 1;
    }
    proof {
        assert(encode_utf8(a@) =~= encode_utf8(b@));
        assert(decode_utf8(encode_utf8(a@)) == a@);
        assert(decode_utf8(encode_utf8(b@)) == b@);
    }
    true
}

/// Whether a string's UTF-8 form fits behind a 32-bit length prefix.
pub fn str_len_fits(s: &str) -> (b: bool)
    ensures
        b == str_wf(s@),
{
    let bytes = s.as_bytes();
    (bytes.len() as u64) < 0x1_0000_0000u64
}

pub fn write_raw(out: &mut Vec<u8>, b: &[u8])
    ensures
        final(out)@ == old(out)@ + b@,
{
    let mut tail = slice_to_vec(b);
    out.append(&mut tail);
}

pub fn write_blob(out: &mut Vec<u8>, b: &[u8])
    requires
        fits_u32(b@.len() as int),
    ensures
        final(out)@ == old(out)@ + enc_blob(b@),
{
    write_u32(out, b.len() as u32);
    let mut tail = slice_to_vec(b);
    out.append(&mut tail);
    assert(out@ =~= old(out)@ + enc_blob(b@));
}

pub fn write_str(out: &mut Vec<u8>, s: &str)
    requires
        str_wf(s@),
    ensures
        final(out)@ == old(out)@ + enc_str(s@),
{
    let bytes = s.as_bytes();
    write_blob(out, bytes);
}

pub fn write_opt_str(out: &mut Vec<u8>, o: &Option<String>)
    requires
        o is Some ==> str_wf(o->0@),
    ensures
        final(out)@ == old(out)@ + enc_opt_str(match *o {
            Some(ref s) => Some(s@),
            None => None,
        }),
{
    match o {
        None => {
            write_u8(out, 0);
            assert(out@ =~= old(out)@ + enc_opt_str(None));
        },
        Some(s) => {
            write_u8(out, 1);
            write_str(out, s.as_str());
            assert(out@ =~= old(out)@ + enc_opt_str(Some(s@)));
        },
    }
}

/// The view of a list of strings as a sequence of character sequences.
pub open spec fn strings_view(l: Seq<String>) -> Seq<Seq<char>> {
    l.map_values(|s: String| s@)
}

pub fn write_str_list(out: &mut Vec<u8>, l: &Vec<String>)
    requires
        str_list_wf(strings_view(l@)),
    ensures
        final(out)@ == old(out)@ + enc_str_list(strings_view(l@)),
{
    let ghost lv = strings_view(l@);
    write_u32(out, l.len() as u32);
    let mut i: usize = 0;
    while i < l.len()
        invariant
            i <= l.len(),
            lv == strings_view(l@),
            str_list_wf(lv),
            out@ == old(out)@ + le32(l@.len() as u32) + enc_str_seq(lv.take(i as int)),
        decreases l.len() - i,
    {
        assert(lv[i as int] == l@[i as int]@);
        write_str(out, l[i].as_str());
        proof {
            lemma_enc_str_seq_snoc(lv.take(i as int), lv[i as int]);
            assert(lv.take(i as int + 1) =~= lv.take(i as int).push(lv[i as int]));
            assert(out@ =~= old(out)@ + le32(l@.len() as u32) + enc_str_seq(lv.take(i as int + 1)));
        }
        i += 1;
    }
    assert(lv.take(l@.len() as int) =~= lv);
    assert(out@ =~= old(out)@ + enc_str_list(lv));
}

/// Appending one string to a list appends its encoding.
proof fn lemma_enc_str_seq_snoc(l: Seq<Seq<char>>, s: Seq<char>)
    ensures
        enc_str_seq(l.push(s)) == enc_str_seq(l) + enc_str(s),
    decreases l.len(),
{
    let lp = l.push(s);
    if l.len() == 0 {
        assert(lp[0] == s);
        assert(lp.drop_first() =~= Seq::<Seq<char>>::empty());
        assert(enc_str_seq(Seq::<Seq<char>>::empty()) == Seq::<u8>::empty());
        assert(enc_str_seq(lp) == enc_str(s) + enc_str_seq(lp.drop_first()));
        assert(enc_str_seq(lp) =~= enc_str_seq(l) + enc_str(s));
    } else {
        assert(lp[0] == l[0]);
        assert(lp.drop_first() =~= l.drop_first().push(s));
        lemma_enc_str_seq_snoc(l.drop_first(), s);
        assert(enc_str_seq(lp) == enc_str(l[0]) + enc_str_seq(lp.drop_first()));
        assert(enc_str_seq(lp) =~= enc_str_seq(l) + enc_str(s));
    }
}

// ---------------------------------------------------------------------------
// Executable readers
// ---------------------------------------------------------------------------

/// A sequence of plain ASCII bytes is valid UTF-8 and decodes byte for byte.
pub proof fn lemma_ascii_decode(b: Seq<u8>)
    requires
        forall|i: int| 0 <= i < b.len() ==> b[i] < 0x80,
    ensures
        valid_utf8(b),
        decode_utf8(b) == b.map_values(|x: u8| x as char),
    decreases b.len(),
{
    broadcast use vstd::utf8::char_u32_cast;

    if b.len() == 0 {
        assert(decode_utf8(b) =~= b.map_values(|x: u8| x as char));
    } else {
        assert(vstd::utf8::is_leading_byte_width_1(b[0]));
        let b0 = b[0];
        assert(b0 & 0x7f == b0) by (bit_vector)
            requires
                b0 < 0x80,
        ;
        assert(vstd::utf8::valid_first_scalar(b));
        assert(vstd::utf8::decode_first_scalar(b) == b[0] as u32);
        assert(vstd::utf8::pop_first_scalar(b) =~= b.drop_first());
        lemma_ascii_decode(b.drop_first());
        assert((b[0] as u32) as char == b[0] as char);
        assert(decode_utf8(b) =~= b.map_values(|x: u8| x as char));
    }
}

/// Build a string from plain ASCII bytes.
pub fn ascii_to_string(bytes: Vec<u8>) -> (r: String)
    requires
        forall|i: int| 0 <= i < bytes@.len() ==> bytes@[i] < 0x80,
    ensures
        r@ == bytes@.map_values(|x: u8| x as char),
{
    proof {
        lemma_ascii_decode(bytes@);
    }
    let ghost bv = bytes@;
    match string_from_utf8(bytes) {
        Some(s) => {
            proof {
                assert(decode_utf8(bv) == s@);
            }
            s
        },
        None => {
            proof {
                // ASCII bytes are valid UTF-8, so this arm cannot be reached
                assert(false);
            }
            String::new()
        },
    }
}

/// Relies on `String::from_utf8`: succeeds exactly on valid UTF-8, and the
/// bytes of the returned string are exactly the input bytes.
#[verifier::external_body]
fn string_from_utf8(bytes: Vec<u8>) -> (r: Option<String>)
    ensures
        r is Some <==> valid_utf8(bytes@),
        r is Some ==> encode_utf8(r->0@) == bytes@,
{
    match String::from_utf8(bytes) {
        Ok(s) => Some(s),
        Err(_) => None,
    }
}

pub fn read_u8(input: &Vec<u8>, pos: usize) -> (r: Option<(u8, usize)>)
    requires
        pos <= input.len(),
    ensures
        match r {
            Some(p) => take_u8(input@.skip(pos as int)) == Some((p.0, input@.skip(p.1 as int)))
                && pos < p.1 <= input.len(),
            None => take_u8(input@.skip(pos as int)) is None,
        },
{
    if input.len() - pos < 1 {
        return None;
    }
    let b = input[pos];
    assert(input@.skip(pos as int).skip(1) =~= input@.skip(pos as int + 1));
    Some((b, pos + 1))
}

pub fn read_u32(input: &Vec<u8>, pos: usize) -> (r: Option<(u32, usize)>)
    requires
        pos <= input.len(),
    ensures
        match r {
            Some(p) => take_u32(input@.skip(pos as int)) == Some((p.0, input@.skip(p.1 as int)))
                && pos < p.1 <= input.len(),
            None => take_u32(input@.skip(pos as int)) is None,
        },
{
    if input.len() - pos < 4 {
        return None;
    }
    let b0 = input[pos];
    let b1 = input[pos + 1];
    let b2 = input[pos + 2];
    let b3 = input[pos + 3];
    let n = (b0 as u32) | ((b1 as u32) << 8) | ((b2 as u32) << 16) | ((b3 as u32) << 24);
    assert(input@.skip(pos as int).skip(4) =~= input@.skip(pos as int + 4));
    Some((n, pos + 4))
}

pub fn read_u64(input: &Vec<u8>, pos: usize) -> (r: Option<(u64, usize)>)
    requires
        pos <= input.len(),
    ensures
        match r {
            Some(p) => take_u64(input@.skip(pos as int)) == Some((p.0, input@.skip(p.1 as int)))
                && pos < p.1 <= input.len(),
            None => take_u64(input@.skip(pos as int)) is None,
        },
{
    if input.len() - pos < 8 {
        return None;
    }
    let b0 = input[pos];
    let b1 = input[pos + 1];
    let b2 = input[pos + 2];
    let b3 = input[pos + 3];
    let b4 = input[pos + 4];
    let b5 = input[pos + 5];
    let b6 = input[pos + 6];
    let b7 = input[pos + 7];
    let n = (b0 as u64) | ((b1 as u64) << 8) | ((b2 as u64) << 16) | ((b3 as u64) << 24) | ((
    b4 as u64) << 32) | ((b5 as u64) << 40) | ((b6 as u64) << 48) | ((b7 as u64) << 56);
    proof {
        let s = input@.skip(pos as int);
        assert(s.take(8) =~= seq![b0, b1, b2, b3, b4, b5, b6, b7]);
        assert(s.skip(8) =~= input@.skip(pos as int + 8));
    }
    Some((n, pos + 8))
}

pub fn read_exact(input: &Vec<u8>, pos: usize, n: usize) -> (r: Option<(Vec<u8>, usize)>)
    requires
        pos <= input.len(),
    ensures
        match r {
            Some(p) => take_bytes(n as int, input@.skip(pos as int)) == Some(
                (p.0@, input@.skip(p.1 as int)),
            ) && pos <= p.1 <= input.len() && p.0@.len() == n,
            None => take_bytes(n as int, input@.skip(pos as int)) is None,
        },
{
    if input.len() - pos < n {
        return None;
    }
    let mut out: Vec<u8> = Vec::new();
    let mut i: usize = 0;
    while i < n
        invariant
            i <= n,
            pos + n <= input.len(),
            out@ == input@.subrange(pos as int, pos as int + i as int),
        decreases n - i,
    {
        out.push(input[pos + i]);
        assert(out@ =~= input@.subrange(pos as int, pos as int + i as int + 1));
        i += 1;
    }
    proof {
        let s = input@.skip(pos as int);
        assert(out@ =~= s.take(n as int));
        assert(s.skip(n as int) =~= input@.skip(pos as int + n as int));
    }
    Some((out, pos + n))
}

pub fn read_blob(input: &Vec<u8>, pos: usize) -> (r: Option<(Vec<u8>, usize)>)
    requires
        pos <= input.len(),
    ensures
        match r {
            Some(p) => take_blob(input@.skip(pos as int)) == Some(
                (p.0@, input@.skip(p.1 as int)),
            ) && pos <= p.1 <= input.len(),
            None => take_blob(input@.skip(pos as int)) is None,
        },
{
    match read_u32(input, pos) {
        None => None,
        Some((n, p1)) => read_exact(input, p1, n as usize),
    }
}

pub fn read_str(input: &Vec<u8>, pos: usize) -> (r: Option<(String, usize)>)
    requires
        pos <= input.len(),
    ensures
        match r {
            Some(p) => take_str(input@.skip(pos as int)) == Some(
                (p.0@, input@.skip(p.1 as int)),
            ) && pos <= p.1 <= input.len(),
            None => take_str(input@.skip(pos as int)) is None,
        },
{
    match read_blob(input, pos) {
        None => None,
        Some((bytes, p1)) => {
            let ghost bv = bytes@;
            match string_from_utf8(bytes) {
                None => None,
                Some(s) => {
                    proof {
                        assert(decode_utf8(bv) == s@);
                    }
                    Some((s, p1))
                },
            }
        },
    }
}

pub fn read_opt_str(input: &Vec<u8>, pos: usize) -> (r: Option<(Option<String>, usize)>)
    requires
        pos <= input.len(),
    ensures
        match r {
            Some(p) => take_opt_str(input@.skip(pos as int)) == Some(
                (
                    match p.0 {
                        Some(ref s) => Some(s@),
                        None => None,
                    },
                    input@.skip(p.1 as int),
                ),
            ) && pos <= p.1 <= input.len(),
            None => take_opt_str(input@.skip(pos as int)) is None,
        },
{
    match read_u8(input, pos) {
        None => None,
        Some((tag, p1)) => {
            if tag == 0 {
                Some((None, p1))
            } else if tag == 1 {
                match read_str(input, p1) {
                    None => None,
                    Some((s, p2)) => Some((Some(s), p2)),
                }
            } else {
                None
            }
        },
    }
}

pub fn read_str_list(input: &Vec<u8>, pos: usize) -> (r: Option<(Vec<String>, usize)>)
    requires
        pos <= input.len(),
    ensures
        match r {
            Some(p) => take_str_list(input@.skip(pos as int)) == Some(
                (strings_view(p.0@), input@.skip(p.1 as int)),
            ) && pos <= p.1 <= input.len(),
            None => take_str_list(input@.skip(pos as int)) is None,
        },
{
    match read_u32(input, pos) {
        None => None,
        Some((n, p1)) => {
            let mut out: Vec<String> = Vec::new();
            let mut p = p1;
            let mut i: u32 = 0;
            proof {
                assert(strings_view(out@) =~= Seq::<Seq<char>>::empty());
                if take_str_n(n as nat, input@.skip(p1 as int)) is Some {
                    let (l0, r0) = take_str_n(n as nat, input@.skip(p1 as int))->0;
                    assert(strings_view(out@) + l0 =~= l0);
                }
            }
            loop
                invariant
                    i <= n,
                    pos <= p <= input.len(),
                    take_str_list(input@.skip(pos as int)) == match take_str_n(
                        (n - i) as nat,
                        input@.skip(p as int),
                    ) {
                        Some((l, rest)) => Some((strings_view(out@) + l, rest)),
                        None => None::<(Seq<Seq<char>>, Seq<u8>)>,
                    },
                    out@.len() == i,
                decreases n - i,
            {
                if i == n {
                    proof {
                        assert(take_str_n(0, input@.skip(p as int)) == Some(
                            (Seq::<Seq<char>>::empty(), input@.skip(p as int)),
                        ));
                        assert(strings_view(out@) + Seq::<Seq<char>>::empty() =~= strings_view(
                            out@,
                        ));
                    }
                    return Some((out, p));
                }
                match read_str(input, p) {
                    None => {
                        return None;
                    },
                    Some((s, p2)) => {
                        proof {
                            let l_old = strings_view(out@);
                            let tail = take_str_n((n - i - 1) as nat, input@.skip(p2 as int));
                            if tail is Some {
                                let (tl, _trest) = tail->0;
                                assert(l_old + (seq![s@] + tl) =~= (l_old.push(s@)) + tl);
                            }
                            assert(strings_view(out@.push(s)) =~= strings_view(out@).push(s@));
                        }
                        out.push(s);
                        p = p2;
                        i += 1;
                    },
                }
            }
        },
    }
}

} // verus!
