//! The fixed-width form of an ECDSA signature.
//!
//! JOSE writes a signature `(r, s)` as two big-endian unsigned integers of
//! equal width, `r` first, each padded with zero bytes on the left. This
//! module converts between that form and the variable-length magnitudes of
//! `r` and `s`. It knows nothing of keys.
use crate::error::Error;
use vstd::prelude::*;
use vstd::slice::slice_subrange;

verus! {

/// The number that a big-endian unsigned byte string stands for.
pub open spec fn be_value(bytes: Seq<u8>) -> nat
    decreases bytes.len(),
{
    if bytes.len() == 0 {
        0
    } else {
        be_value(bytes.drop_last()) * 256 + bytes.last() as nat
    }
}

/// `n` zero bytes.
pub open spec fn zeros(n: nat) -> Seq<u8> {
    Seq::new(n, |i: int| 0u8)
}

/// `bytes` right-aligned in a field of `width` bytes.
pub open spec fn left_padded(bytes: Seq<u8>, width: nat) -> Seq<u8>
    recommends
        bytes.len() <= width,
{
    zeros((width - bytes.len()) as nat) + bytes
}

/// The fixed-width signature of `sig_len` bytes that holds `r` and `s`.
pub open spec fn fixed_encoding(r: Seq<u8>, s: Seq<u8>, sig_len: nat) -> Seq<u8>
    recommends
        sig_len % 2 == 0,
        r.len() <= sig_len / 2,
        s.len() <= sig_len / 2,
{
    left_padded(r, sig_len / 2) + left_padded(s, sig_len / 2)
}

/// `bytes` without its leading zero bytes, except that the last byte always
/// stays: the magnitude of zero is one zero byte, never nothing.
pub open spec fn magnitude(bytes: Seq<u8>) -> Seq<u8>
    decreases bytes.len(),
{
    if bytes.len() <= 1 || bytes[0] != 0 {
        bytes
    } else {
        magnitude(bytes.drop_first())
    }
}

/// A magnitude in its shortest form: at least one byte, and no leading zero
/// byte unless it is the only one.
pub open spec fn is_canonical(bytes: Seq<u8>) -> bool {
    bytes.len() >= 1 && (bytes.len() == 1 || bytes[0] != 0)
}

/// What a signature of `sig_len` bytes decodes to: nothing if the length is
/// wrong, else the magnitudes of its two halves.
pub open spec fn fixed_decoding(sig: Seq<u8>, sig_len: nat) -> Option<(Seq<u8>, Seq<u8>)> {
    if sig.len() != sig_len {
        None
    } else {
        let half = (sig_len / 2) as int;
        Some((magnitude(sig.subrange(0, half)), magnitude(sig.subrange(half, sig_len as int))))
    }
}

/// Appends `bytes`, right-aligned in `width` bytes, to `out`.
fn push_left_padded(out: &mut Vec<u8>, bytes: &[u8], width: usize)
    requires
        bytes.len() <= width,
    ensures
        final(out)@ == old(out)@ + left_padded(bytes@, width as nat),
{
    let ghost before = out@;
    let pad: usize = width - bytes.len();
    let mut i: usize = 0;
    while i < pad
        invariant
            i <= pad,
            out@ == before + zeros(i as nat),
        decreases pad - i,
    {
        out.push(0u8);
        i += 1;
        assert(out@ =~= before + zeros(i as nat));
    }
    let mut j: usize = 0;
    while j < bytes.len()
        invariant
            j <= bytes.len(),
            pad == width - bytes.len(),
            out@ == before + zeros(pad as nat) + bytes@.subrange(0, j as int),
        decreases bytes.len() - j,
    {
        out.push(bytes[j]);
        j += 1;
        assert(out@ =~= before + zeros(pad as nat) + bytes@.subrange(0, j as int));
    }
    assert(out@ =~= before + left_padded(bytes@, width as nat));
}

/// `bytes` right-aligned in a field of `width` bytes, zero bytes before them.
pub fn left_pad(bytes: &[u8], width: usize) -> (out: Vec<u8>)
    requires
        bytes.len() <= width,
    ensures
        out@ == left_padded(bytes@, width as nat),
        out@.len() == width,
{
    let mut out: Vec<u8> = Vec::with_capacity(width);
    push_left_padded(&mut out, bytes, width);
    assert(out@ =~= left_padded(bytes@, width as nat));
    out
}

/// Writes `r` and `s` as one signature of `sig_len` bytes: `r` right-aligned
/// in the first half, `s` in the second, zero bytes before each.
pub fn encode_fixed(r: &[u8], s: &[u8], sig_len: usize) -> (sig: Vec<u8>)
    requires
        sig_len % 2 == 0,
        r.len() <= sig_len / 2,
        s.len() <= sig_len / 2,
    ensures
        sig@ == fixed_encoding(r@, s@, sig_len as nat),
        sig.len() == sig_len,
{
    let half: usize = sig_len / 2;
    let mut out: Vec<u8> = Vec::with_capacity(sig_len);
    push_left_padded(&mut out, r, half);
    assert(out@ =~= left_padded(r@, half as nat));
    push_left_padded(&mut out, s, half);
    out
}

/// The part of `bytes` that starts at its first non-zero byte, or at its
/// last byte if there is none.
pub fn trim_leading_zeros(bytes: &[u8]) -> (out: &[u8])
    ensures
        out@ == magnitude(bytes@),
        out@.len() <= bytes@.len(),
{
    let n: usize = bytes.len();
    let mut i: usize = 0;
    assert(bytes@.subrange(0, n as int) =~= bytes@);
    while n - i > 1 && bytes[i] == 0
        invariant
            i <= n,
            n == bytes.len(),
            magnitude(bytes@) == magnitude(bytes@.subrange(i as int, n as int)),
        decreases n - i,
    {
        proof {
            let rest = bytes@.subrange(i as int, n as int);
            assert(rest.drop_first() =~= bytes@.subrange(i + 1, n as int));
        }
        i += 1;
    }
    slice_subrange(bytes, i, n)
}

/// Splits a signature of `sig_len` bytes into the magnitudes of `r` and `s`.
/// A signature of any other length is refused before a byte of it is read.
pub fn decode_fixed<'a>(sig: &'a [u8], sig_len: usize) -> (parts: Result<(&'a [u8], &'a [u8]), Error>)
    ensures
        match parts {
            Ok((r, s)) => {
                &&& fixed_decoding(sig@, sig_len as nat) == Some((r@, s@))
                &&& r@.len() <= sig_len / 2
                &&& s@.len() <= sig_len - sig_len / 2
            },
            Err(e) => e is VerificationError && fixed_decoding(sig@, sig_len as nat) is None,
        },
{
    if sig.len() != sig_len {
        return Err(Error::VerificationError);
    }
    let half: usize = sig_len / 2;
    let r = trim_leading_zeros(slice_subrange(sig, 0, half));
    let s = trim_leading_zeros(slice_subrange(sig, half, sig_len));
    Ok((r, s))
}

/// A zero byte in front changes no value.
proof fn lemma_leading_zero_value(bytes: Seq<u8>)
    ensures
        be_value(seq![0u8] + bytes) == be_value(bytes),
    decreases bytes.len(),
{
    let padded = seq![0u8] + bytes;
    if bytes.len() == 0 {
        assert(padded.drop_last() =~= Seq::<u8>::empty());
        assert(be_value(padded.drop_last()) == 0);
    } else {
        assert(padded.drop_last() =~= seq![0u8] + bytes.drop_last());
        lemma_leading_zero_value(bytes.drop_last());
    }
}

/// Stripping leading zero bytes changes no value.
proof fn lemma_magnitude_value(bytes: Seq<u8>)
    ensures
        be_value(magnitude(bytes)) == be_value(bytes),
    decreases bytes.len(),
{
    if bytes.len() > 1 && bytes[0] == 0 {
        assert(bytes =~= seq![0u8] + bytes.drop_first());
        lemma_leading_zero_value(bytes.drop_first());
        lemma_magnitude_value(bytes.drop_first());
    }
}

/// What is left after stripping is in shortest form.
proof fn lemma_magnitude_canonical(bytes: Seq<u8>)
    requires
        bytes.len() >= 1,
    ensures
        is_canonical(magnitude(bytes)),
    decreases bytes.len(),
{
    if bytes.len() > 1 && bytes[0] == 0 {
        lemma_magnitude_canonical(bytes.drop_first());
    }
}

/// Zero bytes in front change no value.
proof fn lemma_padded_value(bytes: Seq<u8>, pad: nat)
    ensures
        be_value(zeros(pad) + bytes) == be_value(bytes),
    decreases pad,
{
    if pad == 0 {
        assert(zeros(pad) + bytes =~= bytes);
    } else {
        let shorter = zeros((pad - 1) as nat) + bytes;
        assert(zeros(pad) + bytes =~= seq![0u8] + shorter);
        lemma_leading_zero_value(shorter);
        lemma_padded_value(bytes, (pad - 1) as nat);
    }
}

/// Stripping removes the padding in front of a magnitude in shortest form,
/// and nothing else.
proof fn lemma_magnitude_of_padded(bytes: Seq<u8>, pad: nat)
    requires
        is_canonical(bytes),
    ensures
        magnitude(zeros(pad) + bytes) == bytes,
    decreases pad,
{
    let padded = zeros(pad) + bytes;
    if pad == 0 {
        assert(padded =~= bytes);
    } else {
        assert(padded.drop_first() =~= zeros((pad - 1) as nat) + bytes);
        lemma_magnitude_of_padded(bytes, (pad - 1) as nat);
    }
}

/// Decoding an encoded signature gives back `r` and `s`, byte for byte,
/// whenever both are magnitudes in shortest form that fit into half the
/// signature.
pub proof fn lemma_decode_inverts_encode(r: Seq<u8>, s: Seq<u8>, sig_len: nat)
    requires
        sig_len % 2 == 0,
        r.len() <= sig_len / 2,
        s.len() <= sig_len / 2,
        is_canonical(r),
        is_canonical(s),
    ensures
        fixed_decoding(fixed_encoding(r, s, sig_len), sig_len) == Some((r, s)),
{
    let half = sig_len / 2;
    let sig = fixed_encoding(r, s, sig_len);
    assert(sig.subrange(0, half as int) =~= left_padded(r, half));
    assert(sig.subrange(half as int, sig_len as int) =~= left_padded(s, half));
    lemma_magnitude_of_padded(r, (half - r.len()) as nat);
    lemma_magnitude_of_padded(s, (half - s.len()) as nat);
}

/// Decoding an encoded signature gives back the numbers `r` and `s`,
/// whatever bytes they were written with, as magnitudes in shortest form.
pub proof fn lemma_decode_keeps_values(r: Seq<u8>, s: Seq<u8>, sig_len: nat)
    requires
        sig_len % 2 == 0,
        sig_len >= 2,
        r.len() <= sig_len / 2,
        s.len() <= sig_len / 2,
    ensures
        fixed_decoding(fixed_encoding(r, s, sig_len), sig_len) matches Some((r2, s2)) && {
            &&& be_value(r2) == be_value(r)
            &&& be_value(s2) == be_value(s)
            &&& is_canonical(r2)
            &&& is_canonical(s2)
        },
{
    let half = sig_len / 2;
    let sig = fixed_encoding(r, s, sig_len);
    assert(sig.subrange(0, half as int) =~= left_padded(r, half));
    assert(sig.subrange(half as int, sig_len as int) =~= left_padded(s, half));
    lemma_padded_value(r, (half - r.len()) as nat);
    lemma_padded_value(s, (half - s.len()) as nat);
    lemma_magnitude_value(left_padded(r, half));
    lemma_magnitude_value(left_padded(s, half));
    lemma_magnitude_canonical(left_padded(r, half));
    lemma_magnitude_canonical(left_padded(s, half));
}

} // verus!
