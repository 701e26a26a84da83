//! Lossy UTF-8 decoding, priced before it is performed.
//!
//! Container metadata is file-controlled bytes that nothing validates, so
//! it is read the way `String::from_utf8_lossy` reads it: every maximal
//! invalid subpart becomes one `U+FFFD`. A value has to be charged against
//! a budget *before* anything is allocated for it, so the decoded length is
//! computed first ([`lossy_len`]) and the text is built afterwards
//! ([`lossy_text`]), and the two are tied to one specification,
//! [`lossy_utf8`].
use vstd::prelude::*;
use vstd::utf8::*;
use std::collections::TryReserveError;
use crate::reserve::reserve_exact;

verus! {

broadcast use vstd::seq_lib::group_seq_properties;

/// How many bytes the sequence led by `b` occupies, or 0 when `b` cannot
/// lead a sequence (a continuation byte, `C0`/`C1`, or `F5`..`FF`).
pub open spec fn lead_width(b: u8) -> int {
    if b < 0x80 {
        1
    } else if 0xC2 <= b <= 0xDF {
        2
    } else if 0xE0 <= b <= 0xEF {
        3
    } else if 0xF0 <= b <= 0xF4 {
        4
    } else {
        0
    }
}

/// Whether `b` may stand at position `i` (1, 2 or 3) of the sequence led by
/// `lead`. The second byte carries the range restrictions that rule out
/// overlong forms, surrogates and scalars past `U+10FFFF`.
pub open spec fn fits_at(lead: u8, i: int, b: u8) -> bool {
    if i == 1 {
        if lead == 0xE0 {
            0xA0 <= b <= 0xBF
        } else if lead == 0xED {
            0x80 <= b <= 0x9F
        } else if lead == 0xF0 {
            0x90 <= b <= 0xBF
        } else if lead == 0xF4 {
            0x80 <= b <= 0x8F
        } else {
            0x80 <= b <= 0xBF
        }
    } else {
        0x80 <= b <= 0xBF
    }
}

/// Whether position `i` of `s` continues the sequence `s[0]` leads.
pub open spec fn continues(s: Seq<u8>, i: int) -> bool {
    i < s.len() && fits_at(s[0], i, s[i])
}

/// The first chunk of a non-empty byte string: whether it is one
/// well-formed character, and how many bytes it spans.
///
/// An invalid chunk spans the bytes up to (not including) the first one
/// that breaks the sequence — or the rest of the input, when the input
/// ends inside a sequence. That is the "maximal subpart" rule
/// `String::from_utf8_lossy` replaces with a single `U+FFFD`.
pub open spec fn chunk(s: Seq<u8>) -> (bool, int) {
    let w = lead_width(s[0]);
    if w == 0 {
        (false, 1)
    } else if w == 1 {
        (true, 1)
    } else if !continues(s, 1) {
        (false, 1)
    } else if w == 2 {
        (true, 2)
    } else if !continues(s, 2) {
        (false, 2)
    } else if w == 3 {
        (true, 3)
    } else if !continues(s, 3) {
        (false, 3)
    } else {
        (true, 4)
    }
}

/// The UTF-8 encoding of `U+FFFD`.
pub open spec fn replacement() -> Seq<u8> {
    seq![0xEFu8, 0xBFu8, 0xBDu8]
}

/// The bytes `String::from_utf8_lossy` produces for `s`.
pub open spec fn lossy_utf8(s: Seq<u8>) -> Seq<u8>
    decreases s.len(),
{
    if s.len() == 0 {
        Seq::empty()
    } else {
        let (valid, n) = chunk(s);
        if 1 <= n <= s.len() {
            if valid {
                s.take(n) + lossy_utf8(s.skip(n))
            } else {
                replacement() + lossy_utf8(s.skip(n))
            }
        } else {
            Seq::empty()
        }
    }
}

/// A chunk spans at least one byte and never runs past the input.
pub proof fn lemma_chunk_bounds(s: Seq<u8>)
    requires
        s.len() > 0,
    ensures
        1 <= chunk(s).1 <= s.len(),
        chunk(s).1 <= 4,
        chunk(s).0 ==> chunk(s).1 == lead_width(s[0]),
{
}

/// The lossy decoding of `s` is one chunk's output followed by the lossy
/// decoding of what follows the chunk.
pub proof fn lemma_lossy_unfold(s: Seq<u8>)
    requires
        s.len() > 0,
    ensures
        lossy_utf8(s) == (if chunk(s).0 {
            s.take(chunk(s).1)
        } else {
            replacement()
        }) + lossy_utf8(s.skip(chunk(s).1)),
{
    lemma_chunk_bounds(s);
}

/// Decoding can at most triple the input: a replacement is three bytes
/// for at least one input byte, and a valid chunk is copied as it is.
pub proof fn lemma_lossy_len_bound(s: Seq<u8>)
    ensures
        lossy_utf8(s).len() <= 3 * s.len(),
    decreases s.len(),
{
    if s.len() > 0 {
        lemma_chunk_bounds(s);
        lemma_lossy_len_bound(s.skip(chunk(s).1));
    }
}

/// The characters `String::from_utf8_lossy` produces for `s`.
pub open spec fn spec_lossy_text(s: Seq<u8>) -> Seq<char> {
    decode_utf8(lossy_utf8(s))
}

/// A one-scalar sequence is valid UTF-8 when its first scalar is.
proof fn lemma_single_scalar(t: Seq<u8>)
    requires
        valid_first_scalar(t),
        length_of_first_scalar(t) == t.len(),
    ensures
        valid_utf8(t),
{
    let rest = pop_first_scalar(t);
    assert(rest.len() == 0);
    assert(rest =~= Seq::<u8>::empty());
    assert(valid_utf8(rest));
}

proof fn lemma_replacement_valid()
    ensures
        valid_utf8(replacement()),
{
    let r = replacement();
    assert(r[0] == 0xEFu8 && r[1] == 0xBFu8 && r[2] == 0xBDu8);
    assert(((((0xEFu8 & 0x0F) as u32) << 12) | (((0xBFu8 & 0x3f) as u32) << 6) | ((0xBDu8
        & 0x3f) as u32)) == 0xFFFDu32) by (bit_vector);
    assert(valid_first_scalar(r));
    lemma_single_scalar(r);
}

proof fn lemma_width_2(b0: u8, b1: u8)
    requires
        0xC2 <= b0 <= 0xDF,
        0x80 <= b1 <= 0xBF,
    ensures
        0x80 <= ((((b0 & 0x1F) as u32) << 6) | ((b1 & 0x3f) as u32)) < 0x800,
{
    assert(0x80 <= ((((b0 & 0x1F) as u32) << 6) | ((b1 & 0x3f) as u32)) < 0x800) by (bit_vector)
        requires
            0xC2 <= b0 <= 0xDF,
            0x80 <= b1 <= 0xBF,
    ;
}

proof fn lemma_width_3(b0: u8, b1: u8, b2: u8)
    requires
        0xE0 <= b0 <= 0xEF,
        0x80 <= b1 <= 0xBF,
        0x80 <= b2 <= 0xBF,
        b0 == 0xE0 ==> 0xA0 <= b1,
        b0 == 0xED ==> b1 <= 0x9F,
    ensures
        0x800 <= ((((b0 & 0x0F) as u32) << 12) | (((b1 & 0x3f) as u32) << 6) | ((b2
            & 0x3f) as u32)),
        !(0xD800 <= ((((b0 & 0x0F) as u32) << 12) | (((b1 & 0x3f) as u32) << 6) | ((b2
            & 0x3f) as u32)) <= 0xDFFF),
{
    assert(0x800 <= ((((b0 & 0x0F) as u32) << 12) | (((b1 & 0x3f) as u32) << 6) | ((b2
        & 0x3f) as u32)) && !(0xD800 <= ((((b0 & 0x0F) as u32) << 12) | (((b1 & 0x3f) as u32)
        << 6) | ((b2 & 0x3f) as u32)) <= 0xDFFF)) by (bit_vector)
        requires
            0xE0 <= b0 <= 0xEF,
            0x80 <= b1 <= 0xBF,
            0x80 <= b2 <= 0xBF,
            b0 == 0xE0 ==> 0xA0 <= b1,
            b0 == 0xED ==> b1 <= 0x9F,
    ;
}

proof fn lemma_width_4(b0: u8, b1: u8, b2: u8, b3: u8)
    requires
        0xF0 <= b0 <= 0xF4,
        0x80 <= b1 <= 0xBF,
        0x80 <= b2 <= 0xBF,
        0x80 <= b3 <= 0xBF,
        b0 == 0xF0 ==> 0x90 <= b1,
        b0 == 0xF4 ==> b1 <= 0x8F,
    ensures
        0x10000 <= ((((b0 & 0x07) as u32) << 18) | (((b1 & 0x3f) as u32) << 12) | (((b2
            & 0x3f) as u32) << 6) | ((b3 & 0x3f) as u32)) <= 0x10ffff,
{
    assert(0x10000 <= ((((b0 & 0x07) as u32) << 18) | (((b1 & 0x3f) as u32) << 12) | (((b2
        & 0x3f) as u32) << 6) | ((b3 & 0x3f) as u32)) <= 0x10ffff) by (bit_vector)
        requires
            0xF0 <= b0 <= 0xF4,
            0x80 <= b1 <= 0xBF,
            0x80 <= b2 <= 0xBF,
            0x80 <= b3 <= 0xBF,
            b0 == 0xF0 ==> 0x90 <= b1,
            b0 == 0xF4 ==> b1 <= 0x8F,
    ;
}

/// A chunk the decoder accepts as valid is one well-formed UTF-8 scalar.
proof fn lemma_valid_chunk_is_utf8(s: Seq<u8>)
    requires
        s.len() > 0,
        chunk(s).0,
    ensures
        valid_utf8(s.take(chunk(s).1)),
{
    lemma_chunk_bounds(s);
    let n = chunk(s).1;
    let t = s.take(n);
    assert(t.len() == n);
    assert(forall|k: int| 0 <= k < n ==> t[k] == s[k]);
    if n == 2 {
        lemma_width_2(s[0], s[1]);
    } else if n == 3 {
        assert(continues(s, 1) && continues(s, 2));
        lemma_width_3(s[0], s[1], s[2]);
    } else if n == 4 {
        assert(continues(s, 1) && continues(s, 2) && continues(s, 3));
        lemma_width_4(s[0], s[1], s[2], s[3]);
    }
    assert(valid_first_scalar(t));
    lemma_single_scalar(t);
}

/// One step of the decoder at offset `at`: the chunk there, and the
/// decoding of everything from `at` split at its end.
pub proof fn lemma_advance(b: Seq<u8>, at: int)
    requires
        0 <= at < b.len(),
    ensures
        1 <= chunk(b.skip(at)).1,
        at + chunk(b.skip(at)).1 <= b.len(),
        chunk(b.skip(at)).0 ==> b.skip(at).take(chunk(b.skip(at)).1) == b.subrange(
            at,
            at + chunk(b.skip(at)).1,
        ),
        lossy_utf8(b.skip(at)) == (if chunk(b.skip(at)).0 {
            b.subrange(at, at + chunk(b.skip(at)).1)
        } else {
            replacement()
        }) + lossy_utf8(b.skip(at + chunk(b.skip(at)).1)),
{
    let s = b.skip(at);
    lemma_chunk_bounds(s);
    lemma_lossy_unfold(s);
    let n = chunk(s).1;
    assert(s.skip(n) == b.skip(at + n));
    assert(s.take(n) == b.subrange(at, at + n));
}

/// Whatever the input, the lossy decoding is well-formed UTF-8.
pub proof fn lemma_lossy_is_utf8(s: Seq<u8>)
    ensures
        valid_utf8(lossy_utf8(s)),
    decreases s.len(),
{
    if s.len() > 0 {
        lemma_chunk_bounds(s);
        lemma_lossy_unfold(s);
        let n = chunk(s).1;
        lemma_lossy_is_utf8(s.skip(n));
        if chunk(s).0 {
            lemma_valid_chunk_is_utf8(s);
            valid_utf8_concat(s.take(n), lossy_utf8(s.skip(n)));
        } else {
            lemma_replacement_valid();
            valid_utf8_concat(replacement(), lossy_utf8(s.skip(n)));
        }
    } else {
        assert(valid_utf8(lossy_utf8(s)));
    }
}

/// **The price is the product.** The text [`lossy_text`] builds encodes
/// to exactly the bytes [`lossy_len`] counted, so its length is the price.
pub proof fn lemma_priced_exactly(s: Seq<u8>)
    ensures
        encode_utf8(spec_lossy_text(s)) == lossy_utf8(s),
        encode_utf8(spec_lossy_text(s)).len() == lossy_utf8(s).len(),
{
    lemma_lossy_is_utf8(s);
    decode_utf8_encode_utf8(lossy_utf8(s));
}

/// The chunk that starts at `at`, read from the slice.
fn chunk_at(bytes: &[u8], at: usize) -> (r: (bool, usize))
    requires
        at < bytes@.len(),
    ensures
        r.0 == chunk(bytes@.skip(at as int)).0,
        r.1 as int == chunk(bytes@.skip(at as int)).1,
{
    let ghost s = bytes@.skip(at as int);
    let len = bytes.len();
    let b0 = bytes[at];
    let w: usize = if b0 < 0x80 {
        1
    } else if 0xC2 <= b0 && b0 <= 0xDF {
        2
    } else if 0xE0 <= b0 && b0 <= 0xEF {
        3
    } else if 0xF0 <= b0 && b0 <= 0xF4 {
        4
    } else {
        0
    };
    assert(w as int == lead_width(s[0]));
    if w == 0 {
        return (false, 1);
    }
    if w == 1 {
        return (true, 1);
    }
    let mut i: usize = 1;
    while i < w
        invariant
            2 <= w <= 4,
            w as int == lead_width(s[0]),
            1 <= i <= w,
            s == bytes@.skip(at as int),
            at < bytes@.len(),
            len == bytes@.len(),
            b0 == s[0],
            forall|j: int| 1 <= j < i ==> continues(s, j),
        decreases w - i,
    {
        let fits = if i < len - at {
            let b = bytes[at + i];
            if i == 1 {
                if b0 == 0xE0 {
                    0xA0 <= b && b <= 0xBF
                } else if b0 == 0xED {
                    0x80 <= b && b <= 0x9F
                } else if b0 == 0xF0 {
                    0x90 <= b && b <= 0xBF
                } else if b0 == 0xF4 {
                    0x80 <= b && b <= 0x8F
                } else {
                    0x80 <= b && b <= 0xBF
                }
            } else {
                0x80 <= b && b <= 0xBF
            }
        } else {
            false
        };
        assert(fits == continues(s, i as int));
        if !fits {
            return (false, i);
        }
        i = i + 1;
    }
    (true, w)
}

/// Appends `bytes[from..from + n]` to `out`.
pub(crate) fn push_run(out: &mut Vec<u8>, bytes: &[u8], from: usize, n: usize)
    requires
        from + n <= bytes@.len(),
    ensures
        final(out)@ == old(out)@ + bytes@.subrange(from as int, from + n),
{
    let len = bytes.len();
    let mut k: usize = 0;
    while k < n
        invariant
            len == bytes@.len(),
            from + n <= len,
            k <= n,
            out@ == old(out)@ + bytes@.subrange(from as int, from + k),
        decreases n - k,
    {
        out.push(bytes[from + k]);
        k = k + 1;
        assert(out@ == old(out)@ + bytes@.subrange(from as int, from + k));
    }
}

/// The length `String::from_utf8_lossy` would produce for `bytes`,
/// **without producing it**.
///
/// The charge has to be the decoded size rather than the raw one — an
/// invalid byte becomes a three-byte `U+FFFD` — and it has to be known
/// before anything is allocated.
pub fn lossy_len(bytes: &[u8]) -> (r: usize)
    requires
        bytes@.len() <= usize::MAX / 3,
    ensures
        r as int == lossy_utf8(bytes@).len(),
{
    let len = bytes.len();
    let mut at: usize = 0;
    let mut total: usize = 0;
    proof {
        lemma_lossy_len_bound(bytes@);
        assert(bytes@.skip(0) == bytes@);
    }
    while at < len
        invariant
            len == bytes@.len(),
            len <= usize::MAX / 3,
            at <= len,
            total <= 3 * at,
            total + lossy_utf8(bytes@.skip(at as int)).len() == lossy_utf8(bytes@).len(),
        decreases len - at,
    {
        let (valid, n) = chunk_at(bytes, at);
        proof {
            lemma_advance(bytes@, at as int);
        }
        if valid {
            total = total + n;
        } else {
            total = total + 3;
        }
        at = at + n;
    }
    total
}

/// `String::from_utf8`: takes the bytes over as a `String` when they are
/// well-formed UTF-8, and answers `None` when they are not. The `String`
/// holds exactly the characters the bytes encode.
#[verifier::external_body]
fn string_from_utf8(bytes: Vec<u8>) -> (r: Option<String>)
    ensures
        r is Some <==> valid_utf8(bytes@),
        r matches Some(s) ==> s@ == decode_utf8(bytes@),
{
    String::from_utf8(bytes).ok()
}

/// Decodes measured bytes into owned text through one buffer reserved
/// **fallibly**, at the size [`lossy_len`] priced.
///
/// `decoded` is [`lossy_len`]'s answer for the same bytes, so the one
/// reservation is exact and nothing after it grows. A refusal from the
/// allocator is reported, never an abort.
pub fn lossy_text(bytes: &[u8], decoded: usize) -> (r: Result<String, TryReserveError>)
    requires
        decoded as int == lossy_utf8(bytes@).len(),
    ensures
        r matches Ok(text) ==> text@ == spec_lossy_text(bytes@),
        decoded == 0 ==> r is Ok,
{
    let mut buffer: Vec<u8> = Vec::new();
    match reserve_exact(&mut buffer, decoded) {
        Ok(()) => {},
        Err(e) => return Err(e),
    }
    let len = bytes.len();
    let mut at: usize = 0;
    proof {
        assert(bytes@.skip(0) == bytes@);
    }
    while at < len
        invariant
            len == bytes@.len(),
            at <= len,
            buffer@ + lossy_utf8(bytes@.skip(at as int)) == lossy_utf8(bytes@),
        decreases len - at,
    {
        let (valid, n) = chunk_at(bytes, at);
        proof {
            lemma_advance(bytes@, at as int);
        }
        let ghost before = buffer@;
        let ghost piece = if valid {
            bytes@.subrange(at as int, at + n)
        } else {
            replacement()
        };
        let ghost rest = lossy_utf8(bytes@.skip(at + n));
        if valid {
            push_run(&mut buffer, bytes, at, n);
        } else {
            buffer.push(0xEF);
            buffer.push(0xBF);
            buffer.push(0xBD);
        }
        proof {
            assert(buffer@ == before + piece);
            assert(before + (piece + rest) == (before + piece) + rest);
        }
        at = at + n;
    }
    proof {
        assert(bytes@.skip(len as int).len() == 0);
        assert(buffer@ == lossy_utf8(bytes@));
        lemma_lossy_is_utf8(bytes@);
    }
    match string_from_utf8(buffer) {
        Some(text) => Ok(text),
        None => {
            proof {
                assert(false);
            }
            Ok(String::new())
        },
    }
}

} // verus!
