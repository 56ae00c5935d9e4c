//! Byte-level framing shared by the persisted configuration document and the
//! call envelopes: length-prefixed chunks, little-endian integers, and a
//! decimal rendering for port numbers.

use vstd::prelude::*;
use vstd::bytes::spec_u32_to_le_bytes;
use vstd::bytes::spec_u32_from_le_bytes;
use vstd::bytes::lemma_auto_spec_u32_to_from_le_bytes;
use vstd::bytes::u32_to_le_bytes;
use vstd::bytes::u32_from_le_bytes;
use vstd::bytes::spec_u64_to_le_bytes;
use vstd::bytes::spec_u64_from_le_bytes;
use vstd::bytes::lemma_auto_spec_u64_to_from_le_bytes;
use vstd::bytes::u64_to_le_bytes;
use vstd::bytes::u64_from_le_bytes;
use vstd::slice::slice_subrange;
use vstd::slice::slice_to_vec;

verus! {

/// Append `data` to `out`.
pub fn append_bytes(out: &mut Vec<u8>, data: &[u8])
    ensures
        final(out)@ == old(out)@ + data@,
{
    let mut i: usize = 0;
    while i < data.len()
        invariant
            i <= data@.len(),
            out@ == old(out)@ + data@.subrange(0, i as int),
        decreases data@.len() - i,
    {
        let b = *vstd::slice::slice_index_get(data, i);
        out.push(b);
        proof {
            assert(out@ =~= old(out)@ + data@.subrange(0, i + 1));
        }
        i = i + 1;
    }
    proof {
        assert(data@.subrange(0, data@.len() as int) =~= data@);
    }
}

/// A length-prefixed chunk: four little-endian length bytes, then the data.
pub open spec fn spec_chunk(data: Seq<u8>) -> Seq<u8> {
    spec_u32_to_le_bytes(data.len() as u32) + data
}

/// Append one length-prefixed chunk to `out`.
pub fn put_chunk(out: &mut Vec<u8>, data: &Vec<u8>)
    requires
        data@.len() <= u32::MAX,
    ensures
        final(out)@ == old(out)@ + spec_chunk(data@),
{
    proof {
        lemma_auto_spec_u32_to_from_le_bytes();
    }
    let len_bytes = u32_to_le_bytes(data.len() as u32);
    append_bytes(out, len_bytes.as_slice());
    append_bytes(out, data.as_slice());
    proof {
        assert(out@ =~= old(out)@ + spec_chunk(data@));
    }
}

/// Parse one length-prefixed chunk at `pos`: the data and the position just
/// after it, or `None` if the buffer is too short.
pub open spec fn spec_take_chunk(b: Seq<u8>, pos: int) -> Option<(Seq<u8>, int)>
    recommends
        0 <= pos,
{
    if pos + 4 <= b.len() {
        let n = spec_u32_from_le_bytes(b.subrange(pos, pos + 4)) as int;
        if pos + 4 + n <= b.len() {
            Some((b.subrange(pos + 4, pos + 4 + n), pos + 4 + n))
        } else {
            None
        }
    } else {
        None
    }
}

/// Parse one length-prefixed chunk of `b` at `pos`.
pub fn take_chunk(b: &Vec<u8>, pos: usize) -> (r: Option<(Vec<u8>, usize)>)
    requires
        pos <= b@.len(),
    ensures
        match r {
            Some(d_p) => spec_take_chunk(b@, pos as int) == Some((d_p.0@, d_p.1 as int)),
            None => spec_take_chunk(b@, pos as int) is None,
        },
{
    if b.len() - pos >= 4 {
        let len_slice = slice_subrange(b.as_slice(), pos, pos + 4);
        let n32 = u32_from_le_bytes(len_slice);
        if n32 as u64 <= (b.len() - (pos + 4)) as u64 {
            let n = n32 as usize;
            let data_slice = slice_subrange(b.as_slice(), pos + 4, pos + 4 + n);
            let data = slice_to_vec(data_slice);
            Some((data, pos + 4 + n))
        } else {
            None
        }
    } else {
        None
    }
}

/// Parsing a chunk at `pos` of a buffer that carries `spec_chunk(d)` there
/// yields `d` and the position just after the chunk.
pub proof fn lemma_take_chunk_after_put(b: Seq<u8>, pos: int, d: Seq<u8>)
    requires
        d.len() <= u32::MAX,
        0 <= pos,
        pos + 4 + d.len() <= b.len(),
        b.subrange(pos, pos + 4 + d.len()) == spec_chunk(d),
    ensures
        spec_take_chunk(b, pos) == Some((d, pos + 4 + d.len())),
{
    lemma_auto_spec_u32_to_from_le_bytes();
    let whole = b.subrange(pos, pos + 4 + d.len());
    assert(b.subrange(pos, pos + 4) =~= whole.subrange(0, 4));
    assert(whole.subrange(0int, 4int) =~= spec_u32_to_le_bytes(d.len() as u32));
    assert(spec_u32_from_le_bytes(b.subrange(pos, pos + 4)) == d.len() as u32);
    assert(b.subrange(pos + 4, pos + 4 + d.len()) =~= whole.subrange(4, 4 + d.len() as int));
    assert(whole.subrange(4, 4 + d.len() as int) =~= d);
}

/// Append eight little-endian bytes of `x` to `out`.
pub fn put_u64(out: &mut Vec<u8>, x: u64)
    ensures
        final(out)@ == old(out)@ + spec_u64_to_le_bytes(x),
{
    let bs = u64_to_le_bytes(x);
    append_bytes(out, bs.as_slice());
}

/// Parse a little-endian u64 at `pos`, or `None` if the buffer is too short.
pub open spec fn spec_take_u64(b: Seq<u8>, pos: int) -> Option<(u64, int)>
    recommends
        0 <= pos,
{
    if pos + 8 <= b.len() {
        Some((spec_u64_from_le_bytes(b.subrange(pos, pos + 8)), pos + 8))
    } else {
        None
    }
}

/// Parse a little-endian u64 of `b` at `pos`.
pub fn take_u64(b: &Vec<u8>, pos: usize) -> (r: Option<(u64, usize)>)
    requires
        pos <= b@.len(),
    ensures
        match r {
            Some(x_p) => spec_take_u64(b@, pos as int) == Some((x_p.0, x_p.1 as int)),
            None => spec_take_u64(b@, pos as int) is None,
        },
{
    if b.len() - pos >= 8 {
        let xs = slice_subrange(b.as_slice(), pos, pos + 8);
        let x = u64_from_le_bytes(xs);
        Some((x, pos + 8))
    } else {
        None
    }
}

/// Parsing a u64 at `pos` of a buffer that carries its eight little-endian
/// bytes there yields the value back.
pub proof fn lemma_take_u64_after_put(b: Seq<u8>, pos: int, x: u64)
    requires
        0 <= pos,
        pos + 8 <= b.len(),
        b.subrange(pos, pos + 8) == spec_u64_to_le_bytes(x),
    ensures
        spec_take_u64(b, pos) == Some((x, pos + 8)),
{
    lemma_auto_spec_u64_to_from_le_bytes();
}

/// Append four little-endian bytes of `x` to `out`.
pub fn put_u32(out: &mut Vec<u8>, x: u32)
    ensures
        final(out)@ == old(out)@ + spec_u32_to_le_bytes(x),
{
    let bs = u32_to_le_bytes(x);
    append_bytes(out, bs.as_slice());
}

/// Parse a little-endian u32 at `pos`, or `None` if the buffer is too short.
pub open spec fn spec_take_u32(b: Seq<u8>, pos: int) -> Option<(u32, int)>
    recommends
        0 <= pos,
{
    if pos + 4 <= b.len() {
        Some((spec_u32_from_le_bytes(b.subrange(pos, pos + 4)), pos + 4))
    } else {
        None
    }
}

/// Parse a little-endian u32 of `b` at `pos`.
pub fn take_u32(b: &Vec<u8>, pos: usize) -> (r: Option<(u32, usize)>)
    requires
        pos <= b@.len(),
    ensures
        match r {
            Some(x_p) => spec_take_u32(b@, pos as int) == Some((x_p.0, x_p.1 as int)),
            None => spec_take_u32(b@, pos as int) is None,
        },
{
    if b.len() - pos >= 4 {
        let xs = slice_subrange(b.as_slice(), pos, pos + 4);
        let x = u32_from_le_bytes(xs);
        Some((x, pos + 4))
    } else {
        None
    }
}

/// Parsing a u32 at `pos` of a buffer that carries its four little-endian
/// bytes there yields the value back.
pub proof fn lemma_take_u32_after_put(b: Seq<u8>, pos: int, x: u32)
    requires
        0 <= pos,
        pos + 4 <= b.len(),
        b.subrange(pos, pos + 4) == spec_u32_to_le_bytes(x),
    ensures
        spec_take_u32(b, pos) == Some((x, pos + 4)),
{
    lemma_auto_spec_u32_to_from_le_bytes();
    assert(spec_u32_to_le_bytes(x).len() == 4);
    assert(spec_u32_from_le_bytes(spec_u32_to_le_bytes(x)) == x);
}

/// Whether two byte strings hold the same bytes.
pub fn bytes_eq(a: &Vec<u8>, b: &Vec<u8>) -> (r: bool)
    ensures
        r == (a@ == b@),
{
    if a.len() != b.len() {
        return false;
    }
    let mut i: usize = 0;
    while i < a.len()
        invariant
            a@.len() == b@.len(),
            i <= a@.len(),
            forall|t: int| 0 <= t < i ==> a@[t] == b@[t],
        decreases a@.len() - i,
    {
        if a[i] != b[i] {
            return false;
        }
        i = i + 1;
    }
    proof {
        assert(a@ =~= b@);
    }
    true
}

/// The decimal digits of `n`, most significant first, without leading zeros.
pub open spec fn spec_decimal(n: nat) -> Seq<u8>
    decreases n,
{
    if n < 10 {
        seq![(48 + n) as u8]
    } else {
        spec_decimal(n / 10) + seq![(48 + n % 10) as u8]
    }
}

/// Every byte of `s` is an ASCII digit.
pub open spec fn spec_all_digits(s: Seq<u8>) -> bool {
    forall|i: int| 0 <= i < s.len() ==> 48 <= #[trigger] s[i] <= 57
}

/// The value of a digit string, most significant digit first.
pub open spec fn spec_decimal_value(s: Seq<u8>) -> int
    decreases s.len(),
{
    if s.len() == 0 {
        0
    } else {
        spec_decimal_value(s.drop_last()) * 10 + s.last() - 48
    }
}

/// A canonical decimal: nonempty, digits only, no leading zero.
pub open spec fn spec_canonical_decimal(s: Seq<u8>) -> bool {
    &&& s.len() >= 1
    &&& spec_all_digits(s)
    &&& (s.len() == 1 || s[0] != 48)
}

/// What parsing a decimal port number yields: the value of a canonical digit
/// string when it fits a u16, nothing otherwise.
pub open spec fn spec_parse_decimal_u16(s: Seq<u8>) -> Option<u16> {
    if spec_canonical_decimal(s) && spec_decimal_value(s) <= 65535 {
        Some(spec_decimal_value(s) as u16)
    } else {
        None
    }
}

proof fn lemma_decimal_value_nonneg(s: Seq<u8>)
    requires
        spec_all_digits(s),
    ensures
        spec_decimal_value(s) >= 0,
    decreases s.len(),
{
    if s.len() > 0 {
        lemma_decimal_value_nonneg(s.drop_last());
    }
}

/// The value of a digit string is at least the value of any of its prefixes.
proof fn lemma_value_prefix_le(s: Seq<u8>, k: int)
    requires
        spec_all_digits(s),
        0 <= k <= s.len(),
    ensures
        spec_decimal_value(s.subrange(0, k)) <= spec_decimal_value(s),
    decreases s.len(),
{
    if k == s.len() {
        assert(s.subrange(0, k) =~= s);
    } else {
        let t = s.drop_last();
        lemma_value_prefix_le(t, k);
        assert(s.subrange(0, k) =~= t.subrange(0, k));
        lemma_decimal_value_nonneg(t);
    }
}

/// Rendering yields a canonical digit string whose value is `n`.
pub proof fn lemma_value_of_decimal(n: nat)
    ensures
        spec_all_digits(spec_decimal(n)),
        spec_decimal_value(spec_decimal(n)) == n,
        spec_decimal(n).len() >= 1,
        n >= 10 ==> spec_decimal(n)[0] != 48,
    decreases n,
{
    if n < 10 {
        let s = spec_decimal(n);
        assert(s.len() == 1);
        assert(s.drop_last() =~= Seq::<u8>::empty());
        assert(spec_decimal_value(s.drop_last()) == 0);
        assert(s.last() == (48 + n) as u8);
        assert(spec_decimal_value(s) == n);
    } else {
        lemma_value_of_decimal(n / 10);
        let a = spec_decimal(n / 10);
        let s = spec_decimal(n);
        assert(s.drop_last() =~= a);
        assert(s.last() == (48 + n % 10) as u8);
        assert(spec_decimal_value(s) == spec_decimal_value(a) * 10 + n % 10);
        vstd::arithmetic::div_mod::lemma_fundamental_div_mod(n as int, 10);
        if n / 10 < 10 {
            assert(a[0] == (48 + n / 10) as u8);
            assert(n / 10 >= 1);
        }
        assert(s[0] == a[0]);
    }
}

/// A rendered port number parses back to itself.
pub proof fn lemma_decimal_round_trip(n: u16)
    ensures
        spec_parse_decimal_u16(spec_decimal(n as nat)) == Some(n),
{
    lemma_value_of_decimal(n as nat);
    let s = spec_decimal(n as nat);
    if n < 10 {
        assert(s.len() == 1);
    }
}

/// Render `n` as decimal digits.
pub fn render_decimal_u16(n: u16) -> (r: Vec<u8>)
    ensures
        r@ == spec_decimal(n as nat),
    decreases n,
{
    if n < 10 {
        let mut v: Vec<u8> = Vec::new();
        v.push(48 + n as u8);
        proof {
            assert(v@ =~= spec_decimal(n as nat));
        }
        v
    } else {
        let mut v = render_decimal_u16(n / 10);
        v.push(48 + (n % 10) as u8);
        proof {
            assert(v@ =~= spec_decimal(n as nat));
        }
        v
    }
}

/// Parse a decimal port number; refuses exactly what
/// `spec_parse_decimal_u16` refuses.
pub fn parse_decimal_u16(s: &Vec<u8>) -> (r: Option<u16>)
    ensures
        r == spec_parse_decimal_u16(s@),
{
    if s.len() == 0 {
        return None;
    }
    if s.len() > 1 && s[0] == 48 {
        return None;
    }
    let mut acc: u32 = 0;
    let mut i: usize = 0;
    while i < s.len()
        invariant
            i <= s@.len(),
            s@.len() >= 1,
            s@.len() == 1 || s@[0] != 48,
            acc <= 65535,
            acc == spec_decimal_value(s@.subrange(0, i as int)),
            spec_all_digits(s@.subrange(0, i as int)),
        decreases s@.len() - i,
    {
        let c = s[i];
        if c < 48 || c > 57 {
            proof {
                assert(!spec_all_digits(s@));
            }
            return None;
        }
        let d = (c - 48) as u32;
        proof {
            assert(s@.subrange(0, i + 1).drop_last() =~= s@.subrange(0, i as int));
            assert(s@.subrange(0, i + 1).last() == c);
        }
        acc = acc * 10 + d;
        if acc > 65535 {
            proof {
                if spec_all_digits(s@) {
                    lemma_value_prefix_le(s@, i + 1);
                }
            }
            return None;
        }
        i = i + 1;
    }
    proof {
        assert(s@.subrange(0, s@.len() as int) =~= s@);
    }
    Some(acc as u16)
}

} // verus!
