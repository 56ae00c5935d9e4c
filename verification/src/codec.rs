//! The payload values exchanged with the installed application — nothing, a
//! text, or a list of texts — and their exact byte encoding.  Decoding is
//! the inverse of encoding, so a value that comes back unchanged decodes to
//! itself.

use vstd::prelude::*;
use vstd::bytes::spec_u32_to_le_bytes;
use vstd::bytes::lemma_auto_spec_u32_to_from_le_bytes;
use crate::wire::spec_chunk;
use crate::wire::put_chunk;
use crate::wire::spec_take_chunk;
use crate::wire::take_chunk;
use crate::wire::lemma_take_chunk_after_put;
use crate::wire::put_u32;
use crate::wire::spec_take_u32;
use crate::wire::take_u32;
use crate::wire::lemma_take_u32_after_put;

verus! {

/// A payload value of the call protocol.
#[derive(Debug, PartialEq, Eq)]
pub enum PayloadValue {
    /// No argument: a bare query.
    Unit,
    /// One text, as UTF-8 bytes.
    Text(Vec<u8>),
    /// A list of texts, each as UTF-8 bytes.
    TextList(Vec<Vec<u8>>),
}

/// The mathematical contents of a `PayloadValue`.
pub ghost enum PayloadValueView {
    Unit,
    Text(Seq<u8>),
    TextList(Seq<Seq<u8>>),
}

/// The views of a list of byte strings.
pub open spec fn views_of(s: Seq<Vec<u8>>) -> Seq<Seq<u8>> {
    s.map_values(|v: Vec<u8>| v@)
}

impl View for PayloadValue {
    type V = PayloadValueView;

    open spec fn view(&self) -> PayloadValueView {
        match self {
            PayloadValue::Unit => PayloadValueView::Unit,
            PayloadValue::Text(t) => PayloadValueView::Text(t@),
            PayloadValue::TextList(items) => PayloadValueView::TextList(views_of(items@)),
        }
    }
}

impl PayloadValueView {
    /// Fits the wire format: every text and the list count fit a u32.
    pub open spec fn wf(self) -> bool {
        match self {
            PayloadValueView::Unit => true,
            PayloadValueView::Text(t) => t.len() <= u32::MAX,
            PayloadValueView::TextList(items) => items.len() <= u32::MAX && forall|i: int|
                0 <= i < items.len() ==> #[trigger] items[i].len() <= u32::MAX,
        }
    }
}

/// The encoding of a list of texts: one chunk per item, in order.
pub open spec fn spec_encode_items(items: Seq<Seq<u8>>) -> Seq<u8>
    decreases items.len(),
{
    if items.len() == 0 {
        Seq::empty()
    } else {
        spec_chunk(items[0]) + spec_encode_items(items.drop_first())
    }
}

/// The byte encoding of a payload value: a tag byte, then the contents.
pub open spec fn spec_encode_payload(v: PayloadValueView) -> Seq<u8> {
    match v {
        PayloadValueView::Unit => seq![0u8],
        PayloadValueView::Text(t) => seq![1u8] + spec_chunk(t),
        PayloadValueView::TextList(items) => seq![2u8] + spec_u32_to_le_bytes(items.len() as u32)
            + spec_encode_items(items),
    }
}

/// Parse `count` chunks of `b` starting at `pos`.
pub open spec fn spec_take_items(b: Seq<u8>, pos: int, count: int) -> Option<(Seq<Seq<u8>>, int)>
    decreases count,
{
    if count <= 0 {
        Some((Seq::empty(), pos))
    } else {
        match spec_take_chunk(b, pos) {
            None => None,
            Some((d, p)) => match spec_take_items(b, p, count - 1) {
                None => None,
                Some((rest, p2)) => Some((seq![d] + rest, p2)),
            },
        }
    }
}

/// What decoding payload bytes yields; the whole buffer must be consumed.
pub open spec fn spec_decode_payload(b: Seq<u8>) -> Option<PayloadValueView> {
    if b.len() == 0 {
        None
    } else if b[0] == 0 {
        if b.len() == 1 {
            Some(PayloadValueView::Unit)
        } else {
            None
        }
    } else if b[0] == 1 {
        match spec_take_chunk(b, 1) {
            None => None,
            Some((t, p)) => if p == b.len() {
                Some(PayloadValueView::Text(t))
            } else {
                None
            },
        }
    } else if b[0] == 2 {
        match spec_take_u32(b, 1) {
            None => None,
            Some((count, p)) => match spec_take_items(b, p, count as int) {
                None => None,
                Some((items, p2)) => if p2 == b.len() {
                    Some(PayloadValueView::TextList(items))
                } else {
                    None
                },
            },
        }
    } else {
        None
    }
}

/// Whether `v` fits the wire format.
pub fn payload_wf(v: &PayloadValue) -> (r: bool)
    ensures
        r == v@.wf(),
{
    match v {
        PayloadValue::Unit => true,
        PayloadValue::Text(t) => t.len() as u64 <= u32::MAX as u64,
        PayloadValue::TextList(items) => {
            if items.len() as u64 > u32::MAX as u64 {
                return false;
            }
            let mut i: usize = 0;
            while i < items.len()
                invariant
                    i <= items@.len(),
                    v@ == PayloadValueView::TextList(views_of(items@)),
                    items@.len() <= u32::MAX,
                    forall|t: int| 0 <= t < i ==> #[trigger] views_of(items@)[t].len()
                        <= u32::MAX,
                decreases items@.len() - i,
            {
                proof {
                    assert(views_of(items@)[i as int] == items@[i as int]@);
                }
                if items[i].len() as u64 > u32::MAX as u64 {
                    return false;
                }
                i = i + 1;
            }
            true
        },
    }
}

/// Appending one more item encodes as the encoding so far plus its chunk.
proof fn lemma_encode_items_snoc(s: Seq<Seq<u8>>, x: Seq<u8>)
    ensures
        spec_encode_items(s + seq![x]) == spec_encode_items(s) + spec_chunk(x),
    decreases s.len(),
{
    reveal_with_fuel(spec_encode_items, 3);
    let t = s + seq![x];
    if s.len() == 0 {
        assert(t[0] == x);
        assert(t.drop_first() =~= Seq::<Seq<u8>>::empty());
        assert(spec_encode_items(t) =~= spec_encode_items(s) + spec_chunk(x));
    } else {
        assert(t[0] == s[0]);
        assert(t.drop_first() =~= s.drop_first() + seq![x]);
        lemma_encode_items_snoc(s.drop_first(), x);
        assert(spec_encode_items(t) =~= spec_encode_items(s) + spec_chunk(x));
    }
}

/// Encode a payload value.
pub fn encode_payload(v: &PayloadValue) -> (r: Vec<u8>)
    requires
        v@.wf(),
    ensures
        r@ == spec_encode_payload(v@),
{
    let mut out: Vec<u8> = Vec::new();
    match v {
        PayloadValue::Unit => {
            out.push(0);
            proof {
                assert(out@ =~= spec_encode_payload(v@));
            }
        },
        PayloadValue::Text(t) => {
            out.push(1);
            put_chunk(&mut out, t);
            proof {
                assert(out@ =~= spec_encode_payload(v@));
            }
        },
        PayloadValue::TextList(items) => {
            out.push(2);
            put_u32(&mut out, items.len() as u32);
            let ghost header = seq![2u8] + spec_u32_to_le_bytes(items@.len() as u32);
            proof {
                assert(out@ =~= header + spec_encode_items(views_of(items@).subrange(0, 0)));
            }
            let mut i: usize = 0;
            while i < items.len()
                invariant
                    i <= items@.len(),
                    header == seq![2u8] + spec_u32_to_le_bytes(items@.len() as u32),
                    out@ == header + spec_encode_items(views_of(items@).subrange(0, i as int)),
                    forall|t: int| 0 <= t < items@.len() ==> #[trigger] views_of(items@)[t].len()
                        <= u32::MAX,
                decreases items@.len() - i,
            {
                proof {
                    assert(views_of(items@)[i as int] == items@[i as int]@);
                }
                put_chunk(&mut out, &items[i]);
                proof {
                    let pre = views_of(items@).subrange(0, i as int);
                    let post = views_of(items@).subrange(0, i + 1);
                    assert(post =~= pre + seq![items@[i as int]@]);
                    lemma_encode_items_snoc(pre, items@[i as int]@);
                    assert(out@ =~= header + spec_encode_items(post));
                }
                i = i + 1;
            }
            proof {
                assert(views_of(items@).subrange(0, items@.len() as int) =~= views_of(items@));
                assert(out@ =~= spec_encode_payload(v@));
            }
        },
    }
    out
}

/// Decode payload bytes; refuses exactly what `spec_decode_payload` refuses.
pub fn decode_payload(b: &Vec<u8>) -> (r: Option<PayloadValue>)
    ensures
        match r {
            Some(v) => spec_decode_payload(b@) == Some(v@),
            None => spec_decode_payload(b@) is None,
        },
{
    if b.len() == 0 {
        return None;
    }
    let tag = b[0];
    if tag == 0 {
        if b.len() == 1 {
            Some(PayloadValue::Unit)
        } else {
            None
        }
    } else if tag == 1 {
        match take_chunk(b, 1) {
            None => None,
            Some((t, p)) => {
                if p == b.len() {
                    Some(PayloadValue::Text(t))
                } else {
                    None
                }
            },
        }
    } else if tag == 2 {
        let (count, start) = match take_u32(b, 1) {
            None => {
                return None;
            },
            Some(cp) => cp,
        };
        let mut items: Vec<Vec<u8>> = Vec::new();
        let mut pos: usize = start;
        let mut i: u32 = 0;
        while i < count
            invariant
                i <= count,
                pos <= b@.len(),
                b@.len() > 0,
                b@[0] == 2,
                spec_take_u32(b@, 1) == Some((count, start as int)),
                match spec_take_items(b@, pos as int, count - i) {
                    Some(rp) => spec_take_items(b@, start as int, count as int) == Some(
                        (views_of(items@) + rp.0, rp.1),
                    ),
                    None => spec_take_items(b@, start as int, count as int) is None,
                },
            decreases count - i,
        {
            match take_chunk(b, pos) {
                None => {
                    return None;
                },
                Some((d, p2)) => {
                    proof {
                        assert(views_of(items@.push(d)) =~= views_of(items@) + seq![d@]);
                        if let Some(rp2) = spec_take_items(b@, p2 as int, count - i - 1) {
                            assert((views_of(items@) + seq![d@]) + rp2.0 =~= views_of(items@) + (
                            seq![d@] + rp2.0));
                        }
                    }
                    items.push(d);
                    pos = p2;
                },
            }
            i = i + 1;
        }
        proof {
            assert(views_of(items@) + Seq::<Seq<u8>>::empty() =~= views_of(items@));
        }
        if pos == b.len() {
            Some(PayloadValue::TextList(items))
        } else {
            None
        }
    } else {
        None
    }
}

/// Parsing `count` chunks where the items' encoding was written yields the
/// items back.
proof fn lemma_take_items_after_put(b: Seq<u8>, pos: int, items: Seq<Seq<u8>>)
    requires
        forall|i: int| 0 <= i < items.len() ==> #[trigger] items[i].len() <= u32::MAX,
        0 <= pos,
        pos + spec_encode_items(items).len() <= b.len(),
        b.subrange(pos, pos + spec_encode_items(items).len()) == spec_encode_items(items),
    ensures
        spec_take_items(b, pos, items.len() as int) == Some(
            (items, pos + spec_encode_items(items).len()),
        ),
    decreases items.len(),
{
    lemma_auto_spec_u32_to_from_le_bytes();
    if items.len() == 0 {
    } else {
        let x = items[0];
        let rest = items.drop_first();
        let enc = spec_encode_items(items);
        let encx = spec_chunk(x);
        let encr = spec_encode_items(rest);
        assert(enc == encx + encr);
        assert(encx.len() == 4 + x.len());
        assert(forall|j: int| 0 <= j < enc.len() ==> b[pos + j] == #[trigger] enc[j]) by {
            assert(forall|j: int|
                0 <= j < enc.len() ==> #[trigger] b.subrange(pos, pos + enc.len() as int)[j]
                    == b[pos + j]);
        }
        assert(b.subrange(pos, pos + encx.len() as int) =~= encx);
        lemma_take_chunk_after_put(b, pos, x);
        assert(forall|i: int|
            0 <= i < rest.len() ==> #[trigger] rest[i].len() <= u32::MAX) by {
            assert(forall|i: int| 0 <= i < rest.len() ==> rest[i] == #[trigger] items[i + 1]);
        }
        assert forall|i: int| 0 <= i < encr.len() implies b[pos + encx.len() + i] == encr[i] by {
            assert(enc[encx.len() + i] == encr[i]);
            assert(b[pos + (encx.len() + i)] == enc[encx.len() + i]);
        }
        assert(b.subrange(pos + encx.len() as int, pos + encx.len() + encr.len()) =~= encr);
        lemma_take_items_after_put(b, pos + encx.len() as int, rest);
        assert(seq![x] + rest =~= items);
    }
}

/// A payload value decodes back from its own encoding: the round trip of
/// encode, carry, and decode is the identity.
pub proof fn lemma_payload_round_trip(v: PayloadValueView)
    requires
        v.wf(),
    ensures
        spec_decode_payload(spec_encode_payload(v)) == Some(v),
{
    lemma_auto_spec_u32_to_from_le_bytes();
    match v {
        PayloadValueView::Unit => {
            let b = spec_encode_payload(v);
            assert(b[0] == 0);
        },
        PayloadValueView::Text(t) => {
            let b = spec_encode_payload(v);
            assert(b[0] == 1);
            assert(b.subrange(1, 1 + 4 + t.len() as int) =~= spec_chunk(t));
            lemma_take_chunk_after_put(b, 1, t);
            assert(b.len() == 1 + 4 + t.len());
        },
        PayloadValueView::TextList(items) => {
            let cnt = spec_u32_to_le_bytes(items.len() as u32);
            let enc = spec_encode_items(items);
            let b = spec_encode_payload(v);
            assert(b =~= seq![2u8] + cnt + enc);
            assert(b[0] == 2);
            assert(b.subrange(1, 5) =~= cnt);
            lemma_take_u32_after_put(b, 1, items.len() as u32);
            assert(b.subrange(5, 5 + enc.len() as int) =~= enc);
            lemma_take_items_after_put(b, 5, items);
            assert(b.len() == 5 + enc.len());
        },
    }
}

} // verus!
