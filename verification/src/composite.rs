//! Composite fields: logical values whose bits live in more than one
//! register, or in an irregular slice of a single register.
//!
//! Two families exist. A *uniform split* keeps a fixed-width value's
//! high bits in one register and its low bits in the next
//! (`split_value` / `combine_split_parts`). An *index-dependent split*
//! stores a 3-bit selector whose register and bit-range depend on a
//! runtime control-input index; it is described by an explicit table
//! (`spec_ssc1_segments`) of one or two bit segments per index, and a
//! generic gather/scatter routine works over such tables. Gather and
//! scatter are proved exact inverses, and scatter is proved to leave
//! every sibling bit in the touched registers untouched — the
//! read-modify-write discipline.

use crate::bits::{
    get_bits8, lemma_get_bits8_bound, lemma_get_set_trunc8, lemma_mask16_values,
    lemma_set_preserves_disjoint8, set_bits8, spec_get_bits8, spec_mask16, spec_mask8,
    spec_set_bits8,
};
use vstd::prelude::*;

verus! {

/// One contiguous run of bits inside a single register byte.
#[derive(Debug, Clone, Copy, PartialEq, Eq, Structural)]
pub struct BitSegment {
    /// Absolute register offset on the bus.
    pub offset: u8,
    /// Least-significant bit position of the run within the byte.
    pub lsb: u8,
    /// Number of bits in the run.
    pub width: u8,
}

/// A segment names a non-empty bit range that lies within one byte.
pub open spec fn seg_wf(s: BitSegment) -> bool {
    1 <= s.width && s.lsb + s.width <= 8
}

/// Every segment of the table row is well formed.
pub open spec fn segs_wf(segs: Seq<BitSegment>) -> bool {
    forall|i: int| 0 <= i < segs.len() ==> seg_wf(#[trigger] segs[i])
}

/// Combined width of all segments of a table row.
pub open spec fn total_width(segs: Seq<BitSegment>) -> int
    decreases segs.len(),
{
    if segs.len() == 0 {
        0
    } else {
        total_width(segs.drop_last()) + segs.last().width
    }
}

pub proof fn lemma_total_width_nonneg(segs: Seq<BitSegment>)
    ensures
        total_width(segs) >= 0,
    decreases segs.len(),
{
    if segs.len() > 0 {
        lemma_total_width_nonneg(segs.drop_last());
    }
}

/// The logical value held by the segments, most-significant segment
/// first: each step shifts the accumulator left by the next segment's
/// width and merges in that segment's bits.
pub open spec fn spec_gather(segs: Seq<BitSegment>, bytes: Seq<u8>) -> u16
    decreases segs.len(),
{
    if segs.len() == 0 {
        0u16
    } else {
        (spec_gather(segs.drop_last(), bytes.drop_last()) << segs.last().width) | (
        spec_get_bits8(bytes.last(), segs.last().lsb, segs.last().width) as u16)
    }
}

/// The register bytes after storing `v` into the segments: byte `i` is
/// `bytes[i]` with only segment `i`'s bit range replaced by the
/// matching chunk of `v`, least-significant chunk in the last segment.
pub open spec fn spec_scatter(segs: Seq<BitSegment>, bytes: Seq<u8>, v: u16) -> Seq<u8>
    decreases segs.len(),
{
    if segs.len() == 0 {
        Seq::empty()
    } else {
        spec_scatter(segs.drop_last(), bytes.drop_last(), v >> segs.last().width).push(
            spec_set_bits8(bytes.last(), segs.last().lsb, segs.last().width, v as u8),
        )
    }
}

pub proof fn lemma_scatter_len(segs: Seq<BitSegment>, bytes: Seq<u8>, v: u16)
    ensures
        spec_scatter(segs, bytes, v).len() == segs.len(),
    decreases segs.len(),
{
    if segs.len() > 0 {
        lemma_scatter_len(segs.drop_last(), bytes.drop_last(), v >> segs.last().width);
    }
}

/// A gathered value always fits in the combined width of its segments.
pub proof fn lemma_gather_bound(segs: Seq<BitSegment>, bytes: Seq<u8>)
    requires
        segs_wf(segs),
        total_width(segs) <= 16,
    ensures
        spec_gather(segs, bytes) <= spec_mask16(total_width(segs) as u8),
    decreases segs.len(),
{
    if segs.len() == 0 {
        assert(spec_mask16(0) == 0) by (bit_vector);
    } else {
        let s = segs.last();
        let w = s.width;
        lemma_total_width_nonneg(segs.drop_last());
        assert(seg_wf(segs[segs.len() - 1]));
        assert(segs_wf(segs.drop_last())) by {
            assert forall|i: int| 0 <= i < segs.drop_last().len() implies seg_wf(
                #[trigger] segs.drop_last()[i],
            ) by {
                assert(segs.drop_last()[i] == segs[i]);
            }
        }
        lemma_gather_bound(segs.drop_last(), bytes.drop_last());
        lemma_get_bits8_bound(bytes.last(), s.lsb, w);
        let tw: u8 = total_width(segs) as u8;
        let gp = spec_gather(segs.drop_last(), bytes.drop_last());
        let f = spec_get_bits8(bytes.last(), s.lsb, w);
        assert(((gp << w) | (f as u16)) <= spec_mask16(tw)) by (bit_vector)
            requires
                gp <= spec_mask16((tw - w) as u8),
                f <= spec_mask8(w),
                w <= 8,
                w <= tw,
                tw <= 16,
        ;
    }
}

/// Gather is the exact inverse of scatter: storing any value that fits
/// in the segments' combined width and reading the segments back yields
/// the value again, whatever the registers held before.
pub proof fn lemma_gather_scatter(segs: Seq<BitSegment>, bytes: Seq<u8>, v: u16)
    requires
        segs_wf(segs),
        bytes.len() == segs.len(),
        total_width(segs) <= 16,
        v <= spec_mask16(total_width(segs) as u8),
    ensures
        spec_gather(segs, spec_scatter(segs, bytes, v)) == v,
    decreases segs.len(),
{
    if segs.len() == 0 {
        assert(spec_mask16(0) == 0) by (bit_vector);
    } else {
        let s = segs.last();
        let w = s.width;
        let tw: u8 = total_width(segs) as u8;
        let vp: u16 = v >> w;
        assert(seg_wf(segs[segs.len() - 1]));
        lemma_total_width_nonneg(segs.drop_last());
        assert(segs_wf(segs.drop_last())) by {
            assert forall|i: int| 0 <= i < segs.drop_last().len() implies seg_wf(
                #[trigger] segs.drop_last()[i],
            ) by {
                assert(segs.drop_last()[i] == segs[i]);
            }
        }
        assert(vp <= spec_mask16((tw - w) as u8)) by (bit_vector)
            requires
                vp == v >> w,
                v <= spec_mask16(tw),
                w <= tw,
                tw <= 16,
        ;
        lemma_gather_scatter(segs.drop_last(), bytes.drop_last(), vp);
        let scat = spec_scatter(segs, bytes, v);
        lemma_scatter_len(segs, bytes, v);
        assert(scat.drop_last() =~= spec_scatter(segs.drop_last(), bytes.drop_last(), vp));
        assert(scat.last() == spec_set_bits8(bytes.last(), s.lsb, w, v as u8));
        lemma_get_set_trunc8(bytes.last(), s.lsb, w, v as u8);
        let f = spec_get_bits8(scat.last(), s.lsb, w);
        let g = spec_gather(segs, scat);
        assert(g == v) by (bit_vector)
            requires
                g == (vp << w) | (f as u16),
                f == (v as u8) & spec_mask8(w),
                vp == v >> w,
                w <= 8,
        ;
    }
}

/// Scatter follows the read-modify-write discipline: in every touched
/// register, each bit range disjoint from that register's segment keeps
/// its previous contents.
pub proof fn lemma_scatter_preserves_siblings(
    segs: Seq<BitSegment>,
    bytes: Seq<u8>,
    v: u16,
    i: int,
    lsb2: u8,
    width2: u8,
)
    requires
        segs_wf(segs),
        bytes.len() == segs.len(),
        0 <= i < segs.len(),
        lsb2 + width2 <= 8,
        segs[i].lsb + segs[i].width <= lsb2 || lsb2 + width2 <= segs[i].lsb,
    ensures
        spec_get_bits8(spec_scatter(segs, bytes, v)[i], lsb2, width2) == spec_get_bits8(
            bytes[i],
            lsb2,
            width2,
        ),
    decreases segs.len(),
{
    let s = segs.last();
    let vp: u16 = v >> s.width;
    lemma_scatter_len(segs, bytes, v);
    assert(seg_wf(segs[i]));
    if i == segs.len() - 1 {
        lemma_set_preserves_disjoint8(bytes[i], s.lsb, s.width, v as u8, lsb2, width2);
    } else {
        assert(segs_wf(segs.drop_last())) by {
            assert forall|j: int| 0 <= j < segs.drop_last().len() implies seg_wf(
                #[trigger] segs.drop_last()[j],
            ) by {
                assert(segs.drop_last()[j] == segs[j]);
            }
        }
        lemma_scatter_len(segs.drop_last(), bytes.drop_last(), vp);
        lemma_scatter_preserves_siblings(
            segs.drop_last(),
            bytes.drop_last(),
            vp,
            i,
            lsb2,
            width2,
        );
        assert(spec_scatter(segs, bytes, v)[i] == spec_scatter(
            segs.drop_last(),
            bytes.drop_last(),
            vp,
        )[i]);
    }
}

/// Each scattered byte depends only on its own register's previous
/// contents: element `i` of a scatter is the same whatever the other
/// registers held.
pub proof fn lemma_scatter_elementwise(
    segs: Seq<BitSegment>,
    bytes1: Seq<u8>,
    bytes2: Seq<u8>,
    v: u16,
    i: int,
)
    requires
        bytes1.len() == segs.len(),
        bytes2.len() == segs.len(),
        0 <= i < segs.len(),
        bytes1[i] == bytes2[i],
    ensures
        spec_scatter(segs, bytes1, v)[i] == spec_scatter(segs, bytes2, v)[i],
    decreases segs.len(),
{
    lemma_scatter_len(segs, bytes1, v);
    lemma_scatter_len(segs, bytes2, v);
    if i < segs.len() - 1 {
        let vp = v >> segs.last().width;
        lemma_scatter_len(segs.drop_last(), bytes1.drop_last(), vp);
        lemma_scatter_elementwise(segs.drop_last(), bytes1.drop_last(), bytes2.drop_last(), v
            >> segs.last().width, i);
    }
}

/// Reads the logical value out of one byte per segment, in table order.
pub fn gather(segs: &Vec<BitSegment>, bytes: &Vec<u8>) -> (v: u16)
    requires
        segs@.len() == bytes@.len(),
        segs_wf(segs@),
    ensures
        v == spec_gather(segs@, bytes@),
{
    let n = segs.len();
    let mut acc: u16 = 0;
    let mut i: usize = 0;
    while i < n
        invariant
            i <= n,
            n == segs@.len(),
            segs@.len() == bytes@.len(),
            segs_wf(segs@),
            acc == spec_gather(segs@.subrange(0, i as int), bytes@.subrange(0, i as int)),
        decreases n - i,
    {
        let s = segs[i];
        proof {
            assert(seg_wf(segs@[i as int]));
        }
        let field = get_bits8(bytes[i], s.lsb, s.width);
        acc = (acc << s.width) | (field as u16);
        proof {
            assert(segs@.subrange(0, i + 1).drop_last() =~= segs@.subrange(0, i as int));
            assert(bytes@.subrange(0, i + 1).drop_last() =~= bytes@.subrange(0, i as int));
        }
        i += 1;
    }
    proof {
        assert(segs@.subrange(0, n as int) =~= segs@);
        assert(bytes@.subrange(0, n as int) =~= bytes@);
    }
    acc
}

/// Computes the read-modify-write bytes that store `v` into the
/// segments: takes the current byte of each touched register, in table
/// order, and returns each with only its segment's bits replaced.
pub fn scatter(segs: &Vec<BitSegment>, bytes: &Vec<u8>, v: u16) -> (out: Vec<u8>)
    requires
        segs@.len() == bytes@.len(),
        segs_wf(segs@),
    ensures
        out@ == spec_scatter(segs@, bytes@, v),
        out@.len() == segs@.len(),
{
    let n = segs.len();
    let mut out: Vec<u8> = Vec::new();
    let mut j: usize = 0;
    while j < n
        invariant
            j <= n,
            n == segs@.len(),
            segs@.len() == bytes@.len(),
            out@ == bytes@.subrange(0, j as int),
        decreases n - j,
    {
        out.push(bytes[j]);
        proof {
            assert(bytes@.subrange(0, j + 1) =~= bytes@.subrange(0, j as int).push(
                bytes@[j as int],
            ));
        }
        j += 1;
    }
    proof {
        assert(bytes@.subrange(0, n as int) =~= bytes@);
        assert(segs@.subrange(0, n as int) =~= segs@);
        assert(out@.subrange(n as int, n as int) =~= Seq::<u8>::empty());
        assert(spec_scatter(segs@, bytes@, v).add(Seq::<u8>::empty()) =~= spec_scatter(
            segs@,
            bytes@,
            v,
        ));
    }
    let mut v_rem: u16 = v;
    let mut i: usize = n;
    while i > 0
        invariant
            i <= n,
            n == segs@.len(),
            segs@.len() == bytes@.len(),
            segs_wf(segs@),
            out@.len() == n,
            out@.subrange(0, i as int) == bytes@.subrange(0, i as int),
            spec_scatter(segs@, bytes@, v) == spec_scatter(
                segs@.subrange(0, i as int),
                bytes@.subrange(0, i as int),
                v_rem,
            ).add(out@.subrange(i as int, n as int)),
        decreases i,
    {
        let ghost old_out = out@;
        let ghost old_rem = v_rem;
        let s = segs[i - 1];
        proof {
            assert(seg_wf(segs@[i - 1]));
        }
        let b = out[i - 1];
        proof {
            assert(out@.subrange(0, i as int)[i - 1] == out@[i - 1]);
            assert(bytes@.subrange(0, i as int)[i - 1] == bytes@[i - 1]);
        }
        let updated = set_bits8(b, s.lsb, s.width, #[verifier::truncate] (v_rem as u8));
        out[i - 1] = updated;
        v_rem = v_rem >> s.width;
        i -= 1;
        proof {
            let ip = i as int;
            let sub_segs = segs@.subrange(0, ip + 1);
            let sub_bytes = bytes@.subrange(0, ip + 1);
            assert(sub_segs.drop_last() =~= segs@.subrange(0, ip));
            assert(sub_bytes.drop_last() =~= bytes@.subrange(0, ip));
            assert(sub_segs.last() == segs@[ip]);
            assert(sub_bytes.last() == bytes@[ip]);
            assert(spec_scatter(sub_segs, sub_bytes, old_rem) == spec_scatter(
                segs@.subrange(0, ip),
                bytes@.subrange(0, ip),
                v_rem,
            ).push(updated));
            assert(out@.subrange(0, ip) =~= bytes@.subrange(0, ip)) by {
                assert forall|k: int| 0 <= k < ip implies out@.subrange(0, ip)[k] == bytes@.subrange(
                    0,
                    ip,
                )[k] by {
                    assert(out@[k] == old_out[k]);
                    assert(old_out.subrange(0, ip + 1)[k] == old_out[k]);
                }
            }
            assert(spec_scatter(segs@.subrange(0, ip), bytes@.subrange(0, ip), v_rem).push(
                updated,
            ).add(old_out.subrange(ip + 1, n as int)) =~= spec_scatter(
                segs@.subrange(0, ip),
                bytes@.subrange(0, ip),
                v_rem,
            ).add(out@.subrange(ip, n as int)));
        }
    }
    proof {
        assert(out@.subrange(0, n as int) =~= out@);
        assert(spec_scatter(segs@.subrange(0, 0), bytes@.subrange(0, 0), v_rem).add(
            out@.subrange(0, n as int),
        ) =~= out@);
    }
    out
}

/// Performs segment `i`'s share of a scatter on that register's byte
/// alone: returns `byte` with only the segment's bit range replaced by
/// its chunk of `v`. Equal to element `i` of the full scatter whatever
/// the other registers hold, so each touched register can get its own
/// independent read-modify-write cycle.
pub fn scatter_single(segs: &Vec<BitSegment>, i: usize, byte: u8, v: u16) -> (out: u8)
    requires
        segs_wf(segs@),
        i < segs@.len(),
    ensures
        forall|bytes: Seq<u8>|
            bytes.len() == segs@.len() && bytes[i as int] == byte ==> out == spec_scatter(
                segs@,
                bytes,
                v,
            )[i as int],
{
    let n = segs.len();
    let mut stand_in: Vec<u8> = Vec::new();
    let mut j: usize = 0;
    while j < n
        invariant
            j <= n,
            stand_in@.len() == j,
            i < j ==> stand_in@[i as int] == byte,
        decreases n - j,
    {
        stand_in.push(
            if j == i {
                byte
            } else {
                0
            },
        );
        j += 1;
    }
    let full = scatter(segs, &stand_in, v);
    proof {
        assert forall|bytes: Seq<u8>|
            bytes.len() == segs@.len() && bytes[i as int] == byte implies full@[i as int]
            == spec_scatter(segs@, bytes, v)[i as int] by {
            lemma_scatter_elementwise(segs@, bytes, stand_in@, v, i as int);
        }
    }
    full[i]
}

/// The table of the index-dependent spread-spectrum selector SSC1: for
/// each control-input index, the one or two register bit segments that
/// hold its 3-bit value, most-significant segment first. Indices 5 and
/// 2 split across adjacent registers (2+1 and 1+2 bits); every other
/// index lies wholly inside one register.
pub open spec fn spec_ssc1_segments(index: u8) -> Seq<BitSegment> {
    if index == 7 {
        seq![BitSegment { offset: 0x10, lsb: 5, width: 3 }]
    } else if index == 6 {
        seq![BitSegment { offset: 0x10, lsb: 2, width: 3 }]
    } else if index == 5 {
        seq![
            BitSegment { offset: 0x10, lsb: 0, width: 2 },
            BitSegment { offset: 0x11, lsb: 7, width: 1 },
        ]
    } else if index == 4 {
        seq![BitSegment { offset: 0x11, lsb: 4, width: 3 }]
    } else if index == 3 {
        seq![BitSegment { offset: 0x11, lsb: 1, width: 3 }]
    } else if index == 2 {
        seq![
            BitSegment { offset: 0x11, lsb: 0, width: 1 },
            BitSegment { offset: 0x12, lsb: 6, width: 2 },
        ]
    } else if index == 1 {
        seq![BitSegment { offset: 0x12, lsb: 3, width: 3 }]
    } else {
        seq![BitSegment { offset: 0x12, lsb: 0, width: 3 }]
    }
}

/// Every row of the SSC1 table is well formed: one or two segments,
/// three bits in all, register offsets inside the PLL1 bank and in
/// ascending order.
pub proof fn lemma_ssc1_table(index: u8)
    requires
        index < 8,
    ensures
        segs_wf(spec_ssc1_segments(index)),
        total_width(spec_ssc1_segments(index)) == 3,
        1 <= spec_ssc1_segments(index).len() <= 2,
        forall|i: int|
            0 <= i < spec_ssc1_segments(index).len() ==> 0x10 <= (
            #[trigger] spec_ssc1_segments(index)[i]).offset <= 0x12,
        spec_ssc1_segments(index).len() == 2 ==> spec_ssc1_segments(index)[0].offset + 1
            == spec_ssc1_segments(index)[1].offset,
{
    reveal_with_fuel(total_width, 3);
    let t = spec_ssc1_segments(index);
    assert(total_width(Seq::<BitSegment>::empty()) == 0);
    if t.len() == 1 {
        assert(t.drop_last() =~= Seq::<BitSegment>::empty());
        assert(t.last() == t[0]);
        assert(total_width(t) == t[0].width);
    } else {
        let p = t.drop_last();
        assert(p.drop_last() =~= Seq::<BitSegment>::empty());
        assert(p.last() == t[0]);
        assert(total_width(p) == t[0].width);
        assert(t.last() == t[1]);
        assert(total_width(t) == t[0].width + t[1].width);
    }
}

/// Builds the SSC1 table row for `index`.
pub fn ssc1_segments(index: u8) -> (segs: Vec<BitSegment>)
    requires
        index < 8,
    ensures
        segs@ == spec_ssc1_segments(index),
{
    let mut segs: Vec<BitSegment> = Vec::new();
    if index == 7 {
        segs.push(BitSegment { offset: 0x10, lsb: 5, width: 3 });
    } else if index == 6 {
        segs.push(BitSegment { offset: 0x10, lsb: 2, width: 3 });
    } else if index == 5 {
        segs.push(BitSegment { offset: 0x10, lsb: 0, width: 2 });
        segs.push(BitSegment { offset: 0x11, lsb: 7, width: 1 });
    } else if index == 4 {
        segs.push(BitSegment { offset: 0x11, lsb: 4, width: 3 });
    } else if index == 3 {
        segs.push(BitSegment { offset: 0x11, lsb: 1, width: 3 });
    } else if index == 2 {
        segs.push(BitSegment { offset: 0x11, lsb: 0, width: 1 });
        segs.push(BitSegment { offset: 0x12, lsb: 6, width: 2 });
    } else if index == 1 {
        segs.push(BitSegment { offset: 0x12, lsb: 3, width: 3 });
    } else {
        segs.push(BitSegment { offset: 0x12, lsb: 0, width: 3 });
    }
    proof {
        assert(segs@ =~= spec_ssc1_segments(index));
    }
    segs
}

/// Decodes the 3-bit SSC1 selector for `index` from the current byte of
/// each touched register, in table order.
pub fn ssc1_decode(index: u8, bytes: &Vec<u8>) -> (v: u8)
    requires
        index < 8,
        bytes@.len() == spec_ssc1_segments(index).len(),
    ensures
        v as u16 == spec_gather(spec_ssc1_segments(index), bytes@),
        v < 8,
{
    let segs = ssc1_segments(index);
    proof {
        lemma_ssc1_table(index);
        lemma_gather_bound(segs@, bytes@);
        lemma_mask16_values();
    }
    gather(&segs, bytes) as u8
}

/// Computes the read-modify-write bytes that store the 3-bit SSC1
/// selector `value` for `index`, given the current byte of each touched
/// register in table order; sibling bits are left unchanged.
pub fn ssc1_encode(index: u8, value: u8, bytes: &Vec<u8>) -> (out: Vec<u8>)
    requires
        index < 8,
        value < 8,
        bytes@.len() == spec_ssc1_segments(index).len(),
    ensures
        out@ == spec_scatter(spec_ssc1_segments(index), bytes@, value as u16),
        out@.len() == bytes@.len(),
{
    let segs = ssc1_segments(index);
    proof {
        lemma_ssc1_table(index);
    }
    scatter(&segs, bytes, value as u16)
}

/// The read-modify-write cycle of one register touched by an SSC1
/// encode: returns that register's byte with only its segment's bits
/// replaced by the matching chunk of `value`. Equal to element `i` of
/// the full encode whatever the other touched register holds.
pub fn ssc1_encode_single(index: u8, value: u8, i: usize, byte: u8) -> (out: u8)
    requires
        index < 8,
        value < 8,
        i < spec_ssc1_segments(index).len(),
    ensures
        forall|bytes: Seq<u8>|
            bytes.len() == spec_ssc1_segments(index).len() && bytes[i as int] == byte ==> out == (
            #[trigger] spec_scatter(spec_ssc1_segments(index), bytes, value as u16))[i as int],
{
    let segs = ssc1_segments(index);
    proof {
        lemma_ssc1_table(index);
    }
    scatter_single(&segs, i, byte, value as u16)
}

/// The SSC1 codec round-trips: for every control-input index and every
/// 3-bit value, decoding what encode produced yields the value again,
/// whatever the touched registers held before.
pub proof fn lemma_ssc1_roundtrip(index: u8, v: u16, bytes: Seq<u8>)
    requires
        index < 8,
        v < 8,
        bytes.len() == spec_ssc1_segments(index).len(),
    ensures
        spec_gather(
            spec_ssc1_segments(index),
            spec_scatter(spec_ssc1_segments(index), bytes, v),
        ) == v,
{
    lemma_ssc1_table(index);
    lemma_mask16_values();
    lemma_gather_scatter(spec_ssc1_segments(index), bytes, v);
}

/// Encoding an SSC1 selector alters no bit outside the field's assigned
/// ranges: in each touched register, every bit position outside that
/// register's segment survives the encode.
pub proof fn lemma_ssc1_preserves_siblings(index: u8, v: u16, bytes: Seq<u8>, i: int, pos: u8)
    requires
        index < 8,
        bytes.len() == spec_ssc1_segments(index).len(),
        0 <= i < spec_ssc1_segments(index).len(),
        pos < 8,
        pos < spec_ssc1_segments(index)[i].lsb || pos >= spec_ssc1_segments(index)[i].lsb
            + spec_ssc1_segments(index)[i].width,
    ensures
        spec_get_bits8(spec_scatter(spec_ssc1_segments(index), bytes, v)[i], pos, 1)
            == spec_get_bits8(bytes[i], pos, 1),
{
    lemma_ssc1_table(index);
    lemma_scatter_preserves_siblings(spec_ssc1_segments(index), bytes, v, i, pos, 1);
}

/// Splits a value whose low `low_width` bits live in one register and
/// whose remaining high bits live in another: returns the high and low
/// parts.
pub fn split_value(value: u16, low_width: u8) -> (r: (u16, u16))
    requires
        low_width < 16,
    ensures
        r.0 == value >> low_width,
        r.1 == value & spec_mask16(low_width),
{
    proof {
        assert(low_width < 16 ==> 1u16 << low_width >= 1) by (bit_vector);
    }
    (value >> low_width, value & ((1u16 << low_width) - 1))
}

/// Reassembles a value split by `split_value`: `(high << low_width) | low`.
pub fn combine_split_parts(high: u16, low: u16, low_width: u8) -> (v: u16)
    requires
        low_width < 16,
    ensures
        v == (high << low_width) | low,
{
    (high << low_width) | low
}

/// The uniform split round-trips: recombining the two parts of any
/// value reproduces the value exactly.
pub proof fn lemma_split_combine(value: u16, low_width: u8)
    by (bit_vector)
    requires
        low_width < 16,
    ensures
        ((value >> low_width) << low_width) | (value & spec_mask16(low_width)) == value,
{
}

} // verus!
