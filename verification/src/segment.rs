//! File reconstruction at the receiving side: segments of file content are
//! applied at absolute offsets into a growing store, a bitmap records which
//! bytes have arrived, and the missing byte ranges are computed exactly for
//! negative acknowledgment.

use vstd::prelude::*;

verus! {

/// The store after writing `seg` at absolute offset `off`: bytes inside
/// the written window come from `seg`, all others are unchanged.
pub open spec fn apply_bytes(file: Seq<u8>, off: int, seg: Seq<u8>) -> Seq<u8> {
    Seq::new(file.len(), |i: int| if off <= i < off + seg.len() { seg[i - off] } else { file[i] })
}

/// The arrival bitmap after `n` bytes landed at offset `off`.
pub open spec fn mark_have(have: Seq<bool>, off: int, n: int) -> Seq<bool> {
    Seq::new(have.len(), |i: int| if off <= i < off + n { true } else { have[i] })
}

/// The store grown with zero bytes until it holds at least `n` entries;
/// unchanged if it is already long enough.
pub open spec fn grow_zeros(s: Seq<u8>, n: int) -> Seq<u8> {
    if s.len() >= n {
        s
    } else {
        s + Seq::new((n - s.len()) as nat, |i: int| 0u8)
    }
}

/// The arrival bitmap grown with `false` marks until it holds at least `n`
/// entries; unchanged if it is already long enough.
pub open spec fn grow_false(s: Seq<bool>, n: int) -> Seq<bool> {
    if s.len() >= n {
        s
    } else {
        s + Seq::new((n - s.len()) as nat, |i: int| false)
    }
}

/// Whether byte `i` lies inside one of the half-open ranges of `rs`.
pub open spec fn in_ranges(rs: Seq<(u64, u64)>, i: int) -> bool {
    exists|k: int| 0 <= k < rs.len() && (#[trigger] rs[k]).0 <= i < rs[k].1
}

/// Writing the same segment a second time changes nothing: file-data
/// delivery is idempotent at the level of the stored bytes.
pub proof fn lemma_apply_idempotent(file: Seq<u8>, off: int, seg: Seq<u8>)
    ensures
        apply_bytes(apply_bytes(file, off, seg), off, seg) == apply_bytes(file, off, seg),
{
    assert(apply_bytes(apply_bytes(file, off, seg), off, seg) =~= apply_bytes(file, off, seg));
}

/// A segment whose bytes already stand in the store leaves the store
/// exactly as it was: re-delivery of an already-applied segment is a
/// no-op.
pub proof fn lemma_apply_already_applied(file: Seq<u8>, off: int, seg: Seq<u8>)
    requires
        0 <= off,
        off + seg.len() <= file.len(),
        forall|k: int| 0 <= k < seg.len() ==> file[off + k] == seg[k],
    ensures
        apply_bytes(file, off, seg) == file,
{
    assert(apply_bytes(file, off, seg) =~= file);
}

/// Marking the same arrival window a second time changes nothing.
pub proof fn lemma_mark_idempotent(have: Seq<bool>, off: int, n: int)
    ensures
        mark_have(mark_have(have, off, n), off, n) == mark_have(have, off, n),
{
    assert(mark_have(mark_have(have, off, n), off, n) =~= mark_have(have, off, n));
}

/// Re-delivering a file-data segment is idempotent at the level of the
/// whole delivery step: a second delivery of the same segment finds the
/// store already grown and already written, and leaves the store and the
/// arrival bitmap exactly as the first delivery left them — so duplicated
/// or reordered re-sends never alter the final file content.
pub proof fn lemma_redelivery_idempotent(data: Seq<u8>, have: Seq<bool>, off: int, seg: Seq<u8>)
    requires
        0 <= off,
    ensures
        ({
            let n = off + seg.len();
            let d1 = apply_bytes(grow_zeros(data, n), off, seg);
            let h1 = mark_have(grow_false(have, n), off, seg.len() as int);
            &&& apply_bytes(grow_zeros(d1, n), off, seg) == d1
            &&& mark_have(grow_false(h1, n), off, seg.len() as int) == h1
        }),
{
    let n = off + seg.len();
    let d1 = apply_bytes(grow_zeros(data, n), off, seg);
    let h1 = mark_have(grow_false(have, n), off, seg.len() as int);
    assert(grow_zeros(d1, n) == d1);
    assert(grow_false(h1, n) == h1);
    lemma_apply_idempotent(grow_zeros(data, n), off, seg);
    lemma_mark_idempotent(grow_false(have, n), off, seg.len() as int);
}

/// The store never disagrees with the source file on an arrived byte: if
/// every byte marked as arrived equals the file's byte at that index, and
/// one more segment carrying the file's own bytes at its offset is
/// delivered, the property still holds — under any order, duplication or
/// re-delivery of segments.
pub proof fn lemma_store_agrees_after_apply(
    store: Seq<u8>,
    have: Seq<bool>,
    file: Seq<u8>,
    off: int,
    seg: Seq<u8>,
)
    requires
        store.len() == have.len(),
        0 <= off,
        off + seg.len() <= file.len(),
        seg == file.subrange(off, off + seg.len()),
        forall|i: int| 0 <= i < store.len() && have[i] ==> i < file.len() && store[i] == file[i],
    ensures
        ({
            let n = off + seg.len();
            let d1 = apply_bytes(grow_zeros(store, n), off, seg);
            let h1 = mark_have(grow_false(have, n), off, seg.len() as int);
            &&& d1.len() == h1.len()
            &&& forall|i: int| 0 <= i < d1.len() && h1[i] ==> i < file.len() && d1[i] == file[i]
        }),
{
    let n = off + seg.len();
    let d1 = apply_bytes(grow_zeros(store, n), off, seg);
    let h1 = mark_have(grow_false(have, n), off, seg.len() as int);
    assert forall|i: int| 0 <= i < d1.len() && h1[i] implies i < file.len() && d1[i] == file[i] by {
        if off <= i < off + seg.len() {
            assert(d1[i] == seg[i - off]);
            assert(seg[i - off] == file[i]);
        } else {
            assert(h1[i] == grow_false(have, n)[i]);
            if i < have.len() {
                assert(d1[i] == store[i]);
            }
        }
    }
}

/// Once every byte below the declared size has arrived in a store that
/// agrees with the source file on its arrived bytes, the delivered prefix
/// is byte-identical to the source file's prefix: a completed transfer
/// cannot have corrupted content, whatever was lost, duplicated or
/// reordered on the way.
pub proof fn lemma_complete_store_is_file(
    store: Seq<u8>,
    have: Seq<bool>,
    file: Seq<u8>,
    size: int,
)
    requires
        store.len() == have.len(),
        0 <= size <= store.len(),
        size <= file.len(),
        forall|i: int| 0 <= i < size ==> have[i],
        forall|i: int| 0 <= i < store.len() && have[i] ==> i < file.len() && store[i] == file[i],
    ensures
        store.subrange(0, size) == file.subrange(0, size),
{
    assert(store.subrange(0, size) =~= file.subrange(0, size));
}

/// Grows `data` with zero bytes and `have` with `false` marks until both
/// hold at least `n` entries; never shrinks and never changes what is
/// already there.
pub fn ensure_len(data: &mut Vec<u8>, have: &mut Vec<bool>, n: usize)
    requires
        old(data).len() == old(have).len(),
    ensures
        final(data).len() == final(have).len(),
        final(data).len() == if old(data).len() >= n {
            old(data).len() as int
        } else {
            n as int
        },
        forall|i: int| 0 <= i < old(data).len() ==> final(data)@[i] == old(data)@[i],
        forall|i: int| 0 <= i < old(have).len() ==> final(have)@[i] == old(have)@[i],
        forall|i: int| old(data).len() <= i < final(data).len() ==> final(data)@[i] == 0u8,
        forall|i: int| old(have).len() <= i < final(have).len() ==> final(have)@[i] == false,
{
    while data.len() < n
        invariant
            data.len() == have.len(),
            old(data).len() == old(have).len(),
            old(data).len() <= data.len(),
            data.len() <= if old(data).len() >= n { old(data).len() as int } else { n as int },
            forall|i: int| 0 <= i < old(data).len() ==> data@[i] == old(data)@[i],
            forall|i: int| 0 <= i < old(have).len() ==> have@[i] == old(have)@[i],
            forall|i: int| old(data).len() <= i < data.len() ==> data@[i] == 0u8,
            forall|i: int| old(have).len() <= i < have.len() ==> have@[i] == false,
        decreases n - data.len(),
    {
        data.push(0u8);
        have.push(false);
    }
}

/// Writes `seg` into `data` at absolute offset `offset` and marks the
/// covered bytes as arrived.
pub fn apply_segment(data: &mut Vec<u8>, have: &mut Vec<bool>, offset: usize, seg: &Vec<u8>)
    requires
        old(data).len() == old(have).len(),
        offset + seg.len() <= old(data).len(),
    ensures
        final(data)@ == apply_bytes(old(data)@, offset as int, seg@),
        final(have)@ == mark_have(old(have)@, offset as int, seg@.len() as int),
        final(data).len() == old(data).len(),
        final(have).len() == old(have).len(),
{
    let mut k: usize = 0;
    while k < seg.len()
        invariant
            data.len() == old(data).len(),
            have.len() == old(have).len(),
            old(data).len() == old(have).len(),
            k <= seg.len(),
            offset + seg.len() <= data.len(),
            forall|i: int|
                0 <= i < data.len() ==> data@[i] == (if offset <= i < offset + k {
                    seg@[i - offset]
                } else {
                    old(data)@[i]
                }),
            forall|i: int|
                0 <= i < have.len() ==> have@[i] == (if offset <= i < offset + k {
                    true
                } else {
                    old(have)@[i]
                }),
        decreases seg.len() - k,
    {
        let b = seg[k];
        data.set(offset + k, b);
        have.set(offset + k, true);
        k = k + 1;
    }
    assert(data@ =~= apply_bytes(old(data)@, offset as int, seg@));
    assert(have@ =~= mark_have(old(have)@, offset as int, seg@.len() as int));
}

/// Appending a range to a negative-acknowledgment list covers exactly the
/// old bytes plus the new range.
proof fn lemma_push_range(rs: Seq<(u64, u64)>, r: (u64, u64))
    ensures
        forall|j: int| #[trigger]
            in_ranges(rs.push(r), j) <==> (in_ranges(rs, j) || r.0 <= j < r.1),
{
    assert forall|j: int| #[trigger]
        in_ranges(rs.push(r), j) implies (in_ranges(rs, j) || r.0 <= j < r.1) by {
        let k = choose|k: int|
            0 <= k < rs.push(r).len() && (#[trigger] rs.push(r)[k]).0 <= j < rs.push(r)[k].1;
        if k < rs.len() {
            assert(rs[k] == rs.push(r)[k]);
            assert(in_ranges(rs, j));
        } else {
            assert(rs.push(r)[k] == r);
        }
    }
    assert forall|j: int| (in_ranges(rs, j) || r.0 <= j < r.1) implies #[trigger]
        in_ranges(rs.push(r), j) by {
        if in_ranges(rs, j) {
            let k = choose|k: int| 0 <= k < rs.len() && (#[trigger] rs[k]).0 <= j < rs[k].1;
            assert(rs.push(r)[k] == rs[k]);
        } else {
            assert(rs.push(r)[rs.len() as int] == r);
        }
    }
}

/// Computes exactly the missing byte ranges below `upto`: a byte index is
/// inside some returned range if and only if it has not arrived. The
/// ranges are well-formed and lie below `upto`.
pub fn missing_ranges(have: &Vec<bool>, upto: usize) -> (rs: Vec<(u64, u64)>)
    requires
        upto <= have.len(),
    ensures
        forall|i: int| 0 <= i < upto ==> (in_ranges(rs@, i) <==> !have@[i]),
        forall|i: int| !(0 <= i < upto) ==> !in_ranges(rs@, i),
        forall|k: int| 0 <= k < rs.len() ==> (#[trigger] rs@[k]).0 < rs@[k].1 <= upto,
{
    let mut rs: Vec<(u64, u64)> = Vec::new();
    let mut i: usize = 0;
    let mut run_start: usize = 0;
    let mut in_run: bool = false;
    while i < upto
        invariant
            i <= upto <= have.len(),
            in_run ==> run_start < i,
            in_run ==> forall|j: int| run_start <= j < i ==> !have@[j],
            forall|j: int|
                0 <= j < (if in_run { run_start as int } else { i as int }) ==> (in_ranges(rs@, j)
                    <==> !have@[j]),
            forall|j: int|
                !(0 <= j < (if in_run { run_start as int } else { i as int })) ==> !in_ranges(
                    rs@,
                    j,
                ),
            forall|k: int|
                0 <= k < rs.len() ==> (#[trigger] rs@[k]).0 < rs@[k].1 <= (if in_run {
                    run_start as int
                } else {
                    i as int
                }),
        decreases upto - i,
    {
        if !have[i] {
            if !in_run {
                in_run = true;
                run_start = i;
            }
        } else {
            if in_run {
                let ghost old_rs = rs@;
                rs.push((run_start as u64, i as u64));
                proof {
                    lemma_push_range(old_rs, (run_start as u64, i as u64));
                }
                in_run = false;
            }
        }
        i = i + 1;
    }
    if in_run {
        let ghost old_rs = rs@;
        rs.push((run_start as u64, upto as u64));
        proof {
            lemma_push_range(old_rs, (run_start as u64, upto as u64));
        }
    }
    rs
}

} // verus!
