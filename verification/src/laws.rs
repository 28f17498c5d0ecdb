//! What holds of the library as a whole.
use crate::args::{EpollOp, MmapAdvise, PosixFadviseAdvice, Span};
use crate::flags::SubmissionFlags;
use crate::registrar::{RawFd, RegisteredBuf, RegisteredFd, UringFd, UringReadBuf, UringWriteBuf};
use crate::sqe::SQE;
use crate::sqes;
use crate::sqes::SQEs;
use crate::uring_sys;
use crate::uring_sys::{io_uring, io_uring_sqe};
use vstd::prelude::*;

verus! {

/// Setting flags sets them and keeps those that were set; setting them twice, or in another order,
/// makes no difference.
pub proof fn law_set_flags(entry: io_uring_sqe, f: SubmissionFlags, g: SubmissionFlags)
    ensures
        ({
            let set = entry.flags | f.bits;
            &&& set & f.bits == f.bits
            &&& set & entry.flags == entry.flags
            &&& set | f.bits == set
            &&& set | g.bits == (entry.flags | g.bits) | f.bits
        }),
{
    let e = entry.flags;
    let f = f.bits;
    let g = g.bits;
    assert({
        &&& (e | f) & f == f
        &&& (e | f) & e == e
        &&& (e | f) | f == e | f
        &&& (e | f) | g == (e | g) | f
    }) by (bit_vector);
}

/// The flags that have a name share no bit.
pub proof fn law_submission_flags_are_apart()
    ensures
        uring_sys::IOSQE_FIXED_FILE & uring_sys::IOSQE_IO_DRAIN == 0,
        (uring_sys::IOSQE_FIXED_FILE | uring_sys::IOSQE_IO_DRAIN) & uring_sys::IOSQE_IO_LINK == 0,
        (uring_sys::IOSQE_FIXED_FILE | uring_sys::IOSQE_IO_DRAIN | uring_sys::IOSQE_IO_LINK)
            & uring_sys::IOSQE_IO_HARDLINK == 0,
        (uring_sys::IOSQE_FIXED_FILE | uring_sys::IOSQE_IO_DRAIN | uring_sys::IOSQE_IO_LINK
            | uring_sys::IOSQE_IO_HARDLINK) & uring_sys::IOSQE_ASYNC == 0,
        (uring_sys::IOSQE_FIXED_FILE | uring_sys::IOSQE_IO_DRAIN | uring_sys::IOSQE_IO_LINK
            | uring_sys::IOSQE_IO_HARDLINK | uring_sys::IOSQE_ASYNC)
            & uring_sys::IOSQE_BUFFER_SELECT == 0,
{
    assert({
        &&& 1u8 & 2u8 == 0
        &&& (1u8 | 2u8) & 4u8 == 0
        &&& (1u8 | 2u8 | 4u8) & 8u8 == 0
        &&& (1u8 | 2u8 | 4u8 | 8u8) & 16u8 == 0
        &&& (1u8 | 2u8 | 4u8 | 8u8 | 16u8) & 32u8 == 0
    }) by (bit_vector);
}

/// After `k` events a batch of `n` has `n - k` left and has handed out its first `k` slots, in
/// the ring's order, and the ring's count has gone up by `k`.
///
/// `batch` holds the batch before the first event, and after each.
pub proof fn law_batch_in_order<'ring>(batch: Seq<SQEs<'ring>>)
    requires
        batch.len() > 0,
        batch[0].wf(),
        forall|i: int|
            0 <= i < batch.len() - 1 ==> #[trigger] batch[i + 1].one_further(batch[i]),
    ensures
        ({
            let k = batch.len() - 1;
            let first = batch[0];
            let last = batch[k];
            &&& last.wf()
            &&& last.count == first.count
            &&& last.left() == first.left() - k
            &&& last.consumed == first.consumed + k
            &&& last.consumed <= last.count
            &&& *last.sqe_tail == (*first.sqe_tail + k) % (uring_sys::COUNTER_SPAN as int)
            &&& last.run->0@ + last.wrapped->0@ == (first.run->0@ + first.wrapped->0@).skip(k)
        }),
    decreases batch.len(),
{
    let k = batch.len() - 1;
    if k > 0 {
        let before = batch.drop_last();
        assert forall|i: int| 0 <= i < before.len() - 1 implies #[trigger] before[i
            + 1].one_further(before[i]) by {
            assert(batch[i + 1].one_further(batch[i]));
        }
        law_batch_in_order(before);
        let i = k - 1;
        assert(batch[i + 1].one_further(batch[i]));
        let slots = batch[0].run->0@ + batch[0].wrapped->0@;
        let left = batch[i].run->0@ + batch[i].wrapped->0@;
        assert(before[i] == batch[i]);
        assert(batch[k].run->0@ + batch[k].wrapped->0@ =~= left.skip(1));
        assert(slots.skip(i).skip(1) =~= slots.skip(k));
    } else {
        let slots = batch[0].run->0@ + batch[0].wrapped->0@;
        assert(slots.skip(0) =~= slots);
    }
}

/// What is left of a batch is what was asked for less what has been handed out, and a batch that
/// is in order has a slot for each event that is left.
pub proof fn law_batch_counts<'ring>(sqes: SQEs<'ring>)
    ensures
        sqes.left() + sqes.consumed == sqes.count,
        sqes.wf() <==> {
            &&& sqes.run is Some
            &&& sqes.wrapped is Some
            &&& sqes.consumed <= sqes.count
            &&& sqes.count <= sqes.consumed + sqes.run->0@.len() + sqes.wrapped->0@.len()
        },
{
}

/// A batch that was made for `n` events hands out `n`, no more and no fewer: after `k` of them
/// there is another one exactly if `k` is below `n`.
///
/// `batch` holds the batch before the first event, and after each.
pub proof fn law_batch_is_of_the_size_asked_for<'ring>(batch: Seq<SQEs<'ring>>, n: u32, k: int)
    requires
        batch.len() > 0,
        batch[0].wf(),
        batch[0].count == n,
        batch[0].consumed == 0,
        forall|i: int|
            0 <= i < batch.len() - 1 ==> #[trigger] batch[i + 1].one_further(batch[i]),
        0 <= k < batch.len(),
    ensures
        k <= n,
        batch[k].count == n,
        batch[k].consumed == k,
        batch[k].left() == n - k,
        batch[k].consumed < batch[k].count <==> k < n,
{
    let until = batch.take(k + 1);
    assert forall|j: int| 0 <= j < until.len() - 1 implies #[trigger] until[j + 1].one_further(
        until[j],
    ) by {
        assert(batch[j + 1].one_further(batch[j]));
    }
    law_batch_in_order(until);
}

/// Read from the slot that `count` stands for, and around, `slots` holds the same as at `count`
/// and on.
proof fn lemma_rotated(slots: Seq<io_uring_sqe>, count: int, i: int)
    requires
        0 <= count,
        0 <= i < slots.len(),
    ensures
        ({
            let start = count % (slots.len() as int);
            let at = (count + i) % (slots.len() as int);
            &&& 0 <= start < slots.len()
            &&& 0 <= at < slots.len()
            &&& (slots.skip(start) + slots.take(start))[i] == slots[at]
        }),
{
    let len = slots.len() as int;
    let start = count % len;
    vstd::arithmetic::div_mod::lemma_add_mod_noop(count, i, len);
    vstd::arithmetic::div_mod::lemma_small_mod(i as nat, len as nat);
    assert((count + i) % len == (start + i) % len);
    if start + i < len {
        vstd::arithmetic::div_mod::lemma_small_mod((start + i) as nat, len as nat);
    } else {
        vstd::arithmetic::div_mod::lemma_mod_sub_multiples_vanish(start + i, len);
        vstd::arithmetic::div_mod::lemma_small_mod((start + i - len) as nat, len as nat);
    }
}

/// The slots of a batch follow each other in the ring: the one for its `i`-th event is the one
/// that the ring's count, `i` entries on, stands for.
pub proof fn law_batch_follows_ring(ring: io_uring, i: int)
    requires
        ring.wf(),
        0 <= i < ring.sqes@.len(),
    ensures
        (ring.sqes@.skip(ring.next_slot()) + ring.sqes@.take(ring.next_slot()))[i]
            == ring.sqes@[(ring.sqe_tail + i) % (ring.sqes@.len() as int)],
{
    lemma_rotated(ring.sqes@, ring.sqe_tail as int, i);
}

/// Whether `batch` is a batch before its first event and after each, and whether `runs` and
/// `wraps` are what its slots come to hold, with `written` put into them event by event.
pub open spec fn is_written<'ring>(
    batch: Seq<SQEs<'ring>>,
    written: Seq<io_uring_sqe>,
    runs: Seq<Seq<io_uring_sqe>>,
    wraps: Seq<Seq<io_uring_sqe>>,
) -> bool {
    let n = written.len() as int;
    &&& batch.len() == runs.len() == wraps.len() == n + 1
    &&& batch[0].wf()
    &&& forall|k: int| 0 <= k < n ==> #[trigger] batch[k + 1].one_further(batch[k])
    &&& forall|k: int|
        0 <= k < n ==> #[trigger] sqes::restores(
            batch[k].run_has_slots(),
            written[k],
            runs[k + 1],
            wraps[k + 1],
            runs[k],
            wraps[k],
        )
    &&& runs[n] == batch[n].run->0@
    &&& wraps[n] == batch[n].wrapped->0@
}

proof fn lemma_written_from<'ring>(
    batch: Seq<SQEs<'ring>>,
    written: Seq<io_uring_sqe>,
    runs: Seq<Seq<io_uring_sqe>>,
    wraps: Seq<Seq<io_uring_sqe>>,
    k: int,
)
    requires
        is_written(batch, written, runs, wraps),
        0 <= k <= written.len(),
    ensures
        ({
            let n = written.len() as int;
            &&& runs[k].len() == batch[k].run->0@.len()
            &&& wraps[k].len() == batch[k].wrapped->0@.len()
            &&& runs[k] + wraps[k] == written.skip(k) + (batch[n].run->0@ + batch[n].wrapped->0@)
        }),
    decreases written.len() - k,
{
    let n = written.len() as int;
    if k < n {
        lemma_written_from(batch, written, runs, wraps, k + 1);
        let until = batch.take(k + 1);
        assert forall|j: int| 0 <= j < until.len() - 1 implies #[trigger] until[j + 1].one_further(
            until[j],
        ) by {
            assert(batch[j + 1].one_further(batch[j]));
        }
        law_batch_in_order(until);
        assert(batch[k + 1].one_further(batch[k]));
        assert(sqes::restores(
            batch[k].run_has_slots(),
            written[k],
            runs[k + 1],
            wraps[k + 1],
            runs[k],
            wraps[k],
        ));
        assert(runs[k] + wraps[k] =~= seq![written[k]] + (runs[k + 1] + wraps[k + 1]));
        assert(written.skip(k) =~= seq![written[k]] + written.skip(k + 1));
    } else {
        assert(written.skip(n) =~= Seq::empty());
    }
}

/// Once a batch is done with, the ring holds what the events' users made of the entries, in the
/// order of the events from the ring's next slot on, and every other slot holds what it held.
///
/// `runs` and `wraps` are what the slots of the batch come to hold after each event; the first of
/// each are what the batch's own slots do, which are the ring's.
pub proof fn law_ring_holds_what_was_written<'ring>(
    ring: io_uring,
    batch: Seq<SQEs<'ring>>,
    written: Seq<io_uring_sqe>,
    runs: Seq<Seq<io_uring_sqe>>,
    wraps: Seq<Seq<io_uring_sqe>>,
    i: int,
)
    requires
        ring.wf(),
        batch.len() == runs.len() == wraps.len() == written.len() + 1,
        batch[0].wf(),
        forall|k: int|
            0 <= k < written.len() ==> #[trigger] batch[k + 1].one_further(batch[k]),
        forall|k: int|
            #![trigger written[k]]
            0 <= k < written.len() && batch[k].run->0@.len() > 0 ==> {
                &&& runs[k] == seq![written[k]] + runs[k + 1]
                &&& wraps[k] == wraps[k + 1]
            },
        forall|k: int|
            #![trigger written[k]]
            0 <= k < written.len() && batch[k].run->0@.len() == 0 ==> {
                &&& runs[k] == runs[k + 1]
                &&& wraps[k] == seq![written[k]] + wraps[k + 1]
            },
        runs[written.len() as int] == batch[written.len() as int].run->0@,
        wraps[written.len() as int] == batch[written.len() as int].wrapped->0@,
        batch[0].run->0@ == ring.sqes@.skip(ring.next_slot()),
        batch[0].wrapped->0@ == ring.sqes@.take(ring.next_slot()),
        0 <= i < ring.sqes@.len(),
    ensures
        ({
            let sqes = wraps[0] + runs[0];
            let at = (ring.sqe_tail + i) % (ring.sqes@.len() as int);
            &&& sqes.len() == ring.sqes@.len()
            &&& i < written.len() ==> sqes[at] == written[i]
            &&& i >= written.len() ==> sqes[at] == ring.sqes@[at]
        }),
{
    let n = written.len() as int;
    let start = ring.next_slot();
    let after = wraps[0] + runs[0];
    lemma_rotated(ring.sqes@, ring.sqe_tail as int, i);
    assert(is_written(batch, written, runs, wraps));
    lemma_written_from(batch, written, runs, wraps, 0);
    law_batch_in_order(batch);
    lemma_rotated(after, ring.sqe_tail as int, i);
    assert(after.skip(start) =~= runs[0]);
    assert(after.take(start) =~= wraps[0]);
    assert(written.skip(0) =~= written);
}

/// Handing out `k` entries, as many as there is room for at most, keeps a ring in order, also
/// when its count wraps around: it has room for `k` fewer, and goes on `k` slots further.
pub proof fn law_ring_goes_on(ring: io_uring, after: io_uring, k: int)
    requires
        ring.wf(),
        0 <= k <= ring.free(),
        after.sqes@.len() == ring.sqes@.len(),
        after.khead == ring.khead,
        after.sqe_tail == (ring.sqe_tail + k) % (uring_sys::COUNTER_SPAN as int),
    ensures
        after.wf(),
        after.free() == ring.free() - k,
        after.next_slot() == (ring.next_slot() + k) % (ring.sqes@.len() as int),
{
    let span = uring_sys::COUNTER_SPAN as int;
    let len = ring.sqes@.len() as int;
    let count = ring.sqe_tail + k;
    vstd::arithmetic::div_mod::lemma_sub_mod_noop(count, ring.khead as int, span);
    vstd::arithmetic::div_mod::lemma_small_mod(ring.khead as nat, span as nat);
    vstd::arithmetic::div_mod::lemma_add_mod_noop(ring.sqe_tail - ring.khead, k, span);
    vstd::arithmetic::div_mod::lemma_small_mod(k as nat, span as nat);
    vstd::arithmetic::div_mod::lemma_small_mod((ring.in_use() + k) as nat, span as nat);
    assert(after.in_use() == ring.in_use() + k);
    let turns = span / len;
    vstd::arithmetic::div_mod::lemma_fundamental_div_mod(span, len);
    assert(span == len * turns);
    vstd::arithmetic::div_mod::lemma_mod_mod(count, len, turns);
    vstd::arithmetic::div_mod::lemma_add_mod_noop(ring.sqe_tail as int, k, len);
    vstd::arithmetic::div_mod::lemma_mod_twice(ring.sqe_tail as int, len);
    vstd::arithmetic::div_mod::lemma_add_mod_noop(ring.next_slot(), k, len);
}

/// Walked to its end, a batch is one chain: each event links to the next, the last one to none,
/// and the links change nothing else. An event that ends a chain early starts without a link.
///
/// `batch` holds the batch before each event, `entries` what each event's user made of its entry.
pub proof fn law_chain<'ring>(
    batch: Seq<SQEs<'ring>>,
    entries: Seq<io_uring_sqe>,
    link: u8,
    i: int,
)
    requires
        batch.len() == entries.len(),
        batch.len() > 0,
        batch[0].wf(),
        batch[0].count - batch[0].consumed == batch.len(),
        forall|i: int|
            0 <= i < batch.len() - 1 ==> #[trigger] batch[i + 1].one_further(batch[i]),
        0 <= i < batch.len(),
    ensures
        ({
            let is_final = batch[i].consumed + 1 == batch[i].count;
            let linked = sqes::linked_entry(is_final, link, entries[i]);
            &&& is_final == (i == batch.len() - 1)
            &&& i < batch.len() - 1 ==> linked.flags & link == link
            &&& linked.flags & !link == entries[i].flags & !link
            &&& i == batch.len() - 1 ==> linked == entries[i]
            &&& linked == (io_uring_sqe { flags: linked.flags, ..entries[i] })
            &&& linked.flags & entries[i].flags == entries[i].flags
            &&& uring_sys::nop_entry().flags & link == 0
        }),
{
    let until = batch.take(i + 1);
    assert forall|j: int| 0 <= j < until.len() - 1 implies #[trigger] until[j + 1].one_further(
        until[j],
    ) by {
        assert(batch[j + 1].one_further(batch[j]));
    }
    law_batch_in_order(until);
    let flags = entries[i].flags;
    assert({
        &&& (flags | link) & link == link
        &&& (flags | link) & flags == flags
        &&& (flags | link) & !link == flags & !link
        &&& flags & flags == flags
        &&& 0 & link == 0
    }) by (bit_vector);
}

/// Linking an event sets the link and nothing else: every bit outside the link, and every other
/// field, is as the event's user left it. So an event of a soft chain never gets a hard link, nor
/// one of a hard chain a soft link. The last event of a batch is not linked at all.
pub proof fn law_linking_sets_the_link_alone(link: u8, other: u8, entry: io_uring_sqe)
    ensures
        sqes::linked_entry(true, link, entry) == entry,
        ({
            let linked = sqes::linked_entry(false, link, entry);
            &&& linked == (io_uring_sqe { flags: linked.flags, ..entry })
            &&& linked.flags & link == link
            &&& linked.flags & !link == entry.flags & !link
            &&& other & link == 0 ==> linked.flags & other == entry.flags & other
        }),
        ({
            let soft = sqes::linked_entry(false, uring_sys::IOSQE_IO_LINK, entry);
            &&& soft.flags & 4 == 4
            &&& soft.flags & 8 == entry.flags & 8
        }),
        ({
            let hard = sqes::linked_entry(false, uring_sys::IOSQE_IO_HARDLINK, entry);
            &&& hard.flags & 8 == 8
            &&& hard.flags & 4 == entry.flags & 4
        }),
{
    let flags = entry.flags;
    assert({
        &&& (flags | link) & link == link
        &&& (flags | link) & !link == flags & !link
        &&& other & link == 0 ==> (flags | link) & other == flags & other
        &&& (flags | 4u8) & 4u8 == 4u8
        &&& (flags | 4u8) & 8u8 == flags & 8u8
        &&& (flags | 8u8) & 8u8 == 8u8
        &&& (flags | 8u8) & 4u8 == flags & 4u8
    }) by (bit_vector);
}

/// A ring is in order exactly if it has slots, their number divides the counters' span, and no
/// more of them are in use than there are. What is in use lies between the kernel's count and the
/// ring's own; the rest is free; and the next slot is the remainder of the ring's count.
pub proof fn law_ring_counts(ring: io_uring)
    ensures
        ring.wf() <==> {
            &&& 0 < ring.sqes@.len() <= u32::MAX
            &&& 0x1_0000_0000int % (ring.sqes@.len() as int) == 0
            &&& ring.free() >= 0
        },
        ring.free() <= ring.sqes@.len(),
        ring.sqes@.len() - ring.free() < 0x1_0000_0000,
        (ring.khead + (ring.sqes@.len() - ring.free())) % 0x1_0000_0000 == ring.sqe_tail,
        ring.wf() ==> 0 <= ring.next_slot() < ring.sqes@.len(),
        ring.wf() ==> ring.sqe_tail == (ring.sqe_tail as int / ring.sqes@.len() as int)
            * ring.sqes@.len() + ring.next_slot(),
{
    let len = ring.sqes@.len() as int;
    if len > 0 {
        vstd::arithmetic::div_mod::lemma_fundamental_div_mod(ring.sqe_tail as int, len);
        vstd::arithmetic::mul::lemma_mul_is_commutative(len, ring.sqe_tail as int / len);
    }
}

/// The setters do not get into each other's way.
pub proof fn law_setters_commute(
    entry: io_uring_sqe,
    flags: u8,
    user_data: u64,
    personality: u16,
)
    ensures
        (io_uring_sqe { flags, ..io_uring_sqe { user_data, ..entry } }) == (io_uring_sqe {
            user_data,
            ..io_uring_sqe { flags, ..entry }
        }),
        (io_uring_sqe { flags, ..io_uring_sqe { personality, ..entry } }) == (io_uring_sqe {
            personality,
            ..io_uring_sqe { flags, ..entry }
        }),
        (io_uring_sqe { user_data, ..io_uring_sqe { personality, ..entry } }) == (io_uring_sqe {
            personality,
            ..io_uring_sqe { user_data, ..entry }
        }),
{
}

/// A registered file marks the entries that are about it, and changes nothing else in them. An
/// ordinary file changes nothing at all. The number that stands for a registered file is its
/// index, that for an ordinary one its descriptor.
pub proof fn law_registered_files_are_marked(fd: RawFd, file: RegisteredFd, entry: io_uring_sqe)
    ensures
        fd.raw_fd() == fd,
        fd.updated(entry) == entry,
        file.raw_fd() == file.index as i32,
        file.updated(entry) == (io_uring_sqe { flags: entry.flags | 1, ..entry }),
        file.updated(entry).flags & uring_sys::IOSQE_FIXED_FILE == uring_sys::IOSQE_FIXED_FILE,
        file.updated(entry) == (io_uring_sqe { flags: file.updated(entry).flags, ..entry }),
        entry.flags == 0 ==> file.updated(entry).flags == uring_sys::IOSQE_FIXED_FILE,
{
    let flags = entry.flags;
    assert((flags | 1u8) & 1u8 == 1u8 && 0u8 | 1u8 == 1u8) by (bit_vector);
}

/// Each piece of advice, and each operation on an epoll instance, has a number of its own: the
/// kernel's.
pub proof fn law_advice_numbers_are_apart(
    f: PosixFadviseAdvice,
    g: PosixFadviseAdvice,
    m: MmapAdvise,
    n: MmapAdvise,
    o: EpollOp,
    p: EpollOp,
)
    ensures
        f.number() == g.number() ==> f == g,
        m.number() == n.number() ==> m == n,
        o.number() == p.number() ==> o == p,
        PosixFadviseAdvice::POSIX_FADV_NORMAL.number() == 0,
        PosixFadviseAdvice::POSIX_FADV_RANDOM.number() == 1,
        PosixFadviseAdvice::POSIX_FADV_SEQUENTIAL.number() == 2,
        PosixFadviseAdvice::POSIX_FADV_WILLNEED.number() == 3,
        PosixFadviseAdvice::POSIX_FADV_DONTNEED.number() == 4,
        PosixFadviseAdvice::POSIX_FADV_NOREUSE.number() == 5,
        MmapAdvise::MADV_NORMAL.number() == 0,
        MmapAdvise::MADV_RANDOM.number() == 1,
        MmapAdvise::MADV_SEQUENTIAL.number() == 2,
        MmapAdvise::MADV_WILLNEED.number() == 3,
        MmapAdvise::MADV_DONTNEED.number() == 4,
        MmapAdvise::MADV_FREE.number() == 8,
        MmapAdvise::MADV_REMOVE.number() == 9,
        MmapAdvise::MADV_DONTFORK.number() == 10,
        MmapAdvise::MADV_DOFORK.number() == 11,
        MmapAdvise::MADV_MERGEABLE.number() == 12,
        MmapAdvise::MADV_UNMERGEABLE.number() == 13,
        MmapAdvise::MADV_HUGEPAGE.number() == 14,
        MmapAdvise::MADV_NOHUGEPAGE.number() == 15,
        MmapAdvise::MADV_DONTDUMP.number() == 16,
        MmapAdvise::MADV_DODUMP.number() == 17,
        MmapAdvise::MADV_HWPOISON.number() == 100,
        MmapAdvise::MADV_SOFT_OFFLINE.number() == 101,
        EpollOp::EpollCtlAdd.number() == 1,
        EpollOp::EpollCtlDel.number() == 2,
        EpollOp::EpollCtlMod.number() == 3,
{
}

/// An entry holds a length modulo 2^32, so exactly if it is below.
pub proof fn law_lengths(len: usize, size: u64)
    ensures
        len as u32 as int == len as int % 0x1_0000_0000,
        size as u32 as int == size as int % 0x1_0000_0000,
{
    let long = len as u64;
    assert(long as u32 == long % 0x1_0000_0000) by (bit_vector);
    assert(size as u32 == size % 0x1_0000_0000) by (bit_vector);
}

/// Buffers that are provided together lie within the memory that was shared out.
pub proof fn law_provided_buffers_fit(buffers: Span, count: u32)
    requires
        count != 0,
    ensures
        (buffers.len as u32 / count) * count <= buffers.len,
{
    law_lengths(buffers.len, 0);
    let len = buffers.len as u32;
    vstd::arithmetic::div_mod::lemma_fundamental_div_mod(len as int, count as int);
    assert(len <= buffers.len) by {
        vstd::arithmetic::div_mod::lemma_mod_decreases(buffers.len as nat, 0x1_0000_0000);
    }
    assert((len / count) * count == count * (len / count)) by (nonlinear_arith);
}

/// Whether nothing is set in an entry that every request has a place for.
pub open spec fn is_clean(entry: io_uring_sqe) -> bool {
    &&& entry.flags == 0
    &&& entry.ioprio == 0
    &&& entry.user_data == 0
    &&& entry.personality == 0
}

/// Every request starts from a clean entry, so that flags, user data and personality that are set
/// before an event is prepared are lost.
pub proof fn law_requests_start_clean(fd: i32, other: i32, a: u64, b: u64, m: u32, n: u32, i: u16)
    ensures
        is_clean(uring_sys::nop_entry()),
        is_clean(uring_sys::readv_entry(fd, a, n, b)),
        is_clean(uring_sys::writev_entry(fd, a, n, b)),
        is_clean(uring_sys::read_entry(fd, a, n, b)),
        is_clean(uring_sys::write_entry(fd, a, n, b)),
        is_clean(uring_sys::read_fixed_entry(fd, a, n, b, i)),
        is_clean(uring_sys::write_fixed_entry(fd, a, n, b, i)),
        is_clean(uring_sys::fsync_entry(fd, n)),
        is_clean(uring_sys::splice_entry(fd, a, other, b, m, n)),
        is_clean(uring_sys::recv_entry(fd, a, m, n)),
        is_clean(uring_sys::send_entry(fd, a, m, n)),
        is_clean(uring_sys::recvmsg_entry(fd, a, n)),
        is_clean(uring_sys::sendmsg_entry(fd, a, n)),
        is_clean(uring_sys::fallocate_entry(fd, n, a, b)),
        is_clean(uring_sys::statx_entry(fd, a, m, n, b)),
        is_clean(uring_sys::openat_entry(fd, a, m, n)),
        is_clean(uring_sys::close_entry(fd)),
        is_clean(uring_sys::timeout_entry(a, m, n)),
        is_clean(uring_sys::timeout_remove_entry(a, n)),
        is_clean(uring_sys::link_timeout_entry(a, n)),
        is_clean(uring_sys::poll_add_entry(fd, i)),
        is_clean(uring_sys::poll_remove_entry(a)),
        is_clean(uring_sys::connect_entry(fd, a, n)),
        is_clean(uring_sys::accept_entry(fd, a, b, n)),
        is_clean(uring_sys::fadvise_entry(fd, a, m, n)),
        is_clean(uring_sys::madvise_entry(a, m, n)),
        is_clean(uring_sys::epoll_ctl_entry(fd, a, n, b)),
        is_clean(uring_sys::files_update_entry(a, n, b)),
        is_clean(uring_sys::provide_buffers_entry(a, n, fd, i, b)),
        is_clean(uring_sys::remove_buffers_entry(fd, i)),
        is_clean(uring_sys::cancel_entry(a, n)),
{
}

/// A read or write is told whether its buffer is registered by its opcode: with a registered one
/// the entry also names the buffer, and is the same otherwise.
pub proof fn law_registered_buffers(buf: RegisteredBuf, fd: RawFd, offset: u64)
    ensures
        buf.read_entry(fd, offset) == (io_uring_sqe {
            opcode: uring_sys::IORING_OP_READ_FIXED,
            buf_index: buf.index as u16,
            ..buf.data.read_entry(fd, offset)
        }),
        buf.write_entry(fd, offset) == (io_uring_sqe {
            opcode: uring_sys::IORING_OP_WRITE_FIXED,
            buf_index: buf.index as u16,
            ..buf.data.write_entry(fd, offset)
        }),
{
}

/// An event's view is the very entry that it borrows.
pub proof fn law_view<'a>(sqe: SQE<'a>)
    ensures
        sqe@ == *old(sqe.sqe),
{
}

/// The numbers that the kernel knows the submission flags by, each a bit of its own, and the range
/// of a ring's counters.
pub proof fn law_numbers()
    ensures
        uring_sys::IOSQE_FIXED_FILE == 1,
        uring_sys::IOSQE_IO_DRAIN == 2,
        uring_sys::IOSQE_IO_LINK == 4,
        uring_sys::IOSQE_IO_HARDLINK == 8,
        uring_sys::IOSQE_ASYNC == 16,
        uring_sys::IOSQE_BUFFER_SELECT == 32,
        uring_sys::COUNTER_SPAN == u32::MAX + 1,
        uring_sys::NO_FD == -1,
{
}

} // verus!
