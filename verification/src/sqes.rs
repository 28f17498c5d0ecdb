//! Batches of events from a ring, linked to each other or not.
use crate::flags::SubmissionFlags;
use crate::sqe::SQE;
use crate::uring_sys;
use crate::uring_sys::{io_uring, io_uring_sqe};
use vstd::prelude::*;

verus! {

/// A sequence of [`SQE`]s from the submission queue.
///
/// The slots that the events are to take come first from `run`, which reaches from the ring's
/// next slot to its last one, and then from `wrapped`, which starts at the ring's first slot.
pub struct SQEs<'ring> {
    /// The ring's count of the entries that it has handed out.
    pub sqe_tail: &'ring mut u32,
    pub run: Option<&'ring mut [io_uring_sqe]>,
    pub wrapped: Option<&'ring mut [io_uring_sqe]>,
    /// How many events the batch has in all.
    pub count: u32,
    /// How many of them have been handed out.
    pub consumed: u32,
}

/// Whether `run` and `wrapped` are `run_after` and `wrapped_after` with `slot` put back in front
/// of the one that it was taken from.
pub open spec fn restores(
    from_run: bool,
    slot: io_uring_sqe,
    run_after: Seq<io_uring_sqe>,
    wrapped_after: Seq<io_uring_sqe>,
    run: Seq<io_uring_sqe>,
    wrapped: Seq<io_uring_sqe>,
) -> bool {
    if from_run {
        run == seq![slot] + run_after && wrapped == wrapped_after
    } else {
        run == run_after && wrapped == seq![slot] + wrapped_after
    }
}

/// What the entry of an event in a chain becomes when its user is done with it: the last event of
/// the batch keeps its entry, any other gets the link.
pub open spec fn linked_entry(is_final: bool, link: u8, entry: io_uring_sqe) -> io_uring_sqe {
    if is_final {
        entry
    } else {
        io_uring_sqe { flags: entry.flags | link, ..entry }
    }
}

/// Takes the first slot off, if there is one.
fn take_first<'a>(slots: &mut Option<&'a mut [io_uring_sqe]>) -> (r: Option<&'a mut io_uring_sqe>)
    requires
        (*old(slots)) is Some,
    ensures
        (*final(slots)) is Some,
        r is Some <==> (*old(slots))->0@.len() > 0,
        r is None ==> *final(slots) == *old(slots),
        r is Some ==> {
            &&& (*final(slots))->0@ == (*old(slots))->0@.skip(1)
            &&& final((*old(slots))->0)@ == seq![*final(r->0)] + final((*final(slots))->0)@
        },
{
    let len: usize = match slots {
        Some(run) => run.len(),
        None => 0,
    };
    if len == 0 {
        return None;
    }
    match slots.take() {
        Some(run) => {
            let (first, rest) = run.split_at_mut(1);
            *slots = Some(rest);
            first.first_mut()
        },
        None => None,
    }
}

impl<'ring> SQEs<'ring> {
    pub open spec fn wf(self) -> bool {
        &&& self.run is Some
        &&& self.wrapped is Some
        &&& 0 <= self.left() <= self.run->0@.len() + self.wrapped->0@.len()
    }

    /// How many events are left to hand out.
    pub open spec fn left(self) -> int {
        self.count - self.consumed
    }

    /// Whether the next slot comes from `run`.
    pub open spec fn run_has_slots(self) -> bool {
        self.run->0@.len() > 0
    }

    /// Whether this is `before` with one more event handed out.
    pub open spec fn one_further(self, before: SQEs<'ring>) -> bool {
        &&& self.wf()
        &&& self.count == before.count
        &&& self.consumed == before.consumed + 1
        &&& *self.sqe_tail == (*before.sqe_tail + 1) % (uring_sys::COUNTER_SPAN as int)
        &&& if before.run_has_slots() {
            self.run->0@ == before.run->0@.skip(1) && self.wrapped->0@ == before.wrapped->0@
        } else {
            self.run->0@ == before.run->0@ && self.wrapped->0@ == before.wrapped->0@.skip(1)
        }
    }

    /// The next `count` events of the ring, for which it has to have room.
    ///
    /// What is done to the batch shows in the ring: in its slots, and in its count of the entries
    /// that it has handed out.
    pub fn new(sq: &'ring mut io_uring, count: u32) -> (r: SQEs<'ring>)
        requires
            old(sq).wf(),
            count <= old(sq).free(),
        ensures
            r.wf(),
            r.count == count,
            r.consumed == 0,
            *r.sqe_tail == old(sq).sqe_tail,
            r.run->0@ == old(sq).sqes@.skip(old(sq).next_slot()),
            r.wrapped->0@ == old(sq).sqes@.take(old(sq).next_slot()),
            final(sq).sqes@ == final(r.wrapped->0)@ + final(r.run->0)@,
            final(sq).sqe_tail == *final(r.sqe_tail),
            final(sq).khead == old(sq).khead,
    {
        let start: usize = sq.sqe_tail as usize % sq.sqes.len();
        let (wrapped, run) = sq.sqes.as_mut_slice().split_at_mut(start);
        SQEs {
            sqe_tail: &mut sq.sqe_tail,
            run: Some(run),
            wrapped: Some(wrapped),
            count,
            consumed: 0,
        }
    }

    /// An iterator of [`HardLinkedSQE`]s. These will be [`SQE`]s that are *hard-linked* together.
    ///
    /// Hard-linked SQEs will occur sequentially. All of them will be completed, even if one of the
    /// events resolves to an error.
    pub fn hard_linked<'a>(&'a mut self) -> (r: HardLinked<'ring, 'a>)
        ensures
            *r.sqes == *old(self),
            *final(r.sqes) == *final(self),
    {
        HardLinked { sqes: self }
    }

    /// An iterator of [`SoftLinkedSQE`]s. These will be [`SQE`]s that are *soft-linked* together.
    ///
    /// Soft-linked SQEs will occur sequentially. If one the events errors, all events after it will
    /// be cancelled.
    pub fn soft_linked<'a>(&'a mut self) -> (r: SoftLinked<'ring, 'a>)
        ensures
            *r.sqes == *old(self),
            *final(r.sqes) == *final(self),
    {
        SoftLinked { sqes: self }
    }

    /// Remaining [`SQE`]s that can be modified.
    pub fn remaining(&self) -> (r: u32)
        requires
            self.wf(),
        ensures
            r == self.left(),
            r + self.consumed == self.count,
    {
        self.count - self.consumed
    }

    /// Hands out the next event, prepared as a no-op, as long as there are any left.
    ///
    /// Whatever its user makes of the entry ends up in the slot.
    pub fn consume(&mut self) -> (r: Option<SQE<'ring>>)
        requires
            old(self).wf(),
        ensures
            final(self).wf(),
            r is Some <==> old(self).left() > 0,
            r is None ==> *final(self) == *old(self),
            r is Some ==> {
                &&& r->0@ == uring_sys::nop_entry()
                &&& final(self).one_further(*old(self))
                &&& *final(final(self).sqe_tail) == *final(old(self).sqe_tail)
                &&& restores(
                    old(self).run_has_slots(),
                    *final(r->0.sqe),
                    final(final(self).run->0)@,
                    final(final(self).wrapped->0)@,
                    final(old(self).run->0)@,
                    final(old(self).wrapped->0)@,
                )
            },
            r is Some <==> old(self).consumed < old(self).count,
            r is Some ==> {
                &&& final(self).count == old(self).count
                &&& final(self).consumed == old(self).consumed + 1
                &&& *final(self).sqe_tail == (if *old(self).sqe_tail == u32::MAX {
                    0
                } else {
                    *old(self).sqe_tail + 1
                })
            },
            r is Some && old(self).run->0@.len() > 0 ==> {
                &&& final(self).run->0@ == old(self).run->0@.skip(1)
                &&& final(self).wrapped->0@ == old(self).wrapped->0@
                &&& final(old(self).run->0)@ == seq![*final(r->0.sqe)] + final(final(self).run->0)@
                &&& final(old(self).wrapped->0)@ == final(final(self).wrapped->0)@
            },
            r is Some && old(self).run->0@.len() == 0 ==> {
                &&& final(self).run->0@ == old(self).run->0@
                &&& final(self).wrapped->0@ == old(self).wrapped->0@.skip(1)
                &&& final(old(self).run->0)@ == final(final(self).run->0)@
                &&& final(old(self).wrapped->0)@
                    == seq![*final(r->0.sqe)] + final(final(self).wrapped->0)@
            },
    {
        if self.consumed < self.count {
            let slot = match take_first(&mut self.run) {
                Some(slot) => Some(slot),
                None => take_first(&mut self.wrapped),
            };
            match slot {
                Some(sqe) => {
                    uring_sys::io_uring_prep_nop(sqe);
                    *self.sqe_tail = self.sqe_tail.wrapping_add(1);
                    self.consumed = self.consumed + 1;
                    Some(SQE { sqe })
                },
                None => None,
            }
        } else {
            None
        }
    }

    /// The next event, linked to none.
    pub fn next(&mut self) -> (r: Option<SQE<'ring>>)
        requires
            old(self).wf(),
        ensures
            final(self).wf(),
            r is Some <==> old(self).left() > 0,
            r is None ==> *final(self) == *old(self),
            r is Some ==> {
                &&& r->0@ == uring_sys::nop_entry()
                &&& final(self).one_further(*old(self))
                &&& *final(final(self).sqe_tail) == *final(old(self).sqe_tail)
                &&& restores(
                    old(self).run_has_slots(),
                    *final(r->0.sqe),
                    final(final(self).run->0)@,
                    final(final(self).wrapped->0)@,
                    final(old(self).run->0)@,
                    final(old(self).wrapped->0)@,
                )
            },
            r is Some <==> old(self).consumed < old(self).count,
            r is Some ==> {
                &&& final(self).count == old(self).count
                &&& final(self).consumed == old(self).consumed + 1
                &&& *final(self).sqe_tail == (if *old(self).sqe_tail == u32::MAX {
                    0
                } else {
                    *old(self).sqe_tail + 1
                })
            },
            r is Some && old(self).run->0@.len() > 0 ==> {
                &&& final(self).run->0@ == old(self).run->0@.skip(1)
                &&& final(self).wrapped->0@ == old(self).wrapped->0@
                &&& final(old(self).run->0)@ == seq![*final(r->0.sqe)] + final(final(self).run->0)@
                &&& final(old(self).wrapped->0)@ == final(final(self).wrapped->0)@
            },
            r is Some && old(self).run->0@.len() == 0 ==> {
                &&& final(self).run->0@ == old(self).run->0@
                &&& final(self).wrapped->0@ == old(self).wrapped->0@.skip(1)
                &&& final(old(self).run->0)@ == final(final(self).run->0)@
                &&& final(old(self).wrapped->0)@
                    == seq![*final(r->0.sqe)] + final(final(self).wrapped->0)@
            },
    {
        self.consume()
    }
}

/// An iterator of [`SQE`]s which will be hard linked together.
pub struct HardLinked<'ring, 'a> {
    pub sqes: &'a mut SQEs<'ring>,
}

impl<'ring, 'a> HardLinked<'ring, 'a> {
    /// Ends the chain with an event that links to none, if the batch has one left.
    pub fn terminate(self) -> (r: Option<SQE<'ring>>)
        requires
            self.sqes.wf(),
        ensures
            r is Some <==> old(self.sqes).left() > 0,
            r is None ==> *final(self.sqes) == *old(self.sqes),
            r is Some ==> {
                &&& r->0@ == uring_sys::nop_entry()
                &&& final(self.sqes).one_further(*old(self.sqes))
                &&& *final(final(self.sqes).sqe_tail) == *final(old(self.sqes).sqe_tail)
                &&& restores(
                    old(self.sqes).run_has_slots(),
                    *final(r->0.sqe),
                    final(final(self.sqes).run->0)@,
                    final(final(self.sqes).wrapped->0)@,
                    final(old(self.sqes).run->0)@,
                    final(old(self.sqes).wrapped->0)@,
                )
            },
            r is Some <==> old(self.sqes).consumed < old(self.sqes).count,
            r is Some ==> {
                &&& final(self.sqes).count == old(self.sqes).count
                &&& final(self.sqes).consumed == old(self.sqes).consumed + 1
                &&& *final(self.sqes).sqe_tail == (if *old(self.sqes).sqe_tail == u32::MAX {
                    0
                } else {
                    *old(self.sqes).sqe_tail + 1
                })
            },
            r is Some && old(self.sqes).run->0@.len() > 0 ==> {
                &&& final(self.sqes).run->0@ == old(self.sqes).run->0@.skip(1)
                &&& final(self.sqes).wrapped->0@ == old(self.sqes).wrapped->0@
                &&& final(old(self.sqes).run->0)@
                    == seq![*final(r->0.sqe)] + final(final(self.sqes).run->0)@
                &&& final(old(self.sqes).wrapped->0)@ == final(final(self.sqes).wrapped->0)@
            },
            r is Some && old(self.sqes).run->0@.len() == 0 ==> {
                &&& final(self.sqes).run->0@ == old(self.sqes).run->0@
                &&& final(self.sqes).wrapped->0@ == old(self.sqes).wrapped->0@.skip(1)
                &&& final(old(self.sqes).run->0)@ == final(final(self.sqes).run->0)@
                &&& final(old(self.sqes).wrapped->0)@
                    == seq![*final(r->0.sqe)] + final(final(self.sqes).wrapped->0)@
            },
    {
        self.sqes.consume()
    }

    /// The next event of the chain. It links to the one after it, unless it is the batch's last.
    pub fn next(&mut self) -> (r: Option<HardLinkedSQE<'ring>>)
        requires
            old(self).sqes.wf(),
        ensures
            *final(final(self).sqes) == *final(old(self).sqes),
            final(self).sqes.wf(),
            r is Some <==> old(self).sqes.left() > 0,
            r is None ==> *final(self).sqes == *old(self).sqes,
            r is Some ==> {
                &&& r->0.is_final == (old(self).sqes.left() == 1)
                &&& r->0.sqe@ == uring_sys::nop_entry()
                &&& final(self).sqes.one_further(*old(self).sqes)
                &&& *final(final(self).sqes.sqe_tail) == *final(old(self).sqes.sqe_tail)
                &&& restores(
                    old(self).sqes.run_has_slots(),
                    *final(r->0.sqe.sqe),
                    final(final(self).sqes.run->0)@,
                    final(final(self).sqes.wrapped->0)@,
                    final(old(self).sqes.run->0)@,
                    final(old(self).sqes.wrapped->0)@,
                )
            },
            r is Some <==> old(self).sqes.consumed < old(self).sqes.count,
            r is Some ==> {
                &&& final(self).sqes.count == old(self).sqes.count
                &&& final(self).sqes.consumed == old(self).sqes.consumed + 1
                &&& *final(self).sqes.sqe_tail == (if *old(self).sqes.sqe_tail == u32::MAX {
                    0
                } else {
                    *old(self).sqes.sqe_tail + 1
                })
            },
            r is Some && old(self).sqes.run->0@.len() > 0 ==> {
                &&& final(self).sqes.run->0@ == old(self).sqes.run->0@.skip(1)
                &&& final(self).sqes.wrapped->0@ == old(self).sqes.wrapped->0@
                &&& final(old(self).sqes.run->0)@
                    == seq![*final(r->0.sqe.sqe)] + final(final(self).sqes.run->0)@
                &&& final(old(self).sqes.wrapped->0)@ == final(final(self).sqes.wrapped->0)@
            },
            r is Some && old(self).sqes.run->0@.len() == 0 ==> {
                &&& final(self).sqes.run->0@ == old(self).sqes.run->0@
                &&& final(self).sqes.wrapped->0@ == old(self).sqes.wrapped->0@.skip(1)
                &&& final(old(self).sqes.run->0)@ == final(final(self).sqes.run->0)@
                &&& final(old(self).sqes.wrapped->0)@
                    == seq![*final(r->0.sqe.sqe)] + final(final(self).sqes.wrapped->0)@
            },
            r is Some ==> r->0.is_final == (old(self).sqes.consumed + 1 == old(self).sqes.count),
    {
        let is_final = self.sqes.remaining() == 1;
        match self.sqes.consume() {
            Some(sqe) => Some(HardLinkedSQE { sqe, is_final }),
            None => None,
        }
    }
}

/// An event that gets its hard link, unless it is its batch's last, when it goes out of use.
pub struct HardLinkedSQE<'ring> {
    pub sqe: SQE<'ring>,
    pub is_final: bool,
}

impl<'ring> core::ops::Deref for HardLinkedSQE<'ring> {
    type Target = SQE<'ring>;

    fn deref(&self) -> (r: &SQE<'ring>)
        ensures
            *r == self.sqe,
    {
        &self.sqe
    }
}

impl<'ring> core::ops::DerefMut for HardLinkedSQE<'ring> {
    fn deref_mut(&mut self) -> (r: &mut SQE<'ring>)
        ensures
            *r == old(self).sqe,
            final(self).sqe == *final(r),
            final(self).is_final == old(self).is_final,
    {
        &mut self.sqe
    }
}

impl<'ring> Drop for HardLinkedSQE<'ring> {
    /// The link is set last, since preparing the event takes it away.
    fn drop(&mut self)
        ensures
            final(self).is_final == old(self).is_final,
            final(self).sqe@ == linked_entry(
                old(self).is_final,
                uring_sys::IOSQE_IO_HARDLINK,
                old(self).sqe@,
            ),
            old(self).is_final ==> final(self).sqe@ == old(self).sqe@,
            !old(self).is_final ==> final(self).sqe@ == (io_uring_sqe {
                flags: old(self).sqe@.flags | uring_sys::IOSQE_IO_HARDLINK,
                ..old(self).sqe@
            }),
            *final(final(self).sqe.sqe) == *final(old(self).sqe.sqe),
        opens_invariants none
        no_unwind
    {
        if !self.is_final {
            self.sqe.set_flags(SubmissionFlags::IO_HARDLINK());
        }
    }
}

/// An iterator of [`SQE`]s which will be soft linked together.
pub struct SoftLinked<'ring, 'a> {
    pub sqes: &'a mut SQEs<'ring>,
}

impl<'ring, 'a> SoftLinked<'ring, 'a> {
    /// Ends the chain with an event that links to none, if the batch has one left.
    pub fn terminate(self) -> (r: Option<SQE<'ring>>)
        requires
            self.sqes.wf(),
        ensures
            r is Some <==> old(self.sqes).left() > 0,
            r is None ==> *final(self.sqes) == *old(self.sqes),
            r is Some ==> {
                &&& r->0@ == uring_sys::nop_entry()
                &&& final(self.sqes).one_further(*old(self.sqes))
                &&& *final(final(self.sqes).sqe_tail) == *final(old(self.sqes).sqe_tail)
                &&& restores(
                    old(self.sqes).run_has_slots(),
                    *final(r->0.sqe),
                    final(final(self.sqes).run->0)@,
                    final(final(self.sqes).wrapped->0)@,
                    final(old(self.sqes).run->0)@,
                    final(old(self.sqes).wrapped->0)@,
                )
            },
            r is Some <==> old(self.sqes).consumed < old(self.sqes).count,
            r is Some ==> {
                &&& final(self.sqes).count == old(self.sqes).count
                &&& final(self.sqes).consumed == old(self.sqes).consumed + 1
                &&& *final(self.sqes).sqe_tail == (if *old(self.sqes).sqe_tail == u32::MAX {
                    0
                } else {
                    *old(self.sqes).sqe_tail + 1
                })
            },
            r is Some && old(self.sqes).run->0@.len() > 0 ==> {
                &&& final(self.sqes).run->0@ == old(self.sqes).run->0@.skip(1)
                &&& final(self.sqes).wrapped->0@ == old(self.sqes).wrapped->0@
                &&& final(old(self.sqes).run->0)@
                    == seq![*final(r->0.sqe)] + final(final(self.sqes).run->0)@
                &&& final(old(self.sqes).wrapped->0)@ == final(final(self.sqes).wrapped->0)@
            },
            r is Some && old(self.sqes).run->0@.len() == 0 ==> {
                &&& final(self.sqes).run->0@ == old(self.sqes).run->0@
                &&& final(self.sqes).wrapped->0@ == old(self.sqes).wrapped->0@.skip(1)
                &&& final(old(self.sqes).run->0)@ == final(final(self.sqes).run->0)@
                &&& final(old(self.sqes).wrapped->0)@
                    == seq![*final(r->0.sqe)] + final(final(self.sqes).wrapped->0)@
            },
    {
        self.sqes.consume()
    }

    /// The next event of the chain. It links to the one after it, unless it is the batch's last.
    pub fn next(&mut self) -> (r: Option<SoftLinkedSQE<'ring>>)
        requires
            old(self).sqes.wf(),
        ensures
            *final(final(self).sqes) == *final(old(self).sqes),
            final(self).sqes.wf(),
            r is Some <==> old(self).sqes.left() > 0,
            r is None ==> *final(self).sqes == *old(self).sqes,
            r is Some ==> {
                &&& r->0.is_final == (old(self).sqes.left() == 1)
                &&& r->0.sqe@ == uring_sys::nop_entry()
                &&& final(self).sqes.one_further(*old(self).sqes)
                &&& *final(final(self).sqes.sqe_tail) == *final(old(self).sqes.sqe_tail)
                &&& restores(
                    old(self).sqes.run_has_slots(),
                    *final(r->0.sqe.sqe),
                    final(final(self).sqes.run->0)@,
                    final(final(self).sqes.wrapped->0)@,
                    final(old(self).sqes.run->0)@,
                    final(old(self).sqes.wrapped->0)@,
                )
            },
            r is Some <==> old(self).sqes.consumed < old(self).sqes.count,
            r is Some ==> {
                &&& final(self).sqes.count == old(self).sqes.count
                &&& final(self).sqes.consumed == old(self).sqes.consumed + 1
                &&& *final(self).sqes.sqe_tail == (if *old(self).sqes.sqe_tail == u32::MAX {
                    0
                } else {
                    *old(self).sqes.sqe_tail + 1
                })
            },
            r is Some && old(self).sqes.run->0@.len() > 0 ==> {
                &&& final(self).sqes.run->0@ == old(self).sqes.run->0@.skip(1)
                &&& final(self).sqes.wrapped->0@ == old(self).sqes.wrapped->0@
                &&& final(old(self).sqes.run->0)@
                    == seq![*final(r->0.sqe.sqe)] + final(final(self).sqes.run->0)@
                &&& final(old(self).sqes.wrapped->0)@ == final(final(self).sqes.wrapped->0)@
            },
            r is Some && old(self).sqes.run->0@.len() == 0 ==> {
                &&& final(self).sqes.run->0@ == old(self).sqes.run->0@
                &&& final(self).sqes.wrapped->0@ == old(self).sqes.wrapped->0@.skip(1)
                &&& final(old(self).sqes.run->0)@ == final(final(self).sqes.run->0)@
                &&& final(old(self).sqes.wrapped->0)@
                    == seq![*final(r->0.sqe.sqe)] + final(final(self).sqes.wrapped->0)@
            },
            r is Some ==> r->0.is_final == (old(self).sqes.consumed + 1 == old(self).sqes.count),
    {
        let is_final = self.sqes.remaining() == 1;
        match self.sqes.consume() {
            Some(sqe) => Some(SoftLinkedSQE { sqe, is_final }),
            None => None,
        }
    }
}

/// An event that gets its soft link, unless it is its batch's last, when it goes out of use.
pub struct SoftLinkedSQE<'ring> {
    pub sqe: SQE<'ring>,
    pub is_final: bool,
}

impl<'ring> core::ops::Deref for SoftLinkedSQE<'ring> {
    type Target = SQE<'ring>;

    fn deref(&self) -> (r: &SQE<'ring>)
        ensures
            *r == self.sqe,
    {
        &self.sqe
    }
}

impl<'ring> core::ops::DerefMut for SoftLinkedSQE<'ring> {
    fn deref_mut(&mut self) -> (r: &mut SQE<'ring>)
        ensures
            *r == old(self).sqe,
            final(self).sqe == *final(r),
            final(self).is_final == old(self).is_final,
    {
        &mut self.sqe
    }
}

impl<'ring> Drop for SoftLinkedSQE<'ring> {
    /// The link is set last, since preparing the event takes it away.
    fn drop(&mut self)
        ensures
            final(self).is_final == old(self).is_final,
            final(self).sqe@ == linked_entry(
                old(self).is_final,
                uring_sys::IOSQE_IO_LINK,
                old(self).sqe@,
            ),
            old(self).is_final ==> final(self).sqe@ == old(self).sqe@,
            !old(self).is_final ==> final(self).sqe@ == (io_uring_sqe {
                flags: old(self).sqe@.flags | uring_sys::IOSQE_IO_LINK,
                ..old(self).sqe@
            }),
            *final(final(self).sqe.sqe) == *final(old(self).sqe.sqe),
        opens_invariants none
        no_unwind
    {
        if !self.is_final {
            self.sqe.set_flags(SubmissionFlags::IO_LINK());
        }
    }
}

} // verus!
