use iou::uring_sys::{io_uring, io_uring_sqe};
use iou::{BufferGroupId, Personality, SQEs, SockAddrStorage, SubmissionFlags, SQE};

#[test]
fn user_data_is_read_back() {
    let mut raw = io_uring_sqe::zeroed();
    let mut sqe = SQE::new(&mut raw);
    sqe.set_user_data(0xdead_beef);
    sqe.set_personality(Personality { id: 3 });
    sqe.overwrite_flags(SubmissionFlags::ASYNC());
    assert_eq!(sqe.user_data(), 0xdead_beef);
    assert_eq!(sqe.raw().personality, 3);
    assert_eq!(raw.user_data, 0xdead_beef);
    assert_eq!(raw.flags, 16);
}

#[test]
fn flags_add_up_until_they_are_overwritten() {
    let mut raw = io_uring_sqe::zeroed();
    let mut sqe = SQE::new(&mut raw);
    sqe.set_flags(SubmissionFlags::IO_DRAIN());
    sqe.set_flags(SubmissionFlags::IO_LINK().union(SubmissionFlags::IO_DRAIN()));
    assert_eq!(sqe.flags().bits(), 0b110);
    assert!(sqe.flags().contains(SubmissionFlags::IO_DRAIN()));
    assert!(!sqe.flags().contains(SubmissionFlags::ASYNC()));
    sqe.set_fixed_file();
    assert_eq!(sqe.flags().bits(), 0b111);
    sqe.overwrite_flags(SubmissionFlags::BUFFER_SELECT());
    assert_eq!(sqe.flags(), SubmissionFlags::BUFFER_SELECT());
    sqe.overwrite_flags(SubmissionFlags::empty());
    assert_eq!(sqe.flags().bits(), 0);
}

#[test]
fn flags_without_a_name_are_kept() {
    let mut raw = io_uring_sqe::zeroed();
    let mut sqe = SQE::new(&mut raw);
    sqe.overwrite_flags(SubmissionFlags::from_bits_retain(0xc0));
    assert_eq!(sqe.flags().bits(), 0xc0);
}

#[test]
fn named_flags() {
    let named = [
        SubmissionFlags::FIXED_FILE(),
        SubmissionFlags::IO_DRAIN(),
        SubmissionFlags::IO_LINK(),
        SubmissionFlags::IO_HARDLINK(),
        SubmissionFlags::ASYNC(),
        SubmissionFlags::BUFFER_SELECT(),
    ];
    for (i, flag) in named.iter().enumerate() {
        assert_eq!(flag.bits(), 1 << i);
    }
}

#[test]
fn clear_zeroes_everything() {
    let mut raw = io_uring_sqe::zeroed();
    let mut sqe = SQE::new(&mut raw);
    sqe.prep_nop();
    sqe.set_user_data(5);
    sqe.set_flags(SubmissionFlags::IO_LINK());
    sqe.clear();
    assert_eq!(sqe.user_data(), 0);
    assert_eq!(sqe.flags().bits(), 0);
    assert_eq!(raw, io_uring_sqe::zeroed());
}

#[test]
fn raw_mut_reaches_the_entry() {
    let mut raw = io_uring_sqe::zeroed();
    let mut sqe = SQE::new(&mut raw);
    sqe.raw_mut().ioprio = 7;
    assert_eq!(sqe.raw().ioprio, 7);
    assert_eq!(raw.ioprio, 7);
}

#[test]
fn room_for_the_largest_address() {
    let room = SockAddrStorage::uninit();
    assert_eq!(room.len, 128);
    assert_eq!(room.len, std::mem::size_of_val(&room.storage));
}

#[test]
fn groups_are_ordered_by_id() {
    assert!(BufferGroupId { id: 1 } < BufferGroupId { id: 2 });
    assert_eq!(BufferGroupId { id: 1 }, BufferGroupId { id: 1 });
}

#[test]
fn batch_hands_out_count_events() {
    let mut ring = io_uring::new(8);
    let mut sqes = SQEs::new(&mut ring, 3);
    assert_eq!(sqes.remaining(), 3);
    let mut first = sqes.next().unwrap();
    assert_eq!(sqes.remaining(), 2);
    let mut second = sqes.next().unwrap();
    let mut third = sqes.next().unwrap();
    assert_eq!(sqes.remaining(), 0);
    assert!(sqes.next().is_none());
    assert_eq!(sqes.remaining(), 0);
    first.set_user_data(1);
    third.set_user_data(3);
    second.set_user_data(2);
    let data: Vec<u64> = ring.sqes.iter().map(|sqe| sqe.user_data).collect();
    assert_eq!(data, vec![1, 2, 3, 0, 0, 0, 0, 0]);
    assert_eq!(ring.sqe_tail, 3);
    assert_eq!(ring.space_left(), 5);
}

#[test]
fn events_start_as_no_ops() {
    let mut ring = io_uring::new(2);
    for sqe in ring.sqes.iter_mut() {
        sqe.flags = 0xff;
        sqe.user_data = 9;
    }
    let mut sqes = SQEs::new(&mut ring, 1);
    let sqe = sqes.next().unwrap();
    assert_eq!(*sqe.raw(), io_uring_sqe { fd: -1, ..io_uring_sqe::zeroed() });
    assert_eq!(ring.sqes[1].user_data, 9);
}

#[test]
fn batch_wraps_around_the_ring_and_its_count() {
    let mut ring = io_uring::new(4);
    ring.khead = u32::MAX;
    ring.sqe_tail = u32::MAX;
    let mut sqes = SQEs::new(&mut ring, 4);
    for i in 0..4 {
        sqes.next().unwrap().set_user_data(10 + i);
    }
    let data: Vec<u64> = ring.sqes.iter().map(|sqe| sqe.user_data).collect();
    assert_eq!(data, vec![11, 12, 13, 10]);
    assert_eq!(ring.sqe_tail, 3);
    assert_eq!(ring.space_left(), 0);
}

#[test]
fn batches_follow_each_other() {
    let mut ring = io_uring::new(4);
    SQEs::new(&mut ring, 2).next().unwrap().set_user_data(1);
    SQEs::new(&mut ring, 2).next().unwrap().set_user_data(2);
    assert_eq!(ring.sqes[0].user_data, 1);
    assert_eq!(ring.sqes[1].user_data, 2);
    assert_eq!(ring.space_left(), 2);
}

#[test]
fn hard_chain() {
    let mut ring = io_uring::new(4);
    let mut sqes = SQEs::new(&mut ring, 3);
    let mut chain = sqes.hard_linked();
    let mut i = 0;
    while let Some(mut sqe) = chain.next() {
        sqe.prep_close(i);
        i += 1;
    }
    let flags: Vec<u8> = ring.sqes.iter().map(|sqe| sqe.flags).collect();
    assert_eq!(flags, vec![8, 8, 0, 0]);
    assert_eq!(ring.sqes[1].fd, 1);
}

#[test]
fn soft_chain_keeps_other_flags() {
    let mut ring = io_uring::new(4);
    let mut sqes = SQEs::new(&mut ring, 3);
    let mut chain = sqes.soft_linked();
    while let Some(mut sqe) = chain.next() {
        sqe.set_flags(SubmissionFlags::ASYNC());
    }
    let flags: Vec<u8> = ring.sqes.iter().map(|sqe| sqe.flags).collect();
    assert_eq!(flags, vec![20, 20, 16, 0]);
}

#[test]
fn chains_can_be_held_and_end_early() {
    let mut ring = io_uring::new(4);
    let mut sqes = SQEs::new(&mut ring, 4);
    {
        let mut chain = sqes.hard_linked();
        let first = chain.next().unwrap();
        let second = chain.next().unwrap();
        assert_eq!(first.flags().bits(), 0);
        assert_eq!(second.flags().bits(), 0);
        let last = chain.terminate().unwrap();
        assert_eq!(last.flags().bits(), 0);
    }
    assert_eq!(sqes.remaining(), 1);
    let mut chain = sqes.soft_linked();
    drop(chain.next().unwrap());
    assert!(chain.next().is_none());
    assert!(chain.terminate().is_none());
    let flags: Vec<u8> = ring.sqes.iter().map(|sqe| sqe.flags).collect();
    assert_eq!(flags, vec![8, 8, 0, 0]);
}

#[test]
fn soft_chain_ends_early() {
    let mut ring = io_uring::new(4);
    let mut sqes = SQEs::new(&mut ring, 4);
    let mut chain = sqes.soft_linked();
    drop(chain.next().unwrap());
    let mut last = chain.terminate().unwrap();
    last.set_user_data(6);
    let flags: Vec<u8> = ring.sqes.iter().map(|sqe| sqe.flags).collect();
    assert_eq!(flags, vec![4, 0, 0, 0]);
    assert_eq!(ring.sqes[1].user_data, 6);
}

fn crosses_threads<T: Send + Sync>(_: &T) {}

#[test]
fn events_cross_threads() {
    let mut raw = io_uring_sqe::zeroed();
    crosses_threads(&SQE::new(&mut raw));
}

#[test]
fn setters_commute() {
    let mut one = io_uring_sqe::zeroed();
    let mut two = io_uring_sqe::zeroed();
    let mut sqe = SQE::new(&mut one);
    sqe.set_flags(SubmissionFlags::IO_LINK());
    sqe.set_user_data(1);
    sqe.set_personality(Personality { id: 2 });
    let mut sqe = SQE::new(&mut two);
    sqe.set_personality(Personality { id: 2 });
    sqe.set_user_data(1);
    sqe.set_flags(SubmissionFlags::IO_LINK());
    assert_eq!(one, two);
}
