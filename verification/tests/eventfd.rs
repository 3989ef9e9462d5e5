use starry::eventfd::{
    create_eventfd, create_eventfd_with_flags, EventFd, EventFdFlag, EventFdWriteResult,
    FileReadStep, FileWriteStep,
};


#[test]
fn all_flags_should_not_set() {
    let event_fd: EventFd = 42.into();
    assert!(!event_fd.is_flag_set(EventFdFlag::EFD_SEMAPHORE));
    assert!(!event_fd.is_flag_set(EventFdFlag::EFD_NONBLOCK));
    assert!(!event_fd.is_flag_set(EventFdFlag::EFD_CLOEXEC));
}

#[test]
fn only_efd_semaphore_is_set() {
    let event_fd: EventFd = (42, 0x1).into();
    assert!(event_fd.is_flag_set(EventFdFlag::EFD_SEMAPHORE));
    assert!(!event_fd.is_flag_set(EventFdFlag::EFD_NONBLOCK));
    assert!(!event_fd.is_flag_set(EventFdFlag::EFD_CLOEXEC));
}

#[test]
fn only_efd_nonblock_is_set() {
    let event_fd: EventFd = (42, 0x800).into();
    assert!(!event_fd.is_flag_set(EventFdFlag::EFD_SEMAPHORE));
    assert!(event_fd.is_flag_set(EventFdFlag::EFD_NONBLOCK));
    assert!(!event_fd.is_flag_set(EventFdFlag::EFD_CLOEXEC));
}

#[test]
fn only_efd_cloexec_is_set() {
    let event_fd: EventFd = (42, 0x80000).into();
    assert!(!event_fd.is_flag_set(EventFdFlag::EFD_SEMAPHORE));
    assert!(!event_fd.is_flag_set(EventFdFlag::EFD_NONBLOCK));
    assert!(event_fd.is_flag_set(EventFdFlag::EFD_CLOEXEC));
}

#[test]
fn read_with_efd_semaphore_not_set() {
    let mut event_fd: EventFd = 42.into();
    assert_eq!(Some(42), event_fd.read());
    assert_eq!(None, event_fd.read());
}

#[test]
fn read_with_efd_semaphore_set() {
    let mut event_fd: EventFd = create_eventfd_with_flags(2, EventFdFlag::EFD_SEMAPHORE.bits());
    assert_eq!(Some(1), event_fd.read());
    assert_eq!(Some(1), event_fd.read());
    assert_eq!(None, event_fd.read());
}

#[test]
fn write_max_value() {
    let mut event_fd: EventFd = 42.into();
    assert_eq!(EventFdWriteResult::BadInput, event_fd.write(u64::MAX))
}

#[test]
fn test_overflow_write() {
    let mut event_fd: EventFd = (u64::MAX - 1).into();
    assert_eq!(EventFdWriteResult::NotReady, event_fd.write(2))
}

#[test]
fn test_non_overflow_write() {
    let mut event_fd: EventFd = (u64::MAX - 2).into();
    assert_eq!(EventFdWriteResult::OK, event_fd.write(1));

    assert_eq!(Some(u64::MAX - 1), event_fd.read());
}

#[test]
fn test_ready_to_read() {
    let event_fd1: EventFd = 0.into();
    assert!(!event_fd1.ready_to_read());

    let event_fd2: EventFd = 42.into();
    assert!(event_fd2.ready_to_read());
}

#[test]
fn test_ready_to_write() {
    let event_fd1: EventFd = 0.into();
    assert!(event_fd1.ready_to_write());

    let event_fd2: EventFd = (u64::MAX - 2).into();
    assert!(event_fd2.ready_to_write());

    let event_fd2: EventFd = (u64::MAX - 1).into();
    assert!(!event_fd2.ready_to_write());
}

#[test]
fn new_and_create_agree() {
    let mut a = EventFd::new(5, 0x1);
    let mut b = create_eventfd_with_flags(5, 0x1);
    let mut c = create_eventfd(5);
    assert_eq!(a.read(), Some(1));
    assert_eq!(b.read(), Some(1));
    assert_eq!(c.read(), Some(5));
    assert!(!c.is_flag_set(EventFdFlag::EFD_SEMAPHORE));
}

#[test]
fn flag_bits_follow_the_header() {
    assert_eq!(EventFdFlag::EFD_SEMAPHORE.bits(), 0x1);
    assert_eq!(EventFdFlag::EFD_NONBLOCK.bits(), 0x800);
    assert_eq!(EventFdFlag::EFD_CLOEXEC.bits(), 0x80000);
}

#[test]
fn write_then_read_returns_the_sum() {
    let mut fd: EventFd = 3.into();
    assert_eq!(fd.write(4), EventFdWriteResult::OK);
    assert_eq!(fd.read(), Some(7));
    assert!(!fd.ready_to_read());
}

#[test]
fn semaphore_drains_one_by_one() {
    let mut fd = EventFd::new(3, 0x1);
    assert_eq!(fd.read(), Some(1));
    assert_eq!(fd.read(), Some(1));
    assert_eq!(fd.read(), Some(1));
    assert_eq!(fd.read(), None);
}

#[test]
fn ready_to_write_matches_write_of_one() {
    let mut at_edge: EventFd = (u64::MAX - 2).into();
    assert!(at_edge.ready_to_write());
    assert_eq!(at_edge.write(1), EventFdWriteResult::OK);
    assert!(!at_edge.ready_to_write());
    assert_eq!(at_edge.write(1), EventFdWriteResult::NotReady);
    assert_eq!(at_edge.read(), Some(u64::MAX - 1));
}

#[test]
fn write_zero_is_ok_and_changes_nothing() {
    let mut fd: EventFd = 0.into();
    assert_eq!(fd.write(0), EventFdWriteResult::OK);
    assert_eq!(fd.read(), None);
}

#[test]
fn file_read_steps() {
    let mut fd = EventFd::new(9, 0);
    assert_eq!(fd.read_file_step(4), FileReadStep::InvalidInput);
    assert_eq!(fd.read_file_step(8), FileReadStep::Value(9));
    assert_eq!(fd.read_file_step(8), FileReadStep::Retry);
    let mut nb = EventFd::new(0, 0x800);
    assert_eq!(nb.read_file_step(16), FileReadStep::WouldBlock);
}

#[test]
fn file_write_steps() {
    let mut fd = EventFd::new(u64::MAX - 1, 0);
    assert_eq!(fd.write_file_step(8, u64::MAX), FileWriteStep::InvalidInput);
    assert_eq!(fd.write_file_step(8, 1), FileWriteStep::Retry);
    let mut nb = EventFd::new(u64::MAX - 1, 0x800);
    assert_eq!(nb.write_file_step(8, 1), FileWriteStep::WouldBlock);
    let mut ok = EventFd::new(1, 0x800);
    assert_eq!(ok.write_file_step(4, 1), FileWriteStep::InvalidInput);
    assert_eq!(ok.write_file_step(16, 1), FileWriteStep::Written);
    assert_eq!(ok.read(), Some(2));
}

#[test]
fn open_status_of_the_file() {
    assert_eq!(EventFd::new(0, 0).get_status(), 0o2);
    assert_eq!(EventFd::new(0, 0x800).get_status(), 0o2 | 0o4000);
    assert_eq!(EventFd::new(0, 0x80000 | 0x800 | 1).get_status(), 0o2 | 0o4000 | 0o2000000);
}
