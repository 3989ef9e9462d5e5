use starry::futex::{clear_wait, get_futex_key, FutexKey, FutexRobustList, FutexWaitTable, FutexWaiter};
use starry::futex_syscall::{
    futex_args, futex_operation, futex_requeue, futex_requeue_op, futex_timeout,
    syscall_futex_call, syscall_futex_result, futex_wait_enqueue, futex_wait_finish, futex_wait_yields,
    futex_wake, get_robust_list, robust_list_len_valid, syscall_set_robust_list, RobustList,
    FutexFlags, SyscallError, TimeSecs,
};
use std::collections::BTreeMap;

fn w(task_id: u64, process_id: u64) -> FutexWaiter {
    FutexWaiter { task_id, process_id, val: 0 }
}

fn tasks(t: &FutexWaitTable, k: &FutexKey) -> Option<Vec<u64>> {
    t.waiters_of(k).map(|v| v.iter().map(|x| x.task_id).collect())
}

#[test]
fn futex_key_splits_the_address() {
    let k = get_futex_key(7, 0x1234_5678, 0);
    assert_eq!(k.ptr(), 7);
    assert_eq!(k.word(), 0x1234_5000);
    assert_eq!(k.offset(), 0x678);
    assert_eq!(get_futex_key(7, 0x1234_5678, 128), k);
    assert_ne!(get_futex_key(8, 0x1234_5678, 0), k);
    assert_ne!(get_futex_key(7, 0x1234_567c, 0), k);
}

#[test]
fn robust_list_new() {
    let r = FutexRobustList::new(0x1000, 24);
    assert_eq!(r.head, 0x1000);
    assert_eq!(r.len, 24);
    let d = FutexRobustList::default();
    assert_eq!((d.head, d.len), (0, 0));
}

#[test]
fn enqueue_keeps_order_and_unqueue_takes_first() {
    let mut t = FutexWaitTable::new();
    let k = get_futex_key(1, 0x1000, 0);
    t.enqueue(k, w(10, 1));
    t.enqueue(k, w(11, 1));
    t.enqueue(k, w(10, 1));
    assert_eq!(tasks(&t, &k), Some(vec![10, 11, 10]));
    assert!(t.unqueue(k, 10));
    assert_eq!(tasks(&t, &k), Some(vec![11, 10]));
    assert!(!t.unqueue(k, 99));
    assert!(!t.unqueue(get_futex_key(1, 0x2000, 0), 11));
    assert_eq!(tasks(&t, &k), Some(vec![11, 10]));
}

#[test]
fn wake_takes_from_the_front() {
    let mut t = FutexWaitTable::new();
    let k = get_futex_key(1, 0x1000, 0);
    for id in 1..=5 {
        t.enqueue(k, w(id, 1));
    }
    assert_eq!(futex_wake(&mut t, k, 2), 2);
    assert_eq!(tasks(&t, &k), Some(vec![3, 4, 5]));
    assert_eq!(futex_wake(&mut t, k, 10), 3);
    assert_eq!(tasks(&t, &k), Some(vec![]));
    assert!(t.contains_key(&k));
    assert_eq!(futex_wake(&mut t, get_futex_key(1, 0x3000, 0), 1), 0);
}

#[test]
fn wake_zero_wakes_all() {
    let mut t = FutexWaitTable::new();
    let k = get_futex_key(1, 0x1000, 0);
    for id in 1..=4 {
        t.enqueue(k, w(id, 1));
    }
    assert_eq!(t.wake(k, 0), 4);
    assert_eq!(tasks(&t, &k), Some(vec![]));
}

#[test]
fn requeue_wakes_then_moves() {
    let mut t = FutexWaitTable::new();
    let src = get_futex_key(3, 0x1000, 0);
    let dst = get_futex_key(3, 0x2000, 0);
    for id in 1..=6 {
        t.enqueue(src, w(id, 3));
    }
    t.enqueue(dst, w(100, 3));
    let woken = futex_requeue(&mut t, 3, 2, 3, 0x1000, 0x2000);
    assert_eq!(woken.iter().map(|x| x.task_id).collect::<Vec<_>>(), vec![1, 2]);
    assert_eq!(tasks(&t, &src), Some(vec![6]));
    assert_eq!(tasks(&t, &dst), Some(vec![100, 3, 4, 5]));
}

#[test]
fn requeue_without_source_does_nothing() {
    let mut t = FutexWaitTable::new();
    let woken = futex_requeue(&mut t, 3, 2, 3, 0x1000, 0x2000);
    assert!(woken.is_empty());
    assert!(!t.contains_key(&get_futex_key(3, 0x1000, 0)));
    assert!(!t.contains_key(&get_futex_key(3, 0x2000, 0)));
}

#[test]
fn requeue_all_woken_moves_nothing() {
    let mut t = FutexWaitTable::new();
    let src = get_futex_key(3, 0x1000, 0);
    t.enqueue(src, w(1, 3));
    let woken = futex_requeue(&mut t, 3, 5, 5, 0x1000, 0x2000);
    assert_eq!(woken.len(), 1);
    assert_eq!(tasks(&t, &src), Some(vec![]));
    assert!(!t.contains_key(&get_futex_key(3, 0x2000, 0)));
}

#[test]
fn requeue_creates_destination_queue() {
    let mut t = FutexWaitTable::new();
    let src = get_futex_key(3, 0x1000, 0);
    let dst = get_futex_key(3, 0x2004, 0);
    for id in 1..=3 {
        t.enqueue(src, w(id, 3));
    }
    let woken = futex_requeue(&mut t, 3, 0, 10, 0x1000, 0x2004);
    assert!(woken.is_empty());
    assert_eq!(tasks(&t, &src), Some(vec![]));
    assert_eq!(tasks(&t, &dst), Some(vec![1, 2, 3]));
}

#[test]
fn clear_wait_of_a_thread() {
    let mut t = FutexWaitTable::new();
    let a = get_futex_key(1, 0x1000, 0);
    let b = get_futex_key(1, 0x2000, 0);
    t.enqueue(a, w(10, 1));
    t.enqueue(a, w(11, 1));
    t.enqueue(b, w(10, 1));
    clear_wait(&mut t, 10, false);
    assert_eq!(tasks(&t, &a), Some(vec![11]));
    assert!(!t.contains_key(&b));
}

#[test]
fn clear_wait_of_a_process() {
    let mut t = FutexWaitTable::new();
    let a = get_futex_key(1, 0x1000, 0);
    let b = get_futex_key(2, 0x1000, 0);
    t.enqueue(a, w(10, 1));
    t.enqueue(a, w(20, 2));
    t.enqueue(b, w(11, 1));
    t.enqueue(b, w(21, 2));
    t.enqueue(b, w(12, 1));
    clear_wait(&mut t, 1, true);
    assert_eq!(tasks(&t, &a), Some(vec![20]));
    assert_eq!(tasks(&t, &b), Some(vec![21]));
    clear_wait(&mut t, 2, true);
    assert!(!t.contains_key(&a));
    assert!(!t.contains_key(&b));
}

#[test]
fn clear_wait_drops_empty_queues() {
    let mut t = FutexWaitTable::new();
    let a = get_futex_key(1, 0x1000, 0);
    t.enqueue(a, w(10, 1));
    assert_eq!(t.wake(a, 1), 1);
    assert!(t.contains_key(&a));
    clear_wait(&mut t, 99, false);
    assert!(!t.contains_key(&a));
}

#[test]
fn wait_enqueue_checks_mapping_and_value() {
    let mut t = FutexWaitTable::new();
    let k = get_futex_key(1, 0x1000, 0);
    let me = FutexWaiter { task_id: 5, process_id: 1, val: 42 };
    assert_eq!(futex_wait_enqueue(&mut t, k, me, false, 42), Err(SyscallError::EFAULT));
    assert_eq!(futex_wait_enqueue(&mut t, k, me, true, 41), Err(SyscallError::EAGAIN));
    assert!(!t.contains_key(&k));
    assert_eq!(futex_wait_enqueue(&mut t, k, me, true, 42), Ok(()));
    assert_eq!(tasks(&t, &k), Some(vec![5]));
}

#[test]
fn wait_finish_outcomes() {
    let mut t = FutexWaitTable::new();
    let k = get_futex_key(1, 0x1000, 0);
    let me = FutexWaiter { task_id: 5, process_id: 1, val: 0 };
    assert_eq!(futex_wait_finish(&mut t, k, 5, true, true), Some(Ok(0)));
    t.enqueue(k, me);
    assert_eq!(futex_wait_finish(&mut t, k, 5, true, false), Some(Err(SyscallError::ETIMEDOUT)));
    t.enqueue(k, me);
    assert_eq!(futex_wait_finish(&mut t, k, 5, false, true), Some(Err(SyscallError::EINTR)));
    t.enqueue(k, me);
    assert_eq!(futex_wait_finish(&mut t, k, 5, false, false), None);
    assert_eq!(tasks(&t, &k), Some(vec![]));
    assert!(futex_wait_yields(0, true));
    assert!(futex_wait_yields(10, false));
    assert!(!futex_wait_yields(10, true));
}

#[test]
fn futex_args_decode() {
    let a = futex_args([0x1000, 0x1_0000_0081, 0x1_0000_0002, 77, 0x2000, 0x1_0000_0003]);
    assert_eq!(a.vaddr, 0x1000);
    assert_eq!(a.futex_op, 0x81);
    assert_eq!(a.futex_val, 2);
    assert_eq!(a.time_out_val, 77);
    assert_eq!(a.vaddr2, 0x2000);
    assert_eq!(a.val3, 3);
}

#[test]
fn set_and_get_robust_list() {
    let size = std::mem::size_of::<RobustList>();
    assert!(robust_list_len_valid(size));
    assert!(!robust_list_len_valid(size + 1));
    let mut lists = BTreeMap::new();
    assert_eq!(syscall_set_robust_list([0x5000, size + 1, 0, 0, 0, 0], 9, true, &mut lists), Err(SyscallError::EINVAL));
    assert_eq!(syscall_set_robust_list([0x5000, size, 0, 0, 0, 0], 9, false, &mut lists), Err(SyscallError::EINVAL));
    assert!(lists.is_empty());
    assert_eq!(syscall_set_robust_list([0x5000, size, 0, 0, 0, 0], 9, true, &mut lists), Ok(0));
    assert_eq!(get_robust_list(0, 9, true, &lists), Ok(FutexRobustList::new(0x5000, size)));
    assert_eq!(get_robust_list(1, 9, true, &lists), Err(SyscallError::EPERM));
    assert_eq!(get_robust_list(0, 9, false, &lists), Err(SyscallError::EPERM));
    assert_eq!(get_robust_list(0, 8, true, &lists), Err(SyscallError::EPERM));
}

#[test]
fn futex_operation_decoding() {
    assert_eq!(FutexFlags::new(0), FutexFlags::Wait);
    assert_eq!(FutexFlags::new(128), FutexFlags::Wait);
    assert_eq!(FutexFlags::new(1), FutexFlags::Wake);
    assert_eq!(FutexFlags::new(129), FutexFlags::Wake);
    assert_eq!(FutexFlags::new(3), FutexFlags::Requeue);
    assert_eq!(FutexFlags::new(2), FutexFlags::Unsupported);
    assert_eq!(FutexFlags::new(9), FutexFlags::Unsupported);
}

#[test]
fn timespec_to_nanos() {
    let t = TimeSecs { tv_sec: 2, tv_nsec: 500 };
    assert_eq!(t.turn_to_nanos(), 2_000_000_500);
}

#[test]
fn futex_operation_dispatch() {
    assert_eq!(futex_operation(128), Ok(FutexFlags::Wait));
    assert_eq!(futex_operation(1), Ok(FutexFlags::Wake));
    assert_eq!(futex_operation(3), Ok(FutexFlags::Requeue));
    assert_eq!(futex_operation(4), Err(SyscallError::EINVAL));
}

#[test]
fn futex_timeout_and_result() {
    let t = TimeSecs { tv_sec: 1, tv_nsec: 5 };
    assert_eq!(futex_timeout(0, Some(t)), 0);
    assert_eq!(futex_timeout(0x4000, None), 0);
    assert_eq!(futex_timeout(0x4000, Some(t)), 1_000_000_005);
    assert_eq!(syscall_futex_result(Ok(3)), Ok(3));
    assert_eq!(syscall_futex_result(Err(SyscallError::EAGAIN)), Err(SyscallError::EAGAIN));
}

#[test]
fn futex_requeue_op_returns_zero() {
    let mut t = FutexWaitTable::new();
    let src = get_futex_key(3, 0x1000, 0);
    for id in 1..=3 {
        t.enqueue(src, w(id, 3));
    }
    let (r, woken) = futex_requeue_op(&mut t, 3, 1, 1, 0x1000, 0x3000);
    assert_eq!(r, Ok(0));
    assert_eq!(woken.len(), 1);
    assert_eq!(tasks(&t, &src), Some(vec![3]));
    assert_eq!(tasks(&t, &get_futex_key(3, 0x3000, 0)), Some(vec![2]));
}

#[test]
fn syscall_futex_wiring() {
    let t = TimeSecs { tv_sec: 1, tv_nsec: 5 };
    let c = syscall_futex_call([0x1000, 0x1_0000_0081, 7, 0x4000, 0x2000, 9], Some(t));
    assert_eq!((c.vaddr, c.futex_op, c.val), (0x1000, 0x81, 7));
    assert_eq!((c.timeout, c.vaddr2, c.val2, c.val3), (1_000_000_005, 0x2000, 0x4000, 9));
    let c = syscall_futex_call([0x1000, 3, 1, 0, 0x2000, 0], None);
    assert_eq!((c.timeout, c.val2), (0, 0));
}
