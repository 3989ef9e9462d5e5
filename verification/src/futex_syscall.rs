//! The decisions of the futex and robust-list system calls.
//!
//! Reading user memory, the clock, signals and the scheduler stay with the
//! caller; these functions take what those gave and say what happens next.

use crate::futex::{
    futex_key_of, get_futex_key, queue_of, requeue_effect, wake_count, FutexKey, FutexRobustList,
    FutexWaitTable, FutexWaiter,
};
use std::collections::BTreeMap;
use vstd::prelude::*;

verus! {

/// The errors of the futex system calls.
#[allow(non_camel_case_types)]
#[derive(Clone, Copy, Debug, PartialEq, Eq, Structural)]
pub enum SyscallError {
    /// The futex word no longer holds the expected value.
    EAGAIN,
    /// The futex word is not mapped.
    EFAULT,
    /// A signal interrupted the wait.
    EINTR,
    /// An invalid argument.
    EINVAL,
    /// The robust list is not available.
    EPERM,
    /// The wait timed out.
    ETIMEDOUT,
}

/// The arguments of the `futex` system call, decoded from the raw registers.
#[derive(Clone, Copy, Debug, PartialEq, Eq, Structural)]
pub struct FutexArgs {
    /// The address of the futex word.
    pub vaddr: usize,
    /// The operation and its flags.
    pub futex_op: i32,
    /// The expected value, or the number of tasks to wake.
    pub futex_val: u32,
    /// The user address of the timeout, or the number of tasks to requeue.
    pub time_out_val: usize,
    /// The address of the second futex word.
    pub vaddr2: usize,
    /// The third value.
    pub val3: u32,
}

/// Decodes the six raw arguments of the `futex` system call.
pub fn futex_args(args: [usize; 6]) -> (r: FutexArgs)
    ensures
        r.vaddr == args[0],
        r.futex_op == args[1] as i32,
        r.futex_val == args[2] as u32,
        r.time_out_val == args[3],
        r.vaddr2 == args[4],
        r.val3 == args[5] as u32,
{
    FutexArgs {
        vaddr: args[0],
        futex_op: args[1] as i32,
        futex_val: args[2] as u32,
        time_out_val: args[3],
        vaddr2: args[4],
        val3: args[5] as u32,
    }
}

/// The futex operations the kernel implements.
#[derive(Clone, Copy, Debug, PartialEq, Eq, Structural)]
pub enum FutexFlags {
    /// `FUTEX_WAIT`
    Wait,
    /// `FUTEX_WAKE`
    Wake,
    /// `FUTEX_REQUEUE`
    Requeue,
    /// Any other operation.
    Unsupported,
}

/// The operation of `futex_op`: its low seven bits, the private and clock flags
/// (128 and 256) aside.
pub open spec fn futex_flags_spec(futex_op: i32) -> FutexFlags {
    let op = futex_op & 0x7f;
    if op == 0 {
        FutexFlags::Wait
    } else if op == 1 {
        FutexFlags::Wake
    } else if op == 3 {
        FutexFlags::Requeue
    } else {
        FutexFlags::Unsupported
    }
}

impl FutexFlags {
    /// Decodes the operation of `futex_op`.
    pub fn new(futex_op: i32) -> (r: Self)
        ensures
            r == futex_flags_spec(futex_op),
    {
        let op = futex_op & 0x7f;
        if op == 0 {
            FutexFlags::Wait
        } else if op == 1 {
            FutexFlags::Wake
        } else if op == 3 {
            FutexFlags::Requeue
        } else {
            FutexFlags::Unsupported
        }
    }
}

/// A `struct timespec` as user space passes it.
#[derive(Clone, Copy, Debug, PartialEq, Eq, Structural)]
pub struct TimeSecs {
    /// Seconds.
    pub tv_sec: usize,
    /// Nanoseconds.
    pub tv_nsec: usize,
}

impl TimeSecs {
    /// The duration in nanoseconds.
    pub fn turn_to_nanos(&self) -> (r: usize)
        requires
            self.tv_sec * 1_000_000_000 + self.tv_nsec <= usize::MAX,
        ensures
            r == self.tv_sec * 1_000_000_000 + self.tv_nsec,
    {
        self.tv_sec * 1_000_000_000 + self.tv_nsec
    }
}

/// The operation of `futex_op` when the kernel implements it; `EINVAL` otherwise.
pub fn futex_operation(futex_op: i32) -> (r: Result<FutexFlags, SyscallError>)
    ensures
        futex_flags_spec(futex_op) == FutexFlags::Unsupported ==> r == Err::<
            FutexFlags,
            SyscallError,
        >(SyscallError::EINVAL),
        futex_flags_spec(futex_op) != FutexFlags::Unsupported ==> r == Ok::<
            FutexFlags,
            SyscallError,
        >(futex_flags_spec(futex_op)),
{
    match FutexFlags::new(futex_op) {
        FutexFlags::Unsupported => Err(SyscallError::EINVAL),
        flags => Ok(flags),
    }
}

/// The timeout of a `futex` system call in nanoseconds: 0 without a timeout
/// address, or when the timeout could not be read (`timespec` is `None`).
pub fn futex_timeout(time_out_val: usize, timespec: Option<TimeSecs>) -> (r: usize)
    requires
        time_out_val != 0 ==> (timespec matches Some(t) ==> t.tv_sec * 1_000_000_000 + t.tv_nsec
            <= usize::MAX),
    ensures
        time_out_val == 0 ==> r == 0,
        time_out_val != 0 ==> r == match timespec {
            Some(t) => t.tv_sec * 1_000_000_000 + t.tv_nsec,
            None => 0,
        },
{
    if time_out_val == 0 {
        return 0;
    }
    match timespec {
        Some(t) => t.turn_to_nanos(),
        None => 0,
    }
}

/// The arguments of the futex operation that the `futex` system call performs.
#[derive(Clone, Copy, Debug, PartialEq, Eq, Structural)]
pub struct FutexCall {
    /// The address of the futex word.
    pub vaddr: usize,
    /// The operation and its flags.
    pub futex_op: i32,
    /// The expected value, or the number of tasks to wake.
    pub val: u32,
    /// The timeout in nanoseconds, 0 for none.
    pub timeout: usize,
    /// The address of the second futex word.
    pub vaddr2: usize,
    /// The number of tasks to requeue: the raw fourth argument.
    pub val2: usize,
    /// The third value.
    pub val3: u32,
}

/// The futex operation that the `futex` system call performs for the raw
/// arguments `args`, `timespec` being the timeout read at `args[3]` when that is
/// nonzero and mapped: the word at `args[0]`, the operation `args[1]`, the value
/// `args[2]`, the timeout, the second word at `args[4]`, `args[3]` itself as the
/// requeue count, and `args[5]`.
pub fn syscall_futex_call(args: [usize; 6], timespec: Option<TimeSecs>) -> (c: FutexCall)
    requires
        args[3] != 0 ==> (timespec matches Some(t) ==> t.tv_sec * 1_000_000_000 + t.tv_nsec
            <= usize::MAX),
    ensures
        c.vaddr == args[0],
        c.futex_op == args[1] as i32,
        c.val == args[2] as u32,
        args[3] == 0 ==> c.timeout == 0,
        args[3] != 0 ==> c.timeout == match timespec {
            Some(t) => t.tv_sec * 1_000_000_000 + t.tv_nsec,
            None => 0,
        },
        c.vaddr2 == args[4],
        c.val2 == args[3],
        c.val3 == args[5] as u32,
{
    let a = futex_args(args);
    let timeout = futex_timeout(a.time_out_val, timespec);
    FutexCall {
        vaddr: a.vaddr,
        futex_op: a.futex_op,
        val: a.futex_val,
        timeout,
        vaddr2: a.vaddr2,
        val2: a.time_out_val,
        val3: a.val3,
    }
}

/// The result of the `futex` system call from the result of the operation: the
/// count as a signed value, errors unchanged.
pub fn syscall_futex_result(r: Result<usize, SyscallError>) -> (s: Result<isize, SyscallError>)
    ensures
        s == match r {
            Ok(n) => Ok::<isize, SyscallError>(n as isize),
            Err(e) => Err::<isize, SyscallError>(e),
        },
{
    match r {
        Ok(ans) => Ok(#[verifier::truncate] (ans as isize)),
        Err(errno) => Err(errno),
    }
}

/// Futex requeue: wakes at most `wake_num` tasks waiting on the futex word at
/// `src_addr` of process `pid`; if tasks are left there, moves at most `move_num`
/// of them, in order, to the queue of the word at `dst_addr`.
///
/// Returns the woken tasks, in queue order, for the scheduler to notify.
pub fn futex_requeue(
    futex_wait_task: &mut FutexWaitTable,
    pid: u64,
    wake_num: u32,
    move_num: usize,
    src_addr: usize,
    dst_addr: usize,
) -> (woken: Vec<FutexWaiter>)
    requires
        old(futex_wait_task).wf(),
    ensures
        final(futex_wait_task).wf(),
        (woken@, final(futex_wait_task)@) == requeue_effect(
            old(futex_wait_task)@,
            futex_key_of(pid, src_addr),
            futex_key_of(pid, dst_addr),
            wake_num,
            move_num,
        ),
{
    let key = get_futex_key(pid, src_addr, 0);
    let key_new = get_futex_key(pid, dst_addr, 0);
    futex_wait_task.requeue(key, key_new, wake_num, move_num)
}

/// The requeue operation of the `futex` system call: [`futex_requeue`], whose
/// result is always 0. Returns the result and the woken tasks to notify.
pub fn futex_requeue_op(
    futex_wait_task: &mut FutexWaitTable,
    pid: u64,
    wake_num: u32,
    move_num: usize,
    src_addr: usize,
    dst_addr: usize,
) -> (r: (Result<usize, SyscallError>, Vec<FutexWaiter>))
    requires
        old(futex_wait_task).wf(),
    ensures
        final(futex_wait_task).wf(),
        r.0 == Ok::<usize, SyscallError>(0),
        (r.1@, final(futex_wait_task)@) == requeue_effect(
            old(futex_wait_task)@,
            futex_key_of(pid, src_addr),
            futex_key_of(pid, dst_addr),
            wake_num,
            move_num,
        ),
{
    let woken = futex_requeue(futex_wait_task, pid, wake_num, move_num, src_addr, dst_addr);
    (Ok(0), woken)
}

/// The first half of a futex wait: with the futex word mapped and holding the
/// expected value, the task joins the queue of `key`; otherwise the call fails.
pub fn futex_wait_enqueue(
    futex_wait_task: &mut FutexWaitTable,
    key: FutexKey,
    waiter: FutexWaiter,
    mapped: bool,
    real_futex_val: u32,
) -> (r: Result<(), SyscallError>)
    requires
        old(futex_wait_task).wf(),
    ensures
        final(futex_wait_task).wf(),
        !mapped ==> r == Err::<(), SyscallError>(SyscallError::EFAULT) && final(futex_wait_task)@
            == old(futex_wait_task)@,
        mapped && real_futex_val != waiter.val ==> r == Err::<(), SyscallError>(SyscallError::EAGAIN)
            && final(futex_wait_task)@ == old(futex_wait_task)@,
        mapped && real_futex_val == waiter.val ==> r == Ok::<(), SyscallError>(()) && final(futex_wait_task)@
            == old(futex_wait_task)@.insert(
            key,
            queue_of(old(futex_wait_task)@, key).push(waiter),
        ),
{
    if !mapped {
        return Err(SyscallError::EFAULT);
    }
    if real_futex_val != waiter.val {
        return Err(SyscallError::EAGAIN);
    }
    futex_wait_task.enqueue(key, waiter);
    Ok(())
}

/// Whether a waiting task yields the processor: always without a timeout, and
/// otherwise only while the deadline has not passed.
pub fn futex_wait_yields(timeout: usize, timed_out: bool) -> (r: bool)
    ensures
        r == (timeout == 0 || !timed_out),
{
    timeout == 0 || !timed_out
}

/// The second half of a futex wait, after the task ran again: a task that a wake
/// or requeue took from the queue succeeds; one still queued leaves the queue and
/// fails on a timeout or a pending signal, or else waits again (`None`).
pub fn futex_wait_finish(
    futex_wait_task: &mut FutexWaitTable,
    key: FutexKey,
    task_id: u64,
    timed_out: bool,
    signal_pending: bool,
) -> (r: Option<Result<usize, SyscallError>>)
    requires
        old(futex_wait_task).wf(),
    ensures
        final(futex_wait_task).wf(),
        ({
            let q = queue_of(old(futex_wait_task)@, key);
            let queued = exists|j: int| 0 <= j < q.len() && #[trigger] q[j].task_id == task_id;
            &&& !queued ==> r == Some(Ok::<usize, SyscallError>(0)) && final(futex_wait_task)@
                == old(futex_wait_task)@
            &&& queued ==> exists|p: int|
                0 <= p < q.len() && q[p].task_id == task_id && (forall|j: int|
                    0 <= j < p ==> #[trigger] q[j].task_id != task_id) && final(futex_wait_task)@
                    == old(futex_wait_task)@.insert(key, q.remove(p))
            &&& queued && timed_out ==> r == Some(Err::<usize, SyscallError>(SyscallError::ETIMEDOUT))
            &&& queued && !timed_out && signal_pending ==> r == Some(
                Err::<usize, SyscallError>(SyscallError::EINTR),
            )
            &&& queued && !timed_out && !signal_pending ==> r is None
        }),
{
    if !futex_wait_task.unqueue(key, task_id) {
        return Some(Ok(0));
    }
    if timed_out {
        return Some(Err(SyscallError::ETIMEDOUT));
    }
    if signal_pending {
        return Some(Err(SyscallError::EINTR));
    }
    None
}

/// Futex wake: takes at most `val` tasks from the front of the queue of `key`, or
/// all of them when `val` is 0, and returns how many it took.
pub fn futex_wake(futex_wait_task: &mut FutexWaitTable, key: FutexKey, val: u32) -> (r: usize)
    requires
        old(futex_wait_task).wf(),
        val == 0 ==> queue_of(old(futex_wait_task)@, key).len() <= u32::MAX,
    ensures
        final(futex_wait_task).wf(),
        r == wake_count(queue_of(old(futex_wait_task)@, key).len(), val),
        final(futex_wait_task)@ == if old(futex_wait_task)@.dom().contains(key) {
            old(futex_wait_task)@.insert(key, old(futex_wait_task)@[key].skip(r as int))
        } else {
            old(futex_wait_task)@
        },
{
    let ret = futex_wait_task.wake(key, val);
    ret as usize
}

/// The layout of the user's robust list head: the list, the futex offset and the
/// pending entry, one machine word each.
pub struct RobustList {
    /// The head of the list.
    pub head: usize,
    /// The offset of the futex word in each entry.
    pub off: usize,
    /// The entry being operated on.
    pub pending: usize,
}

/// Whether `len` is the size of the robust list head that `set_robust_list` accepts.
pub fn robust_list_len_valid(len: usize) -> (r: bool)
    ensures
        r == (len == vstd::layout::size_of::<RobustList>()),
{
    len == core::mem::size_of::<RobustList>()
}

/// `set_robust_list(head, len)` for task `curr_id`: the kernel only stores the
/// record, once it knows that `head` is mapped.
///
/// `head_mapped` tells whether the page of `head` is mapped; it is consulted only
/// when `len` is valid.
pub fn syscall_set_robust_list(
    args: [usize; 6],
    curr_id: u64,
    head_mapped: bool,
    robust_list: &mut BTreeMap<u64, FutexRobustList>,
) -> (r: Result<isize, SyscallError>)
    ensures
        args[1] != vstd::layout::size_of::<RobustList>() ==> r == Err::<isize, SyscallError>(
            SyscallError::EINVAL,
        ) && final(robust_list)@ == old(robust_list)@,
        args[1] == vstd::layout::size_of::<RobustList>() && !head_mapped ==> r == Err::<
            isize,
            SyscallError,
        >(SyscallError::EINVAL) && final(robust_list)@ == old(robust_list)@,
        args[1] == vstd::layout::size_of::<RobustList>() && head_mapped ==> r == Ok::<
            isize,
            SyscallError,
        >(0) && final(robust_list)@ == old(robust_list)@.insert(
            curr_id,
            FutexRobustList { head: args[0], len: args[1] },
        ),
{
    let head = args[0];
    let len = args[1];
    if !robust_list_len_valid(len) {
        return Err(SyscallError::EINVAL);
    }
    if head_mapped {
        robust_list.insert(curr_id, FutexRobustList::new(head, len));
        Ok(0)
    } else {
        Err(SyscallError::EINVAL)
    }
}

/// `get_robust_list(pid, head, len)` for task `curr_id`: only the calling thread
/// (`pid == 0`) may ask, the destination must be mapped, and the thread must have
/// set a robust list. Returns the record to copy out.
pub fn get_robust_list(
    pid: i32,
    curr_id: u64,
    head_mapped: bool,
    robust_list: &BTreeMap<u64, FutexRobustList>,
) -> (r: Result<FutexRobustList, SyscallError>)
    ensures
        pid == 0 && head_mapped && robust_list@.contains_key(curr_id) ==> r == Ok::<
            FutexRobustList,
            SyscallError,
        >(robust_list@[curr_id]),
        !(pid == 0 && head_mapped && robust_list@.contains_key(curr_id)) ==> r == Err::<
            FutexRobustList,
            SyscallError,
        >(SyscallError::EPERM),
{
    if pid != 0 || !head_mapped {
        return Err(SyscallError::EPERM);
    }
    match robust_list.get(&curr_id) {
        Some(list) => Ok(*list),
        None => Err(SyscallError::EPERM),
    }
}

} // verus!
