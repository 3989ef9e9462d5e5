//! The eventfd counter object used by the `eventfd2` system call.
//!
//! See <https://man7.org/linux/man-pages/man2/eventfd2.2.html>.

use vstd::prelude::*;

verus! {

/// The flags used to create an [`EventFd`] object.
///
/// The values follow `<sys/eventfd.h>`.
#[allow(non_camel_case_types)]
#[derive(Clone, Copy, Debug, PartialEq, Eq, Structural)]
pub enum EventFdFlag {
    /// SEMAPHORE flag
    EFD_SEMAPHORE,
    /// NONBLOCK flag
    EFD_NONBLOCK,
    /// CLOEXEC flag
    EFD_CLOEXEC,
}

impl EventFdFlag {
    /// The raw bits of the flag.
    pub open spec fn spec_bits(&self) -> u32 {
        match self {
            EventFdFlag::EFD_SEMAPHORE => semaphore_bit(),
            EventFdFlag::EFD_NONBLOCK => nonblock_bit(),
            EventFdFlag::EFD_CLOEXEC => cloexec_bit(),
        }
    }

    /// Returns the raw bits of the flag.
    #[verifier::when_used_as_spec(spec_bits)]
    pub fn bits(&self) -> (r: u32)
        ensures
            r == self.spec_bits(),
    {
        match self {
            EventFdFlag::EFD_SEMAPHORE => 0x1,
            EventFdFlag::EFD_NONBLOCK => 0x800,
            EventFdFlag::EFD_CLOEXEC => 0x80000,
        }
    }
}

/// The bit of `EFD_SEMAPHORE`.
pub open spec fn semaphore_bit() -> u32 {
    0x1
}

/// The bit of `EFD_NONBLOCK`.
pub open spec fn nonblock_bit() -> u32 {
    0x800
}

/// The bit of `EFD_CLOEXEC`.
pub open spec fn cloexec_bit() -> u32 {
    0x80000
}

/// The result of writing to an [`EventFd`] object.
#[derive(Clone, Copy, Debug, PartialEq, Eq, Structural)]
pub enum EventFdWriteResult {
    /// The write is done successfully.
    OK,
    /// An attempt is made to write the value 0xffffffffffffffff.
    BadInput,
    /// It is not writable yet: the counter would reach 0xffffffffffffffff.
    NotReady,
}

/// What a read does to a counter: the value it returns and the counter after it.
pub open spec fn read_effect(counter: u64, semaphore: bool) -> (Option<u64>, u64) {
    if counter == 0 {
        (None, 0)
    } else if semaphore {
        (Some(1u64), (counter - 1) as u64)
    } else {
        (Some(counter), 0)
    }
}

/// What a write of `val` does to a counter: the result and the counter after it.
pub open spec fn write_effect(counter: u64, val: u64) -> (EventFdWriteResult, u64) {
    if val == u64::MAX {
        (EventFdWriteResult::BadInput, counter)
    } else if counter + val < u64::MAX {
        (EventFdWriteResult::OK, (counter + val) as u64)
    } else {
        (EventFdWriteResult::NotReady, counter)
    }
}

/// An eventfd object: a 64-bit counter and the flags it was created with.
pub struct EventFd {
    value: u64,
    flags: u32,
}

impl EventFd {
    /// The counter.
    pub closed spec fn counter(&self) -> u64 {
        self.value
    }

    /// The flags given at creation.
    pub closed spec fn flag_bits(&self) -> u32 {
        self.flags
    }

    /// Whether the object reads in semaphore mode: `EFD_SEMAPHORE` (bit 0) is set.
    pub open spec fn semaphore(&self) -> bool {
        self.flag_bits() % 2 == 1
    }

    /// Create an EventFd object with an initial value and flags.
    pub fn new(initval: u64, flags: u32) -> (r: EventFd)
        ensures
            r.counter() == initval,
            r.flag_bits() == flags,
    {
        EventFd { value: initval, flags }
    }

    /// Read the EventFd.
    ///
    /// Without `EFD_SEMAPHORE`, a read of a nonzero counter returns the counter
    /// and resets it to zero. With `EFD_SEMAPHORE`, a read of a nonzero counter
    /// returns 1 and decrements the counter. A read of a zero counter returns
    /// `None` and changes nothing.
    pub fn read(&mut self) -> (r: Option<u64>)
        ensures
            final(self).flag_bits() == old(self).flag_bits(),
            (r, final(self).counter()) == read_effect(old(self).counter(), old(self).semaphore()),
    {
        if !self.is_semaphore_set() && self.value != 0 {
            let result = self.value;
            self.value = 0;
            return Some(result);
        }
        if self.is_semaphore_set() && self.value != 0 {
            self.value -= 1;
            return Some(1u64);
        }
        None
    }

    /// Write to the EventFd: add `val` to the counter.
    ///
    /// Writing `u64::MAX` is refused as bad input. A write that would bring the
    /// counter to `u64::MAX` or beyond is not ready and changes nothing.
    pub fn write(&mut self, val: u64) -> (r: EventFdWriteResult)
        ensures
            final(self).flag_bits() == old(self).flag_bits(),
            (r, final(self).counter()) == write_effect(old(self).counter(), val),
    {
        if val == u64::MAX {
            return EventFdWriteResult::BadInput;
        }
        match self.value.checked_add(val + 1) {
            Some(_) => {
                self.value += val;
                EventFdWriteResult::OK
            },
            None => EventFdWriteResult::NotReady,
        }
    }

    /// Check if the specified flag is set or not.
    pub fn is_flag_set(&self, flag: EventFdFlag) -> (r: bool)
        ensures
            r == (self.flag_bits() & flag.spec_bits() != 0),
    {
        self.flags & flag.bits() != 0
    }

    /// The object is readable if the counter has a value greater than 0.
    pub fn ready_to_read(&self) -> (r: bool)
        ensures
            r == (self.counter() > 0),
    {
        self.value > 0
    }

    /// The object is writable if a value of at least 1 can be written without blocking.
    pub fn ready_to_write(&self) -> (r: bool)
        ensures
            r == (self.counter() < u64::MAX - 1),
    {
        self.value < u64::MAX - 1
    }

    fn is_semaphore_set(&self) -> (r: bool)
        ensures
            r == self.semaphore(),
    {
        let f = self.flags;
        assert((f & 1 != 0) == (f % 2 == 1)) by (bit_vector);
        self.is_flag_set(EventFdFlag::EFD_SEMAPHORE)
    }

    fn is_nonblock_set(&self) -> (r: bool)
        ensures
            r == self.nonblocking(),
    {
        let f = self.flags;
        assert((f & 0x800 != 0) == ((f / 0x800) % 2 == 1)) by (bit_vector);
        self.is_flag_set(EventFdFlag::EFD_NONBLOCK)
    }
}

/// The size in bytes of the value that a read or write of an eventfd file carries.
pub const EVENTFD_VALUE_SIZE: usize = 8;

/// `O_RDWR`: the eventfd file is open for reading and writing.
pub const O_RDWR: u32 = 0o2;
/// `O_NONBLOCK`: the file does not block.
pub const O_NONBLOCK: u32 = 0o4000;
/// `O_CLOEXEC`: the file is closed on `exec`.
pub const O_CLOEXEC: u32 = 0o2000000;

/// What a read of the eventfd file does next.
#[derive(Clone, Copy, Debug, PartialEq, Eq, Structural)]
pub enum FileReadStep {
    /// The read completes with this value, to be copied into the buffer.
    Value(u64),
    /// The buffer is too small for the value.
    InvalidInput,
    /// The counter is zero and the object is nonblocking.
    WouldBlock,
    /// The counter is zero: yield and try again.
    Retry,
}

/// What a write of the eventfd file does next.
#[derive(Clone, Copy, Debug, PartialEq, Eq, Structural)]
pub enum FileWriteStep {
    /// The value was added to the counter.
    Written,
    /// The buffer is too small for the value, or the value was `u64::MAX`.
    InvalidInput,
    /// The counter cannot take the value now and the object is nonblocking.
    WouldBlock,
    /// The counter cannot take the value now: yield and try again.
    Retry,
}

impl EventFd {
    /// Whether the object was created nonblocking: `EFD_NONBLOCK` (bit 11) is set.
    pub open spec fn nonblocking(&self) -> bool {
        (self.flag_bits() / 0x800) % 2 == 1
    }

    /// The open flags of the eventfd file: read-write, plus `O_NONBLOCK` and
    /// `O_CLOEXEC` where `EFD_NONBLOCK` and `EFD_CLOEXEC` are set.
    pub fn get_status(&self) -> (r: u32)
        ensures
            r == O_RDWR + (if self.flag_bits() & nonblock_bit() != 0 {
                O_NONBLOCK
            } else {
                0
            }) + (if self.flag_bits() & cloexec_bit() != 0 {
                O_CLOEXEC
            } else {
                0
            }),
    {
        let mut status = O_RDWR;
        if self.is_flag_set(EventFdFlag::EFD_NONBLOCK) {
            status = status + O_NONBLOCK;
        }
        if self.is_flag_set(EventFdFlag::EFD_CLOEXEC) {
            status = status + O_CLOEXEC;
        }
        status
    }

    /// One attempt of a read of the eventfd file into a buffer of `buf_len` bytes.
    pub fn read_file_step(&mut self, buf_len: usize) -> (r: FileReadStep)
        ensures
            final(self).flag_bits() == old(self).flag_bits(),
            buf_len < EVENTFD_VALUE_SIZE ==> r == FileReadStep::InvalidInput
                && final(self).counter() == old(self).counter(),
            buf_len >= EVENTFD_VALUE_SIZE ==> final(self).counter() == read_effect(
                old(self).counter(),
                old(self).semaphore(),
            ).1 && r == match read_effect(old(self).counter(), old(self).semaphore()).0 {
                Some(v) => FileReadStep::Value(v),
                None => if old(self).nonblocking() {
                    FileReadStep::WouldBlock
                } else {
                    FileReadStep::Retry
                },
            },
    {
        if buf_len < EVENTFD_VALUE_SIZE {
            return FileReadStep::InvalidInput;
        }
        match self.read() {
            Some(value) => FileReadStep::Value(value),
            None => {
                if self.is_nonblock_set() {
                    FileReadStep::WouldBlock
                } else {
                    FileReadStep::Retry
                }
            },
        }
    }

    /// One attempt of a write to the eventfd file from a buffer of `buf_len` bytes
    /// whose first eight bytes hold `val`: a buffer shorter than the value is
    /// invalid input, and `val` is then ignored.
    pub fn write_file_step(&mut self, buf_len: usize, val: u64) -> (r: FileWriteStep)
        ensures
            final(self).flag_bits() == old(self).flag_bits(),
            buf_len < EVENTFD_VALUE_SIZE ==> r == FileWriteStep::InvalidInput
                && final(self).counter() == old(self).counter(),
            buf_len >= EVENTFD_VALUE_SIZE ==> final(self).counter() == write_effect(
                old(self).counter(),
                val,
            ).1,
            buf_len >= EVENTFD_VALUE_SIZE ==> r == match write_effect(old(self).counter(), val).0 {
                EventFdWriteResult::OK => FileWriteStep::Written,
                EventFdWriteResult::BadInput => FileWriteStep::InvalidInput,
                EventFdWriteResult::NotReady => if old(self).nonblocking() {
                    FileWriteStep::WouldBlock
                } else {
                    FileWriteStep::Retry
                },
            },
    {
        if buf_len < EVENTFD_VALUE_SIZE {
            return FileWriteStep::InvalidInput;
        }
        match self.write(val) {
            EventFdWriteResult::OK => FileWriteStep::Written,
            EventFdWriteResult::BadInput => FileWriteStep::InvalidInput,
            EventFdWriteResult::NotReady => {
                if self.is_nonblock_set() {
                    FileWriteStep::WouldBlock
                } else {
                    FileWriteStep::Retry
                }
            },
        }
    }
}

/// An object is ready to read exactly when a read returns a value.
pub proof fn law_ready_to_read_iff_read_returns(counter: u64, semaphore: bool)
    ensures
        (counter > 0) <==> read_effect(counter, semaphore).0 is Some,
{
}

/// An object is ready to write exactly when a write of 1 succeeds.
pub proof fn law_ready_to_write_iff_write_one_succeeds(counter: u64)
    ensures
        (counter < u64::MAX - 1) <==> write_effect(counter, 1).0 == EventFdWriteResult::OK,
{
}

/// A successful write leaves the counter below `u64::MAX`, so the counter never
/// reaches `u64::MAX` through writes.
pub proof fn law_write_keeps_counter_below_max(counter: u64, val: u64)
    ensures
        write_effect(counter, val).0 == EventFdWriteResult::OK ==> write_effect(counter, val).1
            < u64::MAX,
        write_effect(counter, val).0 != EventFdWriteResult::OK ==> write_effect(counter, val).1
            == counter,
{
}

/// Without `EFD_SEMAPHORE`, a read after a successful write of a nonzero value
/// returns everything the counter holds: its old value plus the value written,
/// and leaves the counter at zero.
pub proof fn law_read_returns_what_was_written(counter: u64, val: u64)
    requires
        write_effect(counter, val).0 == EventFdWriteResult::OK,
        counter + val > 0,
    ensures
        read_effect(write_effect(counter, val).1, false) == (Some((counter + val) as u64), 0u64),
{
}

/// In semaphore mode, `n` reads of a counter holding `n` each return 1 and leave
/// the counter at zero; one more read returns nothing.
pub proof fn law_semaphore_reads_drain_one_by_one(n: u64)
    ensures
        semaphore_reads(n, n as nat) == (n as nat, 0u64),
        read_effect(0, true).0 is None,
{
    lemma_semaphore_reads(n, n as nat);
}

/// Performs `k` semaphore reads on a counter: the sum of the values returned and the
/// counter after them.
pub open spec fn semaphore_reads(counter: u64, k: nat) -> (nat, u64)
    decreases k,
{
    if k == 0 {
        (0, counter)
    } else {
        let (v, c) = read_effect(counter, true);
        let (total, last) = semaphore_reads(c, (k - 1) as nat);
        (
            match v {
                Some(x) => (x + total) as nat,
                None => total,
            },
            last,
        )
    }
}

proof fn lemma_semaphore_reads(counter: u64, k: nat)
    requires
        k <= counter,
    ensures
        semaphore_reads(counter, k) == (k, (counter - k) as u64),
    decreases k,
{
    if k > 0 {
        lemma_semaphore_reads((counter - 1) as u64, (k - 1) as nat);
    }
}

/// Create an EventFd object with the given value and no flags.
pub fn create_eventfd(value: u64) -> (r: EventFd)
    ensures
        r.counter() == value,
        r.flag_bits() == 0,
{
    value.into()
}

/// Create an EventFd object with the given value and flags.
pub fn create_eventfd_with_flags(value: u64, flags: u32) -> (r: EventFd)
    ensures
        r.counter() == value,
        r.flag_bits() == flags,
{
    (value, flags).into()
}

impl From<u64> for EventFd {
    fn from(value: u64) -> (r: Self)
        ensures
            r.counter() == value,
            r.flag_bits() == 0,
    {
        EventFd { value, flags: 0 }
    }
}

impl vstd::std_specs::convert::FromSpecImpl<u64> for EventFd {
    open spec fn obeys_from_spec() -> bool {
        true
    }

    closed spec fn from_spec(v: u64) -> Self {
        EventFd { value: v, flags: 0 }
    }
}

impl From<(u64, u32)> for EventFd {
    fn from(pair: (u64, u32)) -> (r: Self)
        ensures
            r.counter() == pair.0,
            r.flag_bits() == pair.1,
    {
        EventFd { value: pair.0, flags: pair.1 }
    }
}

impl vstd::std_specs::convert::FromSpecImpl<(u64, u32)> for EventFd {
    open spec fn obeys_from_spec() -> bool {
        true
    }

    closed spec fn from_spec(v: (u64, u32)) -> Self {
        EventFd { value: v.0, flags: v.1 }
    }
}

} // verus!
