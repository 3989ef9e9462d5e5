//! Futex keys, the table of tasks waiting on futex words, and the robust list
//! records of the futex system calls.

use std::collections::VecDeque;
use vstd::prelude::*;

verus! {

/// The size of a page in the 4K-page address arithmetic of futex keys.
pub const PAGE_SIZE_4K: usize = 0x1000;

/// Futexes are matched on equal values of this key.
///
/// The process id stands in for the address space, and the futex word is named by
/// its 4K-aligned page address and the offset into that page.
#[derive(Clone, Copy, Debug, PartialEq, Eq, Structural, PartialOrd, Ord, Hash)]
pub struct FutexKey {
    ptr: u64,
    word: usize,
    offset: u32,
}

impl FutexKey {
    /// The id of the process whose address space holds the futex word.
    pub closed spec fn spec_ptr(&self) -> u64 {
        self.ptr
    }

    /// The 4K-aligned address of the page that holds the futex word.
    pub closed spec fn spec_word(&self) -> usize {
        self.word
    }

    /// The offset of the futex word in its page.
    pub closed spec fn spec_offset(&self) -> u32 {
        self.offset
    }

    /// The id of the process whose address space holds the futex word.
    pub fn ptr(&self) -> (r: u64)
        ensures
            r == self.spec_ptr(),
    {
        self.ptr
    }

    /// The 4K-aligned address of the page that holds the futex word.
    pub fn word(&self) -> (r: usize)
        ensures
            r == self.spec_word(),
    {
        self.word
    }

    /// The offset of the futex word in its page.
    pub fn offset(&self) -> (r: u32)
        ensures
            r == self.spec_offset(),
    {
        self.offset
    }

    fn new(ptr: u64, word: usize, offset: u32) -> (r: Self)
        ensures
            r.spec_ptr() == ptr,
            r.spec_word() == word,
            r.spec_offset() == offset,
    {
        Self { ptr, word, offset }
    }
}

impl Default for FutexKey {
    fn default() -> (r: Self)
        ensures
            r.spec_ptr() == 0,
            r.spec_word() == 0,
            r.spec_offset() == 0,
    {
        Self { ptr: 0, word: 0, offset: 0 }
    }
}

/// The key of the futex word at user address `uaddr` of the process `pid`.
pub closed spec fn futex_key_of(pid: u64, uaddr: usize) -> FutexKey {
    FutexKey { ptr: pid, word: uaddr & !0xfffusize, offset: (uaddr & 0xfffusize) as u32 }
}

/// The key of the futex word at user address `uaddr` of the process `pid`.
pub fn get_futex_key(pid: u64, uaddr: usize, _flags: i32) -> (r: FutexKey)
    ensures
        r == futex_key_of(pid, uaddr),
        r.spec_ptr() == pid,
        r.spec_word() == uaddr & !0xfffusize,
        r.spec_offset() == uaddr & 0xfffusize,
{
    let offset = uaddr & (PAGE_SIZE_4K - 1);
    let word = uaddr & !(PAGE_SIZE_4K - 1);
    assert(offset <= 0xfff) by (bit_vector)
        requires
            offset == uaddr & 0xfffusize,
    ;
    FutexKey::new(pid, word, offset as u32)
}

/// A futex key names the process, and splits the address into a 4K-aligned page
/// address and an offset below 4K that add up to the address. Two addresses of
/// one process have the same key exactly when they are the same address.
pub proof fn law_futex_key_splits_address(pid: u64, uaddr: usize, other: usize)
    ensures
        futex_key_of(pid, uaddr).spec_ptr() == pid,
        futex_key_of(pid, uaddr).spec_word() + futex_key_of(pid, uaddr).spec_offset() == uaddr,
        futex_key_of(pid, uaddr).spec_word() % 0x1000 == 0,
        futex_key_of(pid, uaddr).spec_offset() < 0x1000,
        (futex_key_of(pid, uaddr) == futex_key_of(pid, other)) <==> (uaddr == other),
{
    assert((uaddr & !0xfffusize) + (uaddr & 0xfffusize) == uaddr && (uaddr & !0xfffusize)
        % 0x1000 == 0 && (uaddr & 0xfffusize) < 0x1000) by (bit_vector);
    assert((other & !0xfffusize) + (other & 0xfffusize) == other && (other & 0xfffusize) < 0x1000)
        by (bit_vector);
}

/// The record of a thread's robust list.
#[derive(Clone, Copy, Debug, PartialEq, Eq, Structural)]
pub struct FutexRobustList {
    /// The location of the head of the robust list in user space
    pub head: usize,
    /// The length of the robust list
    pub len: usize,
}

impl FutexRobustList {
    /// Create a new robust list
    pub fn new(head: usize, len: usize) -> (r: Self)
        ensures
            r.head == head,
            r.len == len,
    {
        Self { head, len }
    }
}

impl Default for FutexRobustList {
    fn default() -> (r: Self)
        ensures
            r.head == 0,
            r.len == 0,
    {
        Self { head: 0, len: 0 }
    }
}

/// A task waiting on a futex word, with the value the word held when it started waiting.
#[derive(Clone, Copy, Debug, PartialEq, Eq, Structural)]
pub struct FutexWaiter {
    /// The id of the waiting task.
    pub task_id: u64,
    /// The id of the process the task belongs to.
    pub process_id: u64,
    /// The value of the futex word the task saw.
    pub val: u32,
}

struct FutexQueue {
    key: FutexKey,
    waiters: VecDeque<FutexWaiter>,
}

/// The tasks waiting on each futex word, in the order in which they started waiting.
///
/// A key may be present with an empty queue: the queues that wakes and requeues
/// empty stay until [`clear_wait`] removes them.
///
/// The queues are kept in a vector, each key at most once, so that the table's
/// contracts do not rest on the ordering of the key type, which is derived.
pub struct FutexWaitTable {
    queues: Vec<FutexQueue>,
}

spec fn queues_map(qs: Seq<FutexQueue>) -> Map<FutexKey, Seq<FutexWaiter>>
    decreases qs.len(),
{
    if qs.len() == 0 {
        Map::empty()
    } else {
        queues_map(qs.drop_last()).insert(qs.last().key, qs.last().waiters@)
    }
}

spec fn keys_distinct(qs: Seq<FutexQueue>) -> bool {
    forall|i: int, j: int| 0 <= i < j < qs.len() ==> qs[i].key != qs[j].key
}

proof fn lemma_map_dom(qs: Seq<FutexQueue>, k: FutexKey)
    ensures
        queues_map(qs).dom().contains(k) <==> exists|j: int| 0 <= j < qs.len() && qs[j].key == k,
    decreases qs.len(),
{
    if qs.len() > 0 {
        lemma_map_dom(qs.drop_last(), k);
        if exists|j: int| 0 <= j < qs.drop_last().len() && qs.drop_last()[j].key == k {
            let j = choose|j: int| 0 <= j < qs.drop_last().len() && qs.drop_last()[j].key == k;
            assert(qs[j].key == k);
        }
        if exists|j: int| 0 <= j < qs.len() && qs[j].key == k {
            let j = choose|j: int| 0 <= j < qs.len() && qs[j].key == k;
            if j < qs.len() - 1 {
                assert(qs.drop_last()[j].key == k);
            }
        }
    }
}

proof fn lemma_map_get(qs: Seq<FutexQueue>, i: int)
    requires
        keys_distinct(qs),
        0 <= i < qs.len(),
    ensures
        queues_map(qs).dom().contains(qs[i].key),
        queues_map(qs)[qs[i].key] == qs[i].waiters@,
    decreases qs.len(),
{
    if i < qs.len() - 1 {
        lemma_map_get(qs.drop_last(), i);
        assert(qs.drop_last()[i] == qs[i]);
    }
}

proof fn lemma_map_update(qs: Seq<FutexQueue>, i: int, q: FutexQueue)
    requires
        keys_distinct(qs),
        0 <= i < qs.len(),
        q.key == qs[i].key,
    ensures
        queues_map(qs.update(i, q)) == queues_map(qs).insert(q.key, q.waiters@),
        keys_distinct(qs.update(i, q)),
    decreases qs.len(),
{
    let us = qs.update(i, q);
    if i == qs.len() - 1 {
        assert(us.drop_last() =~= qs.drop_last());
        assert(queues_map(us) =~= queues_map(qs).insert(q.key, q.waiters@));
    } else {
        assert(us.drop_last() =~= qs.drop_last().update(i, q));
        lemma_map_update(qs.drop_last(), i, q);
        assert(qs[i].key != qs.last().key);
        assert(queues_map(us) =~= queues_map(qs).insert(q.key, q.waiters@));
    }
}

/// The queue of `key` in a table view: empty where the key has none.
pub open spec fn queue_of(m: Map<FutexKey, Seq<FutexWaiter>>, key: FutexKey) -> Seq<FutexWaiter> {
    if m.dom().contains(key) {
        m[key]
    } else {
        Seq::empty()
    }
}


/// How many waiters a wake with `val` takes from a queue of `len` waiters: at most
/// `val`, or all of them when `val` is 0.
pub open spec fn wake_count(len: nat, val: u32) -> nat {
    if val == 0 || len < val {
        len
    } else {
        val as nat
    }
}

/// The smaller of two numbers.
pub open spec fn min_nat(a: nat, b: nat) -> nat {
    if a < b {
        a
    } else {
        b
    }
}

/// The waiters a requeue wakes and the table it leaves.
pub open spec fn requeue_effect(
    m: Map<FutexKey, Seq<FutexWaiter>>,
    src: FutexKey,
    dst: FutexKey,
    wake_num: u32,
    move_num: usize,
) -> (Seq<FutexWaiter>, Map<FutexKey, Seq<FutexWaiter>>) {
    if !m.dom().contains(src) {
        (Seq::empty(), m)
    } else {
        let q = m[src];
        let w = min_nat(wake_num as nat, q.len());
        let rest = q.skip(w as int);
        if rest.len() == 0 {
            (q.take(w as int), m.insert(src, rest))
        } else {
            let k = min_nat(move_num as nat, rest.len());
            let mid = m.insert(src, rest.skip(k as int));
            (q.take(w as int), mid.insert(dst, queue_of(mid, dst) + rest.take(k as int)))
        }
    }
}

/// Whether `clear_wait(id, leader)` keeps the waiter `w`: a leader's exit clears every
/// waiter of process `id`, another thread's exit clears the waiters of task `id`.
pub open spec fn survives_exit(w: FutexWaiter, id: u64, leader: bool) -> bool {
    if leader {
        w.process_id != id
    } else {
        w.task_id != id
    }
}

/// The predicate [`survives_exit`] as a closure for `Seq::filter`.
pub open spec fn survivor(id: u64, leader: bool) -> spec_fn(FutexWaiter) -> bool {
    |w: FutexWaiter| survives_exit(w, id, leader)
}

/// The table after the exit of `id`: each queue keeps its survivors in order, and
/// the queues left empty are gone.
pub open spec fn cleared(m: Map<FutexKey, Seq<FutexWaiter>>, id: u64, leader: bool) -> Map<
    FutexKey,
    Seq<FutexWaiter>,
> {
    Map::new(
        |k: FutexKey| m.dom().contains(k) && m[k].filter(survivor(id, leader)).len() > 0,
        |k: FutexKey| m[k].filter(survivor(id, leader)),
    )
}

impl View for FutexWaitTable {
    type V = Map<FutexKey, Seq<FutexWaiter>>;

    closed spec fn view(&self) -> Map<FutexKey, Seq<FutexWaiter>> {
        queues_map(self.queues@)
    }
}

impl FutexWaitTable {
    /// The table's invariant: each key has at most one queue.
    pub closed spec fn wf(&self) -> bool {
        keys_distinct(self.queues@)
    }

    /// An empty table.
    pub fn new() -> (r: Self)
        ensures
            r.wf(),
            r@ == Map::<FutexKey, Seq<FutexWaiter>>::empty(),
    {
        FutexWaitTable { queues: Vec::new() }
    }

    fn find(&self, key: &FutexKey) -> (r: Option<usize>)
        requires
            self.wf(),
        ensures
            match r {
                Some(i) => i < self.queues@.len() && self.queues@[i as int].key == *key,
                None => !self@.dom().contains(*key),
            },
    {
        let mut i: usize = 0;
        while i < self.queues.len()
            invariant
                i <= self.queues@.len(),
                forall|j: int| 0 <= j < i ==> self.queues@[j].key != *key,
            decreases self.queues@.len() - i,
        {
            if self.queues[i].key == *key {
                return Some(i);
            }
            i = i + 1;
        }
        proof {
            lemma_map_dom(self.queues@, *key);
        }
        None
    }

    /// Whether `key` has a queue (possibly empty).
    pub fn contains_key(&self, key: &FutexKey) -> (r: bool)
        requires
            self.wf(),
        ensures
            r == self@.dom().contains(*key),
    {
        match self.find(key) {
            Some(i) => {
                proof {
                    lemma_map_get(self.queues@, i as int);
                }
                true
            },
            None => false,
        }
    }

    /// A copy of the queue of `key`, or `None` when the key has no queue.
    pub fn waiters_of(&self, key: &FutexKey) -> (r: Option<Vec<FutexWaiter>>)
        requires
            self.wf(),
        ensures
            !self@.dom().contains(*key) ==> r is None,
            self@.dom().contains(*key) ==> (r matches Some(v) && v@ == self@[*key]),
    {
        match self.find(key) {
            None => None,
            Some(i) => {
                proof {
                    lemma_map_get(self.queues@, i as int);
                }
                let q = &self.queues[i].waiters;
                let mut v: Vec<FutexWaiter> = Vec::new();
                let mut j: usize = 0;
                let len = q.len();
                while j < len
                    invariant
                        len == q@.len(),
                        j <= len,
                        v@ == q@.take(j as int),
                    decreases len - j,
                {
                    v.push(q[j]);
                    proof {
                        assert(q@.take(j + 1) =~= q@.take(j as int).push(q@[j as int]));
                    }
                    j = j + 1;
                }
                proof {
                    assert(q@.take(len as int) =~= q@);
                }
                Some(v)
            },
        }
    }

    /// Adds `waiter` at the back of the queue of `key`, creating the queue if needed.
    pub fn enqueue(&mut self, key: FutexKey, waiter: FutexWaiter)
        requires
            old(self).wf(),
        ensures
            final(self).wf(),
            final(self)@ == old(self)@.insert(key, queue_of(old(self)@, key).push(waiter)),
    {
        match self.find(&key) {
            Some(i) => {
                proof {
                    lemma_map_get(self.queues@, i as int);
                }
                let ghost old_qs = self.queues@;
                self.queues[i].waiters.push_back(waiter);
                proof {
                    assert(self.queues@ == old_qs.update(i as int, self.queues@[i as int]));
                    lemma_map_update(old_qs, i as int, self.queues@[i as int]);
                }
            },
            None => {
                let mut waiters = VecDeque::new();
                waiters.push_back(waiter);
                let ghost old_qs = self.queues@;
                self.queues.push(FutexQueue { key, waiters });
                proof {
                    assert(self.queues@.drop_last() =~= old_qs);
                    assert forall|j: int| 0 <= j < old_qs.len() implies old_qs[j].key != key by {
                        lemma_map_dom(old_qs, key);
                    }
                }
            },
        }
    }

    /// Removes the first waiter of task `task_id` from the queue of `key`.
    ///
    /// Returns whether there was such a waiter.
    pub fn unqueue(&mut self, key: FutexKey, task_id: u64) -> (r: bool)
        requires
            old(self).wf(),
        ensures
            final(self).wf(),
            r == exists|j: int|
                0 <= j < queue_of(old(self)@, key).len() && #[trigger] queue_of(
                    old(self)@,
                    key,
                )[j].task_id == task_id,
            r ==> exists|p: int|
                0 <= p < queue_of(old(self)@, key).len() && queue_of(old(self)@, key)[p].task_id
                    == task_id && (forall|j: int|
                    0 <= j < p ==> #[trigger] queue_of(old(self)@, key)[j].task_id != task_id)
                    && final(self)@ == old(self)@.insert(key, queue_of(old(self)@, key).remove(p)),
            !r ==> final(self)@ == old(self)@,
    {
        match self.find(&key) {
            None => false,
            Some(i) => {
                proof {
                    lemma_map_get(self.queues@, i as int);
                }
                let ghost q = self.queues@[i as int].waiters@;
                let mut pos: usize = 0;
                let len = self.queues[i].waiters.len();
                while pos < len && self.queues[i].waiters[pos].task_id != task_id
                    invariant
                        i < self.queues@.len(),
                        len == q.len(),
                        q == self.queues@[i as int].waiters@,
                        q == queue_of(self@, key),
                        pos <= len,
                        forall|j: int| 0 <= j < pos ==> #[trigger] q[j].task_id != task_id,
                    decreases len - pos,
                {
                    pos = pos + 1;
                }
                if pos < len {
                    let ghost old_qs = self.queues@;
                    let _ = self.queues[i].waiters.remove(pos);
                    proof {
                        assert(q[pos as int].task_id == task_id);
                        assert(self.queues@ == old_qs.update(i as int, self.queues@[i as int]));
                        lemma_map_update(old_qs, i as int, self.queues@[i as int]);
                    }
                    true
                } else {
                    false
                }
            },
        }
    }

    /// Wakes the waiters at the front of the queue of `key`: at most `val` of them,
    /// or all of them when `val` is 0. Returns how many were woken.
    pub fn wake(&mut self, key: FutexKey, val: u32) -> (n: u32)
        requires
            old(self).wf(),
            val == 0 ==> queue_of(old(self)@, key).len() <= u32::MAX,
        ensures
            final(self).wf(),
            n == wake_count(queue_of(old(self)@, key).len(), val),
            final(self)@ == if old(self)@.dom().contains(key) {
                old(self)@.insert(key, old(self)@[key].skip(n as int))
            } else {
                old(self)@
            },
    {
        let mut ret: u32 = 0;
        match self.find(&key) {
            None => {},
            Some(i) => {
                proof {
                    lemma_map_get(self.queues@, i as int);
                }
                let ghost old_qs = self.queues@;
                let ghost q = old_qs[i as int].waiters@;
                while self.queues[i].waiters.len() > 0 && (val == 0 || ret < val)
                    invariant
                        i < old_qs.len(),
                        self.queues@.len() == old_qs.len(),
                        forall|j: int| 0 <= j < old_qs.len() && j != i ==> self.queues@[j] == old_qs[j],
                        self.queues@[i as int].key == key,
                        old_qs[i as int].key == key,
                        q == old_qs[i as int].waiters@,
                        ret <= q.len(),
                        val != 0 ==> ret <= val,
                        val == 0 ==> q.len() <= u32::MAX,
                        self.queues@[i as int].waiters@ == q.skip(ret as int),
                    decreases self.queues@[i as int].waiters@.len(),
                {
                    let _ = self.queues[i].waiters.pop_front();
                    ret = ret + 1;
                }
                proof {
                    assert(self.queues@ =~= old_qs.update(i as int, self.queues@[i as int]));
                    lemma_map_update(old_qs, i as int, self.queues@[i as int]);
                }
            },
        }
        ret
    }

    /// Adds `waiters` at the back of the queue of `key`, creating the queue if needed.
    fn extend(&mut self, key: FutexKey, waiters: VecDeque<FutexWaiter>)
        requires
            old(self).wf(),
        ensures
            final(self).wf(),
            final(self)@ == old(self)@.insert(key, queue_of(old(self)@, key) + waiters@),
    {
        let mut waiters = waiters;
        match self.find(&key) {
            Some(i) => {
                proof {
                    lemma_map_get(self.queues@, i as int);
                }
                let ghost old_qs = self.queues@;
                self.queues[i].waiters.append(&mut waiters);
                proof {
                    assert(self.queues@ == old_qs.update(i as int, self.queues@[i as int]));
                    lemma_map_update(old_qs, i as int, self.queues@[i as int]);
                }
            },
            None => {
                let ghost old_qs = self.queues@;
                self.queues.push(FutexQueue { key, waiters });
                proof {
                    assert(self.queues@.drop_last() =~= old_qs);
                    assert(Seq::<FutexWaiter>::empty() + waiters@ =~= waiters@);
                    assert forall|j: int| 0 <= j < old_qs.len() implies old_qs[j].key != key by {
                        lemma_map_dom(old_qs, key);
                    }
                }
            },
        }
    }

    fn survivors(waiters: &VecDeque<FutexWaiter>, id: u64, leader: bool) -> (r: VecDeque<FutexWaiter>)
        ensures
            r@ == waiters@.filter(survivor(id, leader)),
    {
        let mut kept: VecDeque<FutexWaiter> = VecDeque::new();
        let mut j: usize = 0;
        let len = waiters.len();
        while j < len
            invariant
                len == waiters@.len(),
                j <= len,
                kept@ == waiters@.take(j as int).filter(survivor(id, leader)),
            decreases len - j,
        {
            let w = waiters[j];
            let keep = if leader {
                w.process_id != id
            } else {
                w.task_id != id
            };
            proof {
                reveal(Seq::filter);
                assert(waiters@.take(j + 1).drop_last() =~= waiters@.take(j as int));
            }
            if keep {
                kept.push_back(w);
            }
            j = j + 1;
        }
        proof {
            assert(waiters@.take(len as int) =~= waiters@);
        }
        kept
    }

    /// Removes the waiters of an exiting thread, or of every thread of an exiting
    /// process when `leader`, then drops the queues left empty.
    pub fn clear_exited(&mut self, id: u64, leader: bool)
        requires
            old(self).wf(),
        ensures
            final(self).wf(),
            final(self)@ == cleared(old(self)@, id, leader),
    {
        let mut kept_queues: Vec<FutexQueue> = Vec::new();
        let mut i: usize = 0;
        let n = self.queues.len();
        while i < n
            invariant
                n == self.queues@.len(),
                i <= n,
                keys_distinct(self.queues@),
                keys_distinct(kept_queues@),
                forall|a: int|
                    0 <= a < kept_queues@.len() ==> exists|b: int|
                        0 <= b < i && #[trigger] kept_queues@[a].key == self.queues@[b].key,
                queues_map(kept_queues@) == cleared(
                    queues_map(self.queues@.take(i as int)),
                    id,
                    leader,
                ),
            decreases n - i,
        {
            let key = self.queues[i].key;
            let kept = Self::survivors(&self.queues[i].waiters, id, leader);
            let ghost prefix = self.queues@.take(i as int);
            let ghost before = queues_map(prefix);
            let ghost s = self.queues@[i as int].waiters@;
            proof {
                assert(self.queues@.take(i + 1).drop_last() =~= prefix);
                assert(queues_map(self.queues@.take(i + 1)) == before.insert(key, s));
                lemma_map_dom(prefix, key);
                assert forall|b: int| 0 <= b < prefix.len() implies prefix[b].key != key by {
                    assert(prefix[b] == self.queues@[b]);
                }
                assert(!before.dom().contains(key));
                lemma_map_dom(kept_queues@, key);
                assert forall|a: int| 0 <= a < kept_queues@.len() implies kept_queues@[a].key != key by {
                    let b = choose|b: int| 0 <= b < i && kept_queues@[a].key == self.queues@[b].key;
                }
            }
            if kept.len() > 0 {
                let ghost old_kept = kept_queues@;
                kept_queues.push(FutexQueue { key, waiters: kept });
                proof {
                    assert(kept_queues@.drop_last() =~= old_kept);
                    assert(queues_map(kept_queues@) =~= cleared(before.insert(key, s), id, leader));
                    assert forall|a: int| 0 <= a < kept_queues@.len() implies exists|b: int|
                        0 <= b < i + 1 && #[trigger] kept_queues@[a].key == self.queues@[b].key by {
                        if a == kept_queues@.len() - 1 {
                            assert(kept_queues@[a].key == self.queues@[i as int].key);
                        } else {
                            assert(kept_queues@[a] == old_kept[a]);
                        }
                    }
                }
            } else {
                proof {
                    assert(queues_map(kept_queues@) =~= cleared(before.insert(key, s), id, leader));
                }
            }
            i = i + 1;
        }
        proof {
            assert(self.queues@.take(n as int) =~= self.queues@);
        }
        self.queues = kept_queues;
    }

    /// Wakes at most `wake_num` waiters at the front of the queue of `src`, then
    /// moves at most `move_num` of the waiters left there, in order, to the back of
    /// the queue of `dst`. Returns the woken waiters in queue order.
    pub fn requeue(&mut self, src: FutexKey, dst: FutexKey, wake_num: u32, move_num: usize) -> (woken: Vec<FutexWaiter>)
        requires
            old(self).wf(),
        ensures
            final(self).wf(),
            (woken@, final(self)@) == requeue_effect(old(self)@, src, dst, wake_num, move_num),
    {
        let mut woken: Vec<FutexWaiter> = Vec::new();
        match self.find(&src) {
            None => {
                return woken;
            },
            Some(i) => {
                proof {
                    lemma_map_get(self.queues@, i as int);
                }
                let ghost old_qs = self.queues@;
                let ghost q = old_qs[i as int].waiters@;
                let mut k: u32 = 0;
                while k < wake_num && self.queues[i].waiters.len() > 0
                    invariant
                        i < old_qs.len(),
                        self.queues@.len() == old_qs.len(),
                        forall|j: int| 0 <= j < old_qs.len() && j != i ==> self.queues@[j] == old_qs[j],
                        self.queues@[i as int].key == src,
                        old_qs[i as int].key == src,
                        q == old_qs[i as int].waiters@,
                        k <= q.len(),
                        k <= wake_num,
                        self.queues@[i as int].waiters@ == q.skip(k as int),
                        woken@ == q.take(k as int),
                    decreases self.queues@[i as int].waiters@.len(),
                {
                    match self.queues[i].waiters.pop_front() {
                        Some(w) => {
                            woken.push(w);
                            proof {
                                assert(q.take(k + 1) =~= q.take(k as int).push(w));
                            }
                        },
                        None => {},
                    }
                    k = k + 1;
                }
                let len = self.queues[i].waiters.len();
                if len > 0 {
                    let m = if move_num < len {
                        move_num
                    } else {
                        len
                    };
                    let mut moved = self.queues[i].waiters.split_off(m);
                    std::mem::swap(&mut self.queues[i].waiters, &mut moved);
                    proof {
                        assert(self.queues@ =~= old_qs.update(i as int, self.queues@[i as int]));
                        lemma_map_update(old_qs, i as int, self.queues@[i as int]);
                        assert(q.skip(k as int).skip(m as int) =~= q.skip(k + m));
                    }
                    self.extend(dst, moved);
                } else {
                    proof {
                        assert(self.queues@ =~= old_qs.update(i as int, self.queues@[i as int]));
                        lemma_map_update(old_qs, i as int, self.queues@[i as int]);
                    }
                }
                woken
            },
        }
    }
}

/// Removes the waiters of an exiting task from every futex queue.
///
/// When `leader`, the exiting thread is the main thread and `id` is a process id:
/// every waiter of that process goes. Otherwise `id` is a task id. Queues left
/// empty are removed.
pub fn clear_wait(futex_wait_task: &mut FutexWaitTable, id: u64, leader: bool)
    requires
        old(futex_wait_task).wf(),
    ensures
        final(futex_wait_task).wf(),
        final(futex_wait_task)@ == cleared(old(futex_wait_task)@, id, leader),
{
    futex_wait_task.clear_exited(id, leader);
}

/// A requeue between two different words loses and duplicates no waiter: the woken
/// waiters, then the ones moved to the back of the destination queue, then the ones
/// left in the source queue are the old source queue in order. The destination
/// queue keeps its old waiters in front, and every other queue is unchanged.
pub proof fn law_requeue_conserves_waiters(
    m: Map<FutexKey, Seq<FutexWaiter>>,
    src: FutexKey,
    dst: FutexKey,
    wake_num: u32,
    move_num: usize,
)
    requires
        src != dst,
    ensures
        ({
            let (woken, after) = requeue_effect(m, src, dst, wake_num, move_num);
            let old_dst = queue_of(m, dst);
            &&& woken + queue_of(after, dst).skip(old_dst.len() as int) + queue_of(after, src)
                == queue_of(m, src)
            &&& queue_of(after, dst).take(old_dst.len() as int) == old_dst
            &&& woken.len() <= wake_num
            &&& forall|k: FutexKey| k != src && k != dst ==> queue_of(after, k) == queue_of(m, k)
        }),
{
    let (woken, after) = requeue_effect(m, src, dst, wake_num, move_num);
    let old_dst = queue_of(m, dst);
    if m.dom().contains(src) {
        let q = m[src];
        let w = min_nat(wake_num as nat, q.len());
        let rest = q.skip(w as int);
        if rest.len() == 0 {
            assert(queue_of(after, dst) =~= old_dst);
            assert(woken + queue_of(after, dst).skip(old_dst.len() as int) + queue_of(after, src)
                =~= q);
        } else {
            let k = min_nat(move_num as nat, rest.len());
            let mid = m.insert(src, rest.skip(k as int));
            assert(queue_of(mid, dst) == old_dst);
            assert(queue_of(after, dst).skip(old_dst.len() as int) =~= rest.take(k as int));
            assert(queue_of(after, dst).take(old_dst.len() as int) =~= old_dst);
            assert(woken + rest.take(k as int) + rest.skip(k as int) =~= q);
        }
    } else {
        assert(queue_of(after, dst).skip(old_dst.len() as int) =~= Seq::<FutexWaiter>::empty());
        assert(queue_of(after, dst).take(old_dst.len() as int) =~= old_dst);
        assert(woken + queue_of(after, dst).skip(old_dst.len() as int) + queue_of(after, src)
            =~= queue_of(m, src));
    }
}

/// A task that was not waiting on a word, starts waiting and is taken off the queue
/// again is found at the back, and taking it off leaves every queue as it was.
pub proof fn law_queue_then_unqueue_restores(
    m: Map<FutexKey, Seq<FutexWaiter>>,
    key: FutexKey,
    waiter: FutexWaiter,
)
    requires
        forall|j: int|
            0 <= j < queue_of(m, key).len() ==> #[trigger] queue_of(m, key)[j].task_id
                != waiter.task_id,
    ensures
        ({
            let q = queue_of(m, key);
            let m1 = m.insert(key, q.push(waiter));
            let q1 = queue_of(m1, key);
            &&& q1[q.len() as int].task_id == waiter.task_id
            &&& forall|j: int| 0 <= j < q.len() ==> #[trigger] q1[j].task_id != waiter.task_id
            &&& forall|k: FutexKey|
                queue_of(m1.insert(key, q1.remove(q.len() as int)), k) == queue_of(m, k)
        }),
{
    let q = queue_of(m, key);
    let m1 = m.insert(key, q.push(waiter));
    let q1 = queue_of(m1, key);
    assert(q1 == q.push(waiter));
    assert(q1.remove(q.len() as int) =~= q);
    assert forall|j: int| 0 <= j < q.len() implies #[trigger] q1[j].task_id != waiter.task_id by {
        assert(q1[j] == q[j]);
    }
}

/// A wake takes no more waiters than asked for (all of them when asked for 0) and
/// no more than the queue holds.
pub proof fn law_wake_count_bounded(len: nat, val: u32)
    ensures
        wake_count(len, val) <= len,
        val != 0 ==> wake_count(len, val) <= val,
        val == 0 ==> wake_count(len, val) == len,
        val != 0 && val <= len ==> wake_count(len, val) == val,
{
}

/// After an exit is cleared, no queue holds a waiter of the exited task (or of the
/// exited process for a leader), no queue is empty, and each queue keeps the
/// waiters that survive, in their order.
pub proof fn law_clear_wait_removes_exited(m: Map<FutexKey, Seq<FutexWaiter>>, id: u64, leader: bool)
    ensures
        forall|k: FutexKey, j: int|
            cleared(m, id, leader).dom().contains(k) && 0 <= j < cleared(m, id, leader)[k].len()
                ==> survives_exit(#[trigger] cleared(m, id, leader)[k][j], id, leader),
        forall|k: FutexKey|
            #[trigger] cleared(m, id, leader).dom().contains(k) ==> cleared(m, id, leader)[k].len()
                > 0,
        forall|k: FutexKey|
            #[trigger] cleared(m, id, leader).dom().contains(k) ==> cleared(m, id, leader)[k]
                == m[k].filter(survivor(id, leader)),
{
    assert forall|k: FutexKey, j: int|
        cleared(m, id, leader).dom().contains(k) && 0 <= j < cleared(m, id, leader)[k].len()
            implies survives_exit(#[trigger] cleared(m, id, leader)[k][j], id, leader) by {
        m[k].lemma_filter_pred(survivor(id, leader), j);
    }
}

/// A queue in which every waiter survives an exit filters to itself.
proof fn lemma_filter_all_survive(s: Seq<FutexWaiter>, id: u64, leader: bool)
    requires
        forall|j: int| 0 <= j < s.len() ==> survives_exit(#[trigger] s[j], id, leader),
    ensures
        s.filter(survivor(id, leader)) == s,
    decreases s.len(),
{
    reveal(Seq::filter);
    if s.len() > 0 {
        let rest = s.drop_last();
        assert forall|j: int| 0 <= j < rest.len() implies survives_exit(#[trigger] rest[j], id, leader) by {
            assert(rest[j] == s[j]);
        }
        lemma_filter_all_survive(rest, id, leader);
        assert(survives_exit(s[s.len() - 1], id, leader));
        assert(rest.push(s.last()) =~= s);
    }
}

/// An exit removes a futex word's queue exactly when none of its waiters survives:
/// every word that still has a surviving waiter keeps its queue, and a queue that
/// holds no waiter of the exiting task (or process) is left exactly as it was.
pub proof fn law_clear_wait_keeps_surviving_queues(
    m: Map<FutexKey, Seq<FutexWaiter>>,
    id: u64,
    leader: bool,
)
    ensures
        forall|k: FutexKey|
            #[trigger] cleared(m, id, leader).dom().contains(k) <==> (m.dom().contains(k)
                && exists|j: int| 0 <= j < m[k].len() && survives_exit(#[trigger] m[k][j], id, leader)),
        forall|k: FutexKey|
            m.dom().contains(k) && m[k].len() > 0 && (forall|j: int|
                0 <= j < m[k].len() ==> survives_exit(#[trigger] m[k][j], id, leader)) ==> {
                &&& #[trigger] cleared(m, id, leader).dom().contains(k)
                &&& cleared(m, id, leader)[k] == m[k]
            },
{
    let p = survivor(id, leader);
    assert forall|k: FutexKey|
        #[trigger] cleared(m, id, leader).dom().contains(k) <==> (m.dom().contains(k)
            && exists|j: int| 0 <= j < m[k].len() && survives_exit(#[trigger] m[k][j], id, leader)) by {
        if m.dom().contains(k) {
            let f = m[k].filter(p);
            if f.len() > 0 {
                m[k].lemma_filter_pred(p, 0);
                assert(f.contains(f[0]));
                m[k].lemma_filter_contains_rev(p, f[0]);
                let j = choose|j: int| 0 <= j < m[k].len() && m[k][j] == f[0];
                assert(survives_exit(m[k][j], id, leader));
            }
            if exists|j: int| 0 <= j < m[k].len() && survives_exit(#[trigger] m[k][j], id, leader) {
                let j = choose|j: int| 0 <= j < m[k].len() && survives_exit(#[trigger] m[k][j], id, leader);
                m[k].lemma_filter_contains(p, j);
                assert(f.len() > 0);
            }
        }
    }
    assert forall|k: FutexKey|
        m.dom().contains(k) && m[k].len() > 0 && (forall|j: int|
            0 <= j < m[k].len() ==> survives_exit(#[trigger] m[k][j], id, leader)) implies {
            &&& #[trigger] cleared(m, id, leader).dom().contains(k)
            &&& cleared(m, id, leader)[k] == m[k]
        } by {
        lemma_filter_all_survive(m[k], id, leader);
    }
}

/// How many waiters a requeue wakes and moves, counted: with a source queue of
/// `n` waiters it wakes `wake_num` of them, or all `n` when fewer are there, and
/// of the waiters left it moves `move_num`, or all of them when fewer are left, to
/// the back of the destination queue. A `move_num` of 0 moves no waiter: the
/// destination is unchanged and the source keeps every waiter not woken.
pub proof fn law_requeue_counts(
    m: Map<FutexKey, Seq<FutexWaiter>>,
    src: FutexKey,
    dst: FutexKey,
    wake_num: u32,
    move_num: usize,
)
    requires
        src != dst,
        m.dom().contains(src),
    ensures
        ({
            let (woken, after) = requeue_effect(m, src, dst, wake_num, move_num);
            let n = m[src].len();
            let left = n - woken.len();
            &&& woken.len() == (if wake_num < n { wake_num as int } else { n as int })
            &&& woken == m[src].take(woken.len() as int)
            &&& queue_of(after, dst).len() - queue_of(m, dst).len() == (if move_num < left {
                move_num as int
            } else {
                left
            })
            &&& queue_of(after, src).len() == left - (queue_of(after, dst).len() - queue_of(m, dst).len())
            &&& move_num == 0 ==> queue_of(after, dst) == queue_of(m, dst) && queue_of(after, src)
                == m[src].skip(woken.len() as int)
        }),
{
    let (woken, after) = requeue_effect(m, src, dst, wake_num, move_num);
    let q = m[src];
    let w = min_nat(wake_num as nat, q.len());
    let rest = q.skip(w as int);
    if rest.len() == 0 {
        assert(queue_of(after, dst) == queue_of(m, dst));
    } else {
        let k = min_nat(move_num as nat, rest.len());
        let mid = m.insert(src, rest.skip(k as int));
        assert(queue_of(mid, dst) == queue_of(m, dst));
        if move_num == 0 {
            assert(rest.skip(0) =~= rest);
            assert(queue_of(after, dst) =~= queue_of(m, dst));
        }
    }
}

} // verus!
