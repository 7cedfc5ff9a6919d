//! A fixed-capacity FIFO ring buffer that never allocates after construction.
//!
//! The buffer is generic over the sample type: the audio path stores `f32`
//! samples in it, but nothing here looks at a sample's value.
use vstd::prelude::*;

verus! {

/// How many of `incoming` new samples fit into a queue that already holds
/// `len` samples and can hold at most `capacity`.
pub open spec fn accepted_count(len: int, capacity: int, incoming: int) -> int {
    if incoming <= capacity - len {
        incoming
    } else {
        capacity - len
    }
}

/// The queue after offering `data` to it: samples are appended in order
/// until the queue is full; the rest of `data` is dropped.
pub open spec fn pushed<T>(queue: Seq<T>, data: Seq<T>, capacity: nat) -> Seq<T> {
    queue + data.take(accepted_count(queue.len() as int, capacity as int, data.len() as int))
}

/// Offering samples never grows a queue past its capacity, and never
/// disturbs what it already held: the old queue stays its prefix.
pub proof fn lemma_pushed_bounded<T>(queue: Seq<T>, data: Seq<T>, capacity: nat)
    requires
        queue.len() <= capacity,
    ensures
        pushed(queue, data, capacity).len() <= capacity,
        pushed(queue, data, capacity).len() >= queue.len(),
        pushed(queue, data, capacity).take(queue.len() as int) == queue,
{
    assert(pushed(queue, data, capacity).take(queue.len() as int) =~= queue);
}

/// First in, first out: when everything fits, the queue after a push is the
/// old queue followed by all of `data`, so reads give back the old samples
/// first and then `data` in order.
pub proof fn lemma_fifo_when_room<T>(queue: Seq<T>, data: Seq<T>, capacity: nat)
    requires
        queue.len() + data.len() <= capacity,
    ensures
        pushed(queue, data, capacity) == queue + data,
        pushed(queue, data, capacity).take(queue.len() as int) == queue,
        pushed(queue, data, capacity).skip(queue.len() as int) == data,
{
    assert(data.take(data.len() as int) =~= data);
    assert((queue + data).take(queue.len() as int) =~= queue);
    assert((queue + data).skip(queue.len() as int) =~= data);
}

/// When the data does not all fit, the queue is filled exactly to capacity
/// with the oldest part of the data, and the rest of the data is dropped.
pub proof fn lemma_pushed_fills_to_capacity<T>(queue: Seq<T>, data: Seq<T>, capacity: nat)
    requires
        queue.len() <= capacity,
        queue.len() + data.len() > capacity,
    ensures
        pushed(queue, data, capacity).len() == capacity,
        pushed(queue, data, capacity) == queue + data.take(capacity - queue.len()),
{
}

/// Pushing `a` and then `b` stores exactly what pushing `a + b` at once
/// stores: a block may be fed sample by sample.
pub proof fn lemma_push_in_pieces<T>(queue: Seq<T>, a: Seq<T>, b: Seq<T>, capacity: nat)
    requires
        queue.len() <= capacity,
    ensures
        pushed(pushed(queue, a, capacity), b, capacity) == pushed(queue, a + b, capacity),
{
    let ka = accepted_count(queue.len() as int, capacity as int, a.len() as int);
    let q1 = pushed(queue, a, capacity);
    let kb = accepted_count(q1.len() as int, capacity as int, b.len() as int);
    let kab = accepted_count(queue.len() as int, capacity as int, (a + b).len() as int);
    if ka < a.len() {
        assert(kb == 0);
        assert((a + b).take(kab) =~= a.take(ka));
        assert(b.take(kb) =~= Seq::<T>::empty());
        assert(pushed(q1, b, capacity) =~= pushed(queue, a + b, capacity));
    } else {
        assert(kab == a.len() + kb);
        assert((a + b).take(kab) =~= a + b.take(kb));
        assert(a.take(ka) =~= a);
        assert(pushed(q1, b, capacity) =~= pushed(queue, a + b, capacity));
    }
}

/// A call that changes what a ring buffer holds: `push_slice` with the given
/// samples, or `read_chunk` into a slice of the given length.
pub enum RingOp<T> {
    Push(Seq<T>),
    Read(nat),
}

/// The queue after `op`: a push appends what fits, a read of `n` samples
/// removes the `n` oldest when that many are stored and does nothing
/// otherwise (as `push_slice` and `read_chunk` state).
pub open spec fn apply_op<T>(queue: Seq<T>, op: RingOp<T>, capacity: nat) -> Seq<T> {
    match op {
        RingOp::Push(data) => pushed(queue, data, capacity),
        RingOp::Read(n) => if n <= queue.len() {
            queue.skip(n as int)
        } else {
            queue
        },
    }
}

/// How many samples `op` stores.
pub open spec fn op_accepted<T>(queue: Seq<T>, op: RingOp<T>, capacity: nat) -> nat {
    match op {
        RingOp::Push(data) => accepted_count(
            queue.len() as int,
            capacity as int,
            data.len() as int,
        ) as nat,
        RingOp::Read(_) => 0,
    }
}

/// How many samples `op` hands out.
pub open spec fn op_read<T>(queue: Seq<T>, op: RingOp<T>) -> nat {
    match op {
        RingOp::Push(_) => 0,
        RingOp::Read(n) => if n <= queue.len() {
            n
        } else {
            0
        },
    }
}

/// The queue after the calls `ops`, in order.
pub open spec fn run_ops<T>(queue: Seq<T>, ops: Seq<RingOp<T>>, capacity: nat) -> Seq<T>
    decreases ops.len(),
{
    if ops.len() == 0 {
        queue
    } else {
        run_ops(apply_op(queue, ops[0], capacity), ops.skip(1), capacity)
    }
}

/// How many samples the calls `ops` store in total.
pub open spec fn accepted_total<T>(queue: Seq<T>, ops: Seq<RingOp<T>>, capacity: nat) -> nat
    decreases ops.len(),
{
    if ops.len() == 0 {
        0
    } else {
        op_accepted(queue, ops[0], capacity) + accepted_total(
            apply_op(queue, ops[0], capacity),
            ops.skip(1),
            capacity,
        )
    }
}

/// How many samples the calls `ops` hand out in total.
pub open spec fn read_total<T>(queue: Seq<T>, ops: Seq<RingOp<T>>, capacity: nat) -> nat
    decreases ops.len(),
{
    if ops.len() == 0 {
        0
    } else {
        op_read(queue, ops[0]) + read_total(apply_op(queue, ops[0], capacity), ops.skip(1), capacity)
    }
}

/// Counting: over any run of pushes and reads, the buffer holds what it
/// held before plus every sample it accepted minus every sample it handed
/// out, and never more than its capacity. Started from an empty buffer (as
/// `new` and `clear` leave it), it holds exactly the accepted samples minus
/// the samples read.
pub proof fn lemma_count_accepted_minus_read<T>(queue: Seq<T>, ops: Seq<RingOp<T>>, capacity: nat)
    requires
        queue.len() <= capacity,
    ensures
        run_ops(queue, ops, capacity).len() + read_total(queue, ops, capacity) == queue.len()
            + accepted_total(queue, ops, capacity),
        run_ops(queue, ops, capacity).len() <= capacity,
    decreases ops.len(),
{
    if ops.len() > 0 {
        let next = apply_op(queue, ops[0], capacity);
        match ops[0] {
            RingOp::Push(data) => {
                lemma_pushed_bounded(queue, data, capacity);
            },
            RingOp::Read(n) => {},
        }
        lemma_count_accepted_minus_read(next, ops.skip(1), capacity);
    }
}

/// Ring buffer of `T` with a capacity fixed at construction.
///
/// Its view is the sequence of stored samples, oldest first.
pub struct FixedRingBuffer<T> {
    buffer: Vec<T>,
    capacity: usize,
    read_pos: usize,
    write_pos: usize,
    available: usize,
    silence: T,
}

impl<T> FixedRingBuffer<T> {
    /// Physical index of the `j`-th oldest stored sample.
    closed spec fn slot(&self, j: int) -> int {
        if self.read_pos + j < self.capacity {
            self.read_pos + j
        } else {
            self.read_pos + j - self.capacity
        }
    }

    /// The largest number of samples the buffer can hold.
    pub closed spec fn capacity(&self) -> nat {
        self.capacity as nat
    }

    /// The value that fills the storage on construction and on `clear`.
    pub closed spec fn silence(&self) -> T {
        self.silence
    }

    /// Every physical slot of the storage, in index order.
    pub closed spec fn storage(&self) -> Seq<T> {
        self.buffer@
    }

    /// Well-formedness: the positions and the count agree with each other.
    pub closed spec fn wf(&self) -> bool {
        &&& self.buffer@.len() == self.capacity
        &&& self.available <= self.capacity
        &&& self.capacity == 0 ==> self.read_pos == 0 && self.write_pos == 0
        &&& self.capacity > 0 ==> {
            &&& self.read_pos < self.capacity
            &&& self.write_pos < self.capacity
            &&& self.write_pos == self.slot(self.available as int)
        }
    }
}

impl<T> FixedRingBuffer<T> {
    /// A well-formed buffer never holds more samples than its capacity.
    pub proof fn lemma_bounded(&self)
        requires
            self.wf(),
        ensures
            self@.len() <= self.capacity(),
    {
    }
}

impl<T> View for FixedRingBuffer<T> {
    type V = Seq<T>;

    closed spec fn view(&self) -> Seq<T> {
        Seq::new(self.available as nat, |j: int| self.buffer@[self.slot(j)])
    }
}

/// `x % m` for `x` in `0..=m`.
proof fn lemma_wrap(x: int, m: int)
    requires
        0 < m,
        0 <= x <= m,
    ensures
        x % m == (if x < m { x } else { 0 }),
{
    if x < m {
        vstd::arithmetic::div_mod::lemma_small_mod(x as nat, m as nat);
    } else {
        vstd::arithmetic::div_mod::lemma_mod_self_0(m);
    }
}

impl<T: Copy> FixedRingBuffer<T> {
    /// An empty buffer that can hold `capacity` samples, its storage filled
    /// with `silence`.
    pub fn new(capacity: usize, silence: T) -> (rb: Self)
        ensures
            rb.wf(),
            rb@ == Seq::<T>::empty(),
            rb.capacity() == capacity,
            rb.silence() == silence,
            rb.storage() == Seq::new(capacity as nat, |i: int| silence),
    {
        let mut buffer: Vec<T> = Vec::with_capacity(capacity);
        let mut i: usize = 0;
        while i < capacity
            invariant
                i <= capacity,
                buffer@ == Seq::new(i as nat, |k: int| silence),
            decreases capacity - i,
        {
            buffer.push(silence);
            i += 1;
            assert(buffer@ =~= Seq::new(i as nat, |k: int| silence));
        }
        let rb = FixedRingBuffer { buffer, capacity, read_pos: 0, write_pos: 0, available: 0, silence };
        assert(rb@ =~= Seq::<T>::empty());
        rb
    }

    /// Empties the buffer and refills its storage with silence.
    pub fn clear(&mut self)
        requires
            old(self).wf(),
        ensures
            final(self).wf(),
            final(self)@ == Seq::<T>::empty(),
            final(self).capacity() == old(self).capacity(),
            final(self).silence() == old(self).silence(),
            final(self).storage() == Seq::new(old(self).capacity(), |i: int| old(self).silence()),
    {
        self.read_pos = 0;
        self.write_pos = 0;
        self.available = 0;
        let n = self.buffer.len();
        let mut i: usize = 0;
        while i < n
            invariant
                i <= n,
                n == self.capacity,
                self.buffer@.len() == n,
                self.capacity == old(self).capacity,
                self.silence == old(self).silence,
                self.read_pos == 0,
                self.write_pos == 0,
                self.available == 0,
                forall|k: int| 0 <= k < i ==> self.buffer@[k] == self.silence,
            decreases n - i,
        {
            let s = self.silence;
            self.buffer[i] = s;
            i += 1;
        }
        assert(self.buffer@ =~= Seq::new(old(self).capacity(), |i: int| old(self).silence()));
        assert(self@ =~= Seq::<T>::empty());
    }

    /// Appends the samples of `data` in order while there is room; once the
    /// buffer is full the remaining samples are dropped.
    pub fn push_slice(&mut self, data: &[T])
        requires
            old(self).wf(),
        ensures
            final(self).wf(),
            final(self)@ == pushed(old(self)@, data@, old(self).capacity()),
            final(self)@ == apply_op(old(self)@, RingOp::Push(data@), old(self).capacity()),
            old(self)@.len() + data@.len() <= old(self).capacity() ==> final(self)@ == old(self)@
                + data@,
            old(self)@.len() + data@.len() > old(self).capacity() ==> final(self)@ == old(self)@
                + data@.take(old(self).capacity() - old(self)@.len()),
            final(self).capacity() == old(self).capacity(),
            final(self).silence() == old(self).silence(),
    {
        let n = data.len();
        let mut i: usize = 0;
        while i < n
            invariant
                self.wf(),
                i <= n,
                n == data@.len(),
                self.capacity == old(self).capacity,
                self.silence == old(self).silence,
                self@ == pushed(old(self)@, data@.take(i as int), old(self).capacity()),
            decreases n - i,
        {
            let sample = data[i];
            let ghost before = self@;
            assert(data@.take(i + 1) =~= data@.take(i as int).push(sample));
            if self.available < self.capacity {
                let ghost wp = self.write_pos as int;
                let ghost old_buf = self.buffer@;
                self.buffer[self.write_pos] = sample;
                proof {
                    lemma_wrap(wp + 1, self.capacity as int);
                }
                self.write_pos = (self.write_pos + 1) % self.capacity;
                self.available += 1;
                assert forall|j: int| 0 <= j < before.len() implies self.slot(j) != wp by {}
                assert(self@ =~= before.push(sample));
                assert(self@ =~= pushed(old(self)@, data@.take(i + 1), old(self).capacity()));
            } else {
                assert(self@ =~= pushed(old(self)@, data@.take(i + 1), old(self).capacity()));
            }
            i += 1;
        }
        assert(data@.take(n as int) =~= data@);
        proof {
            self.lemma_bounded();
            lemma_pushed_bounded(old(self)@, data@, old(self).capacity());
        }
    }

    /// Appends `count` copies of `value` while there is room, without
    /// allocating; once the buffer is full the remaining copies are dropped.
    pub fn push_repeated(&mut self, value: T, count: usize)
        requires
            old(self).wf(),
        ensures
            final(self).wf(),
            final(self)@ == pushed(old(self)@, Seq::new(count as nat, |i: int| value), old(self).capacity()),
            final(self).capacity() == old(self).capacity(),
            final(self).silence() == old(self).silence(),
    {
        let ghost data = Seq::new(count as nat, |i: int| value);
        let mut i: usize = 0;
        while i < count
            invariant
                self.wf(),
                i <= count,
                data == Seq::new(count as nat, |k: int| value),
                self.capacity == old(self).capacity,
                self.silence == old(self).silence,
                self@ == pushed(old(self)@, data.take(i as int), old(self).capacity()),
            decreases count - i,
        {
            let ghost before = self@;
            assert(data.take(i + 1) =~= data.take(i as int).push(value));
            if self.available < self.capacity {
                let ghost wp = self.write_pos as int;
                self.buffer[self.write_pos] = value;
                proof {
                    lemma_wrap(wp + 1, self.capacity as int);
                }
                self.write_pos = (self.write_pos + 1) % self.capacity;
                self.available += 1;
                assert forall|j: int| 0 <= j < before.len() implies self.slot(j) != wp by {}
                assert(self@ =~= before.push(value));
                assert(self@ =~= pushed(old(self)@, data.take(i + 1), old(self).capacity()));
            } else {
                assert(self@ =~= pushed(old(self)@, data.take(i + 1), old(self).capacity()));
            }
            i += 1;
        }
        assert(data.take(count as int) =~= data);
    }

    /// Moves the `out.len()` oldest samples into `out` and returns `true`;
    /// if fewer samples are stored, changes nothing and returns `false`.
    pub fn read_chunk(&mut self, out: &mut [T]) -> (ok: bool)
        requires
            old(self).wf(),
        ensures
            final(self).wf(),
            final(self).capacity() == old(self).capacity(),
            final(self).silence() == old(self).silence(),
            ok == (old(out)@.len() <= old(self)@.len()),
            ok ==> final(out)@ == old(self)@.take(old(out)@.len() as int),
            ok ==> final(self)@ == old(self)@.skip(old(out)@.len() as int),
            !ok ==> final(out)@ == old(out)@,
            !ok ==> final(self)@ == old(self)@,
            final(self)@ == apply_op(old(self)@, RingOp::Read(old(out)@.len()), old(self).capacity()),
    {
        if self.available < out.len() {
            return false;
        }
        let n = out.len();
        let mut i: usize = 0;
        while i < n
            invariant
                i <= n,
                n == out@.len(),
                n == old(out)@.len(),
                n <= self.available,
                self.buffer@ == old(self).buffer@,
                self.capacity == old(self).capacity,
                self.silence == old(self).silence,
                self.available == old(self).available,
                self.write_pos == old(self).write_pos,
                old(self).wf(),
                self.read_pos == old(self).slot(i as int),
                forall|k: int| 0 <= k < i ==> out@[k] == old(self)@[k],
            decreases n - i,
        {
            let ghost rp = self.read_pos as int;
            proof {
                assert(rp < self.capacity);
                lemma_wrap(rp + 1, self.capacity as int);
            }
            out[i] = self.buffer[self.read_pos];
            self.read_pos = (self.read_pos + 1) % self.capacity;
            i += 1;
        }
        self.available = self.available - n;
        assert(out@ =~= old(self)@.take(n as int));
        assert(self@ =~= old(self)@.skip(n as int));
        true
    }

    /// The number of samples currently stored.
    pub fn available_samples(&self) -> (n: usize)
        requires
            self.wf(),
        ensures
            n == self@.len(),
    {
        self.available
    }
}

} // verus!
