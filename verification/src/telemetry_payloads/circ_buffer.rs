use vstd::prelude::*;
use vstd::std_specs::cmp::PartialEqSpec;

verus! {

/// Storage slot that holds the `i`-th most recent sample of a ring of `n` slots whose
/// most recent sample sits in slot `head` (for `0 <= head < n`, `0 <= i < n`).
pub open spec fn ring_slot(head: int, i: int, n: int) -> int {
    if head + i < n {
        head + i
    } else {
        head + i - n
    }
}

/// `s` after `v` was pushed in at the front: every sample moves one place back and the
/// oldest one falls off.
pub open spec fn shift_in<A>(s: Seq<Option<A>>, v: Option<A>) -> Seq<Option<A>> {
    Seq::new(s.len(), |j: int| if j == 0 { v } else { s[j - 1] })
}

/// `s` after `k` pushes of `v`.
pub open spec fn shift_in_repeated<A>(s: Seq<Option<A>>, v: Option<A>, k: int) -> Seq<Option<A>> {
    Seq::new(s.len(), |j: int| if j < k { v } else { s[j - k] })
}

/// Number of occupied entries of `s`.
pub open spec fn count_some<A>(s: Seq<Option<A>>) -> nat
    decreases s.len(),
{
    if s.len() == 0 {
        0
    } else {
        count_some(s.drop_last()) + if s.last() is Some { 1nat } else { 0nat }
    }
}

/// Number of occupied entries of `s` whose value equals `v` under `A`'s `==`.
pub open spec fn count_equal<A: PartialEq>(s: Seq<Option<A>>, v: A) -> nat
    decreases s.len(),
{
    if s.len() == 0 {
        0
    } else {
        count_equal(s.drop_last(), v) + if s.last() matches Some(x) && x.eq_spec(&v) {
            1nat
        } else {
            0nat
        }
    }
}

/// A fixed-size ring of `MAX_SIZE` optional samples. Index 0 is the most recent sample;
/// inserting a sample pushes every older sample one place back and drops the oldest.
#[derive(Debug)]
pub struct CircularBuffer<const MAX_SIZE: usize, T> {
    head: usize,
    memory: Vec<Option<T>>,
}

impl<const MAX_SIZE: usize, T> View for CircularBuffer<MAX_SIZE, T> {
    type V = Seq<Option<T>>;

    /// The samples from the most recent (index 0) to the oldest (index `MAX_SIZE - 1`).
    closed spec fn view(&self) -> Seq<Option<T>> {
        Seq::new(
            MAX_SIZE as nat,
            |i: int| self.memory@[ring_slot(self.head as int, i, MAX_SIZE as int)],
        )
    }
}

impl<const MAX_SIZE: usize, T> CircularBuffer<MAX_SIZE, T> {
    /// The storage holds exactly `MAX_SIZE` slots and the head points into it.
    pub closed spec fn wf(&self) -> bool {
        &&& self.memory@.len() == MAX_SIZE
        &&& (MAX_SIZE == 0 ==> self.head == 0)
        &&& (MAX_SIZE > 0 ==> self.head < MAX_SIZE)
    }

    /// The view always has one entry per slot.
    pub proof fn lemma_view_len(&self)
        ensures
            self@.len() == MAX_SIZE,
    {
    }

    /// Pushes `new_value` in as the most recent sample and returns the sample that fell
    /// off the far end.
    pub fn insert_point(&mut self, new_value: Option<T>) -> (r: Option<T>)
        requires
            old(self).wf(),
            MAX_SIZE > 0,
        ensures
            final(self).wf(),
            final(self)@ == shift_in(old(self)@, new_value),
            r == old(self)@[MAX_SIZE - 1],
    {
        let current_last_idx = if self.head == 0 {
            MAX_SIZE - 1
        } else {
            self.head - 1
        };
        let ghost old_view = self@;
        self.head = current_last_idx;
        let mut value = new_value;
        self.memory.set_and_swap(current_last_idx, &mut value);
        assert(self@ =~= shift_in(old_view, new_value));
        value
    }

    /// Pushes in `generative_fun(0)`, `generative_fun(1)`, ... `generative_fun(num_samples - 1)`
    /// in that order, so the last generated value ends up most recent.
    pub fn fill_with(&mut self, generative_fun: impl Fn(usize) -> Option<T>, num_samples: usize)
        requires
            old(self).wf(),
            num_samples > 0 ==> MAX_SIZE > 0,
            forall|i: usize| i < num_samples ==> call_requires(generative_fun, (i,)),
        ensures
            final(self).wf(),
            final(self)@.len() == MAX_SIZE,
            forall|j: int|
                0 <= j < MAX_SIZE && j < num_samples ==> call_ensures(
                    generative_fun,
                    ((num_samples - 1 - j) as usize,),
                    #[trigger] final(self)@[j],
                ),
            forall|j: int|
                0 <= j < MAX_SIZE && j >= num_samples ==> #[trigger] final(self)@[j] == old(
                    self,
                )@[j - num_samples],
    {
        let ghost start = self@;
        let mut i: usize = 0;
        while i < num_samples
            invariant
                self.wf(),
                i <= num_samples,
                num_samples > 0 ==> MAX_SIZE > 0,
                start.len() == MAX_SIZE,
                forall|i: usize| i < num_samples ==> call_requires(generative_fun, (i,)),
                forall|j: int|
                    0 <= j < MAX_SIZE && j < i ==> call_ensures(
                        generative_fun,
                        ((i - 1 - j) as usize,),
                        #[trigger] self@[j],
                    ),
                forall|j: int| 0 <= j < MAX_SIZE && j >= i ==> #[trigger] self@[j] == start[j - i],
            decreases num_samples - i,
        {
            let v = generative_fun(i);
            let ghost before = self@;
            self.insert_point(v);
            assert forall|j: int| 0 <= j < MAX_SIZE && j < i + 1 implies call_ensures(
                generative_fun,
                ((i + 1 - 1 - j) as usize,),
                #[trigger] self@[j],
            ) by {
                if j > 0 {
                    assert(self@[j] == before[j - 1]);
                }
            }
            assert forall|j: int| 0 <= j < MAX_SIZE && j >= i + 1 implies #[trigger] self@[j]
                == start[j - (i + 1)] by {
                assert(self@[j] == before[j - 1]);
            }
            i = i + 1;
        }
    }

    /// Number of occupied samples.
    pub fn valid_entries(&self) -> (r: usize)
        requires
            self.wf(),
        ensures
            r == count_some(self@),
            r <= MAX_SIZE,
    {
        let mut count: usize = 0;
        let mut i: usize = 0;
        while i < MAX_SIZE
            invariant
                self.wf(),
                i <= MAX_SIZE,
                count == count_some(self@.take(i as int)),
                count <= i,
            decreases MAX_SIZE - i,
        {
            let pos = if self.head < MAX_SIZE - i {
                self.head + i
            } else {
                self.head - (MAX_SIZE - i)
            };
            assert(self@.take(i + 1).drop_last() =~= self@.take(i as int));
            if self.memory[pos].is_some() {
                count = count + 1;
            }
            i = i + 1;
        }
        assert(self@.take(MAX_SIZE as int) =~= self@);
        count
    }
}

impl<const MAX_SIZE: usize, T: PartialEq> CircularBuffer<MAX_SIZE, T> {
    /// Number of occupied samples equal to `value`. The count is exact whenever `T`'s
    /// `==` behaves as its specification says (as it does for integers and `bool`).
    pub fn entries_matching(&self, value: &T) -> (r: usize)
        requires
            self.wf(),
        ensures
            T::obeys_eq_spec() ==> r == count_equal(self@, *value),
            r <= count_some(self@),
            r <= MAX_SIZE,
    {
        let mut count: usize = 0;
        let mut i: usize = 0;
        while i < MAX_SIZE
            invariant
                self.wf(),
                i <= MAX_SIZE,
                T::obeys_eq_spec() ==> count == count_equal(self@.take(i as int), *value),
                count <= count_some(self@.take(i as int)),
                count <= i,
            decreases MAX_SIZE - i,
        {
            let pos = if self.head < MAX_SIZE - i {
                self.head + i
            } else {
                self.head - (MAX_SIZE - i)
            };
            assert(self@.take(i + 1).drop_last() =~= self@.take(i as int));
            let hit = match &self.memory[pos] {
                Some(x) => *x == *value,
                None => false,
            };
            if hit {
                count = count + 1;
            }
            i = i + 1;
        }
        assert(self@.take(MAX_SIZE as int) =~= self@);
        count
    }
}


impl<const MAX_SIZE: usize, T: Copy> CircularBuffer<MAX_SIZE, T> {
    /// A buffer with every slot empty.
    pub fn new() -> (r: Self)
        ensures
            r.wf(),
            r@ == Seq::new(MAX_SIZE as nat, |i: int| None::<T>),
    {
        let mut memory: Vec<Option<T>> = Vec::new();
        let mut i: usize = 0;
        while i < MAX_SIZE
            invariant
                i <= MAX_SIZE,
                memory@.len() == i,
                forall|j: int| 0 <= j < i ==> memory@[j] is None,
            decreases MAX_SIZE - i,
        {
            memory.push(None);
            i = i + 1;
        }
        let r = Self { head: 0, memory };
        assert(r@ =~= Seq::new(MAX_SIZE as nat, |i: int| None::<T>));
        r
    }

    /// The sample `idx` places back from the most recent one, or `None` when `idx` is past
    /// the end of the buffer.
    pub fn get(&self, idx: usize) -> (r: Option<T>)
        requires
            self.wf(),
            MAX_SIZE > 0,
        ensures
            r == if idx < MAX_SIZE {
                self@[idx as int]
            } else {
                None
            },
    {
        if idx > MAX_SIZE - 1 {
            return None;
        }
        let pos = if self.head < MAX_SIZE - idx {
            self.head + idx
        } else {
            self.head - (MAX_SIZE - idx)
        };
        self.memory[pos]
    }

    /// An iterator over the samples, from the most recent to the oldest.
    pub fn iter(&self) -> (r: CircularBufferIter<'_, MAX_SIZE, T>)
        requires
            self.wf(),
        ensures
            r.wf(),
            r.items() == self@,
            r.position() == 0,
    {
        CircularBufferIter { buffer: self, idx: 0 }
    }

    /// Empties every slot.
    pub fn clear(&mut self)
        requires
            old(self).wf(),
        ensures
            final(self).wf(),
            final(self)@ == Seq::new(MAX_SIZE as nat, |i: int| None::<T>),
    {
        let mut i: usize = 0;
        while i < MAX_SIZE
            invariant
                i <= MAX_SIZE,
                self.memory@.len() == MAX_SIZE,
                forall|j: int| 0 <= j < i ==> self.memory@[j] is None,
            decreases MAX_SIZE - i,
        {
            self.memory.set(i, None);
            i = i + 1;
        }
        self.head = 0;
        assert(self@ =~= Seq::new(MAX_SIZE as nat, |i: int| None::<T>));
    }

    /// Pushes `value_to_fill` in `num_samples` times.
    pub fn fill(&mut self, value_to_fill: Option<T>, num_samples: usize)
        requires
            old(self).wf(),
            num_samples > 0 ==> MAX_SIZE > 0,
        ensures
            final(self).wf(),
            final(self)@ == shift_in_repeated(old(self)@, value_to_fill, num_samples as int),
    {
        let ghost start = self@;
        let mut i: usize = 0;
        while i < num_samples
            invariant
                self.wf(),
                i <= num_samples,
                num_samples > 0 ==> MAX_SIZE > 0,
                start.len() == MAX_SIZE,
                self@ == shift_in_repeated(start, value_to_fill, i as int),
            decreases num_samples - i,
        {
            let ghost before = self@;
            self.insert_point(value_to_fill);
            assert(self@ =~= shift_in_repeated(start, value_to_fill, i + 1));
            i = i + 1;
        }
    }
}

impl<const MAX_SIZE: usize, T: Copy> Default for CircularBuffer<MAX_SIZE, T> {
    fn default() -> (r: Self)
        ensures
            r.wf(),
            r@ == Seq::new(MAX_SIZE as nat, |i: int| None::<T>),
    {
        Self::new()
    }
}

/// Walks a [`CircularBuffer`] from the most recent sample to the oldest.
pub struct CircularBufferIter<'a, const MAX_SIZE: usize, T> {
    buffer: &'a CircularBuffer<MAX_SIZE, T>,
    idx: usize,
}

impl<'a, const MAX_SIZE: usize, T: Copy> CircularBufferIter<'a, MAX_SIZE, T> {
    /// The buffer being walked is well formed and the walk has not passed its end.
    pub closed spec fn wf(&self) -> bool {
        self.buffer.wf() && self.idx <= MAX_SIZE
    }

    /// All samples of the walked buffer, most recent first.
    pub closed spec fn items(&self) -> Seq<Option<T>> {
        self.buffer@
    }

    /// How many samples were handed out so far.
    pub closed spec fn position(&self) -> nat {
        self.idx as nat
    }

    /// The next sample (itself possibly empty), or `None` once every slot was handed out.
    pub fn next(&mut self) -> (r: Option<Option<T>>)
        requires
            old(self).wf(),
        ensures
            final(self).wf(),
            final(self).items() == old(self).items(),
            old(self).position() < MAX_SIZE ==> r == Some(old(self).items()[old(self).position() as int])
                && final(self).position() == old(self).position() + 1,
            old(self).position() >= MAX_SIZE ==> r is None && final(self).position() == old(self).position(),
    {
        if self.idx >= MAX_SIZE {
            return None;
        }
        let item = self.buffer.get(self.idx);
        self.idx = self.idx + 1;
        Some(item)
    }
}


/// Counting the occupied entries of a sequence with one more entry in front adds one for
/// that entry when it is occupied.
pub proof fn lemma_count_some_prepend<A>(v: Option<A>, t: Seq<Option<A>>)
    ensures
        count_some(seq![v] + t) == count_some(t) + if v is Some { 1nat } else { 0nat },
    decreases t.len(),
{
    if t.len() == 0 {
        assert((seq![v] + t).drop_last() =~= Seq::<Option<A>>::empty());
        assert((seq![v] + t).last() == v);
        assert(count_some(Seq::<Option<A>>::empty()) == 0);
    } else {
        lemma_count_some_prepend(v, t.drop_last());
        assert((seq![v] + t).drop_last() =~= seq![v] + t.drop_last());
        assert((seq![v] + t).last() == t.last());
    }
}

/// Counting the entries equal to `w` of a sequence with one more entry in front adds one
/// when that entry equals `w`.
pub proof fn lemma_count_equal_prepend<A: PartialEq>(v: Option<A>, t: Seq<Option<A>>, w: A)
    ensures
        count_equal(seq![v] + t, w) == count_equal(t, w) + if v matches Some(x) && x.eq_spec(&w) {
            1nat
        } else {
            0nat
        },
    decreases t.len(),
{
    if t.len() == 0 {
        assert((seq![v] + t).drop_last() =~= Seq::<Option<A>>::empty());
        assert((seq![v] + t).last() == v);
        assert(count_equal(Seq::<Option<A>>::empty(), w) == 0);
    } else {
        lemma_count_equal_prepend(v, t.drop_last(), w);
        assert((seq![v] + t).drop_last() =~= seq![v] + t.drop_last());
        assert((seq![v] + t).last() == t.last());
    }
}

/// No entry of a sequence of empty slots equals anything.
pub proof fn lemma_empty_has_no_matches<A: PartialEq>(n: nat, w: A)
    ensures
        count_equal(Seq::new(n, |i: int| None::<A>), w) == 0,
    decreases n,
{
    if n > 0 {
        assert(Seq::new(n, |i: int| None::<A>).drop_last() =~= Seq::new(
            (n - 1) as nat,
            |i: int| None::<A>,
        ));
        lemma_empty_has_no_matches::<A>((n - 1) as nat, w);
    }
}

/// Counting the occupied entries of a sequence with its last entry removed.
pub proof fn lemma_count_some_take<A>(s: Seq<Option<A>>)
    requires
        s.len() > 0,
    ensures
        count_some(s) == count_some(s.take(s.len() - 1)) + if s.last() is Some {
            1nat
        } else {
            0nat
        },
{
    assert(s.take(s.len() - 1) =~= s.drop_last());
}

/// Pushing a sample in keeps the number of occupied samples up to date: the new sample
/// counts when present, and the sample that fell off no longer counts.
pub proof fn lemma_count_after_insert<A>(s: Seq<Option<A>>, v: Option<A>)
    requires
        s.len() > 0,
    ensures
        count_some(shift_in(s, v)) + (if s.last() is Some { 1nat } else { 0nat }) == count_some(s)
            + (if v is Some { 1nat } else { 0nat }),
{
    assert(shift_in(s, v) =~= seq![v] + s.take(s.len() - 1));
    lemma_count_some_prepend(v, s.take(s.len() - 1));
    lemma_count_some_take(s);
}

/// An occupied count never exceeds the number of slots.
pub proof fn lemma_count_some_bounded<A>(s: Seq<Option<A>>)
    ensures
        count_some(s) <= s.len(),
    decreases s.len(),
{
    if s.len() > 0 {
        lemma_count_some_bounded(s.drop_last());
    }
}

/// No more samples match a value than there are occupied samples.
pub proof fn lemma_matching_at_most_valid<A: PartialEq>(s: Seq<Option<A>>, v: A)
    ensures
        count_equal(s, v) <= count_some(s),
    decreases s.len(),
{
    if s.len() > 0 {
        lemma_matching_at_most_valid(s.drop_last(), v);
    }
}

/// A buffer of empty slots holds no sample.
pub proof fn lemma_empty_has_no_entries<A>(n: nat)
    ensures
        count_some(Seq::new(n, |i: int| None::<A>)) == 0,
    decreases n,
{
    if n > 0 {
        assert(Seq::new(n, |i: int| None::<A>).drop_last() =~= Seq::new(
            (n - 1) as nat,
            |i: int| None::<A>,
        ));
        lemma_empty_has_no_entries::<A>((n - 1) as nat);
    }
}

/// Pushing the same sample in at least as many times as there are slots leaves nothing of
/// the former contents: every slot holds that sample.
pub proof fn lemma_fill_overwrites_all<A>(s: Seq<Option<A>>, v: Option<A>, k: int)
    requires
        k >= s.len(),
    ensures
        shift_in_repeated(s, v, k) == Seq::new(s.len(), |i: int| v),
{
    assert(shift_in_repeated(s, v, k) =~= Seq::new(s.len(), |i: int| v));
}

/// Reading the most recent sample right after a push gives the pushed sample, and every
/// older sample is found one place further back.
pub proof fn lemma_read_after_insert<A>(s: Seq<Option<A>>, v: Option<A>, i: int)
    requires
        0 < i < s.len(),
    ensures
        shift_in(s, v)[0] == v,
        shift_in(s, v)[i] == s[i - 1],
        shift_in(s, v).len() == s.len(),
{
}

} // verus!
