use vstd::prelude::*;

verus! {

/// The series after one push: the new value in front, the oldest value gone.
/// A buffer of capacity zero holds nothing and stays empty.
pub open spec fn pushed(s: Seq<u64>, v: u64) -> Seq<u64> {
    if s.len() == 0 {
        s
    } else {
        seq![v] + s.drop_last()
    }
}

/// The series after pushing the values of `vs`, first to last.
pub open spec fn pushed_all(s: Seq<u64>, vs: Seq<u64>) -> Seq<u64>
    decreases vs.len(),
{
    if vs.len() == 0 {
        s
    } else {
        pushed(pushed_all(s, vs.drop_last()), vs.last())
    }
}

/// A series of `len` copies of `seed`.
pub open spec fn uniform(len: nat, seed: u64) -> Seq<u64> {
    Seq::new(len, |_i: int| seed)
}

/// A fixed-length series of samples, the most recent at index 0.
pub struct HistoryBuffer {
    values: Vec<u64>,
}

impl View for HistoryBuffer {
    type V = Seq<u64>;

    closed spec fn view(&self) -> Seq<u64> {
        self.values@
    }
}

impl HistoryBuffer {
    /// A buffer of `capacity` entries, each holding `seed`.
    pub fn filled(capacity: usize, seed: u64) -> (r: HistoryBuffer)
        ensures
            r@ == uniform(capacity as nat, seed),
    {
        let mut values: Vec<u64> = Vec::with_capacity(capacity);
        let mut i: usize = 0;
        while i < capacity
            invariant
                i <= capacity,
                values@ == uniform(i as nat, seed),
            decreases capacity - i,
        {
            values.push(seed);
            i = i + 1;
            assert(values@ =~= uniform(i as nat, seed));
        }
        HistoryBuffer { values }
    }

    /// Drops the oldest entry and puts `value` in front, shifting the others
    /// back by one; the length stays.
    pub fn push(&mut self, value: u64)
        ensures
            final(self)@ == pushed(old(self)@, value),
            final(self)@.len() == old(self)@.len(),
        no_unwind
    {
        let n = self.values.len();
        if n > 0 {
            let mut i: usize = n - 1;
            while i > 0
                invariant
                    n == self.values@.len(),
                    n == old(self).values@.len(),
                    i < n,
                    forall|j: int| 0 <= j <= i ==> self.values@[j] == old(self).values@[j],
                    forall|j: int| i < j < n ==> self.values@[j] == old(self).values@[j - 1],
                decreases i,
            {
                let prev = self.values[i - 1];
                self.values[i] = prev;
                i = i - 1;
            }
            self.values[0] = value;
            assert(self.values@ =~= pushed(old(self)@, value));
        }
    }

    /// The entries, most recent first.
    pub fn snapshot(&self) -> (r: &[u64])
        ensures
            r@ == self@,
    {
        self.values.as_slice()
    }

    /// The number of entries, which no push changes.
    pub fn len(&self) -> (r: usize)
        ensures
            r == self@.len(),
    {
        self.values.len()
    }
}

/// Pushing keeps the length of a buffer, and after at least one push into a
/// non-empty buffer its front holds the value pushed last.
pub proof fn lemma_pushes_keep_length_and_front(s: Seq<u64>, vs: Seq<u64>)
    ensures
        pushed_all(s, vs).len() == s.len(),
        vs.len() > 0 && s.len() > 0 ==> pushed_all(s, vs)[0] == vs.last(),
    decreases vs.len(),
{
    if vs.len() > 0 {
        lemma_pushes_keep_length_and_front(s, vs.drop_last());
    }
}

/// Pushing fewer values than the capacity onto a buffer filled with `seed`
/// leaves them in front, newest first, followed by the seeds still left.
pub proof fn lemma_pushes_in_order(capacity: nat, seed: u64, vs: Seq<u64>)
    requires
        vs.len() < capacity,
    ensures
        pushed_all(uniform(capacity, seed), vs) == vs.reverse() + uniform(
            (capacity - vs.len()) as nat,
            seed,
        ),
    decreases vs.len(),
{
    if vs.len() > 0 {
        let prev = vs.drop_last();
        lemma_pushes_in_order(capacity, seed, prev);
        let before = prev.reverse() + uniform((capacity - prev.len()) as nat, seed);
        assert(pushed_all(uniform(capacity, seed), prev) == before);
        assert(seq![vs.last()] + before.drop_last() =~= vs.reverse() + uniform(
            (capacity - vs.len()) as nat,
            seed,
        ));
    } else {
        assert(vs.reverse() + uniform(capacity, seed) =~= uniform(capacity, seed));
    }
}

} // verus!
