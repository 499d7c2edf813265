use vstd::prelude::*;

verus! {

/// How many recent price observations the dump detector remembers.
pub const HISTORY_CAPACITY: usize = 5;

/// The window after recording `x`: the newest observations, at most
/// `HISTORY_CAPACITY` of them, oldest first.
pub open spec fn window_push<T>(s: Seq<T>, x: T) -> Seq<T> {
    let t = s.push(x);
    if t.len() > HISTORY_CAPACITY {
        t.drop_first()
    } else {
        t
    }
}

/// The last `HISTORY_CAPACITY` elements of `s` (all of them if there are fewer).
pub open spec fn last_window<T>(s: Seq<T>) -> Seq<T> {
    if s.len() > HISTORY_CAPACITY {
        s.skip(s.len() - HISTORY_CAPACITY)
    } else {
        s
    }
}

/// The window after recording each element of `xs` in turn, starting from `s`.
pub open spec fn window_push_all<T>(s: Seq<T>, xs: Seq<T>) -> Seq<T>
    decreases xs.len(),
{
    if xs.len() == 0 {
        s
    } else {
        window_push_all(window_push(s, xs[0]), xs.drop_first())
    }
}

/// A sliding window over the most recent price observations.
pub struct PriceHistory<T> {
    entries: Vec<T>,
}

impl<T> View for PriceHistory<T> {
    type V = Seq<T>;

    closed spec fn view(&self) -> Seq<T> {
        self.entries@
    }
}

impl<T: Copy> PriceHistory<T> {
    /// The window never holds more than `HISTORY_CAPACITY` observations.
    pub open spec fn wf(&self) -> bool {
        self@.len() <= HISTORY_CAPACITY
    }

    /// An empty window.
    pub fn new() -> (r: PriceHistory<T>)
        ensures
            r@ == Seq::<T>::empty(),
            r.wf(),
    {
        PriceHistory { entries: Vec::new() }
    }

    /// Records an observation, dropping the oldest one when the window is full.
    pub fn push(&mut self, x: T)
        requires
            old(self).wf(),
        ensures
            final(self)@ == window_push(old(self)@, x),
            final(self).wf(),
    {
        self.entries.push(x);
        if self.entries.len() > HISTORY_CAPACITY {
            self.entries.remove(0);
            assert(self.entries@ =~= old(self)@.push(x).drop_first());
        }
    }

    /// The number of observations held.
    pub fn len(&self) -> (r: usize)
        ensures
            r == self@.len(),
    {
        self.entries.len()
    }

    /// The oldest observation held, if any.
    pub fn oldest(&self) -> (r: Option<T>)
        ensures
            r == if self@.len() == 0 { None } else { Some(self@[0]) },
    {
        if self.entries.len() == 0 {
            None
        } else {
            Some(self.entries[0])
        }
    }

    /// The oldest observation the window would hold after recording `x`.
    pub fn oldest_after_push(&self, x: T) -> (r: T)
        requires
            self.wf(),
        ensures
            r == window_push(self@, x)[0],
    {
        let n = self.entries.len();
        if n == 0 {
            x
        } else if n >= HISTORY_CAPACITY {
            self.entries[1]
        } else {
            self.entries[0]
        }
    }

    /// The observations held, oldest first.
    pub fn entries(&self) -> (r: &Vec<T>)
        ensures
            r@ == self@,
    {
        &self.entries
    }

    /// Forgets every observation.
    pub fn clear(&mut self)
        ensures
            final(self)@ == Seq::<T>::empty(),
            final(self).wf(),
    {
        self.entries.clear();
    }
}

/// Recording one more observation into the window of a sequence gives the
/// window of the longer sequence.
pub proof fn lemma_window_push_last<T>(s: Seq<T>, x: T)
    ensures
        window_push(last_window(s), x) == last_window(s.push(x)),
{
    let t = s.push(x);
    if s.len() > HISTORY_CAPACITY {
        assert(window_push(last_window(s), x) =~= t.skip(t.len() - HISTORY_CAPACITY));
    } else if s.len() == HISTORY_CAPACITY {
        assert(window_push(last_window(s), x) =~= t.skip(1));
    } else {
        assert(window_push(last_window(s), x) =~= t);
    }
}

/// Starting empty, the window always holds exactly the last `HISTORY_CAPACITY`
/// observations recorded, oldest first.
pub proof fn lemma_window_holds_latest<T>(xs: Seq<T>)
    ensures
        window_push_all(Seq::<T>::empty(), xs) == last_window(xs),
        window_push_all(Seq::<T>::empty(), xs).len() <= HISTORY_CAPACITY,
{
    lemma_window_push_all_from(Seq::<T>::empty(), xs);
    assert(last_window(Seq::<T>::empty()) =~= Seq::<T>::empty());
    assert(Seq::<T>::empty() + xs =~= xs);
}

proof fn lemma_window_push_all_from<T>(s: Seq<T>, xs: Seq<T>)
    ensures
        window_push_all(last_window(s), xs) == last_window(s + xs),
    decreases xs.len(),
{
    if xs.len() == 0 {
        assert(s + xs =~= s);
    } else {
        lemma_window_push_last(s, xs[0]);
        lemma_window_push_all_from(s.push(xs[0]), xs.drop_first());
        assert(s.push(xs[0]) + xs.drop_first() =~= s + xs);
    }
}

} // verus!
