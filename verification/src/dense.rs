//! A hash-map bucket that stores its key and value in place. A bucket is empty,
//! deleted (a tombstone left by a removal), or set to a key and a value.
use vstd::prelude::*;

verus! {

/// The state of a bucket.
#[derive(Debug)]
pub enum BucketState<K, V> {
    /// The bucket has never held an entry since it was last emptied.
    Empty,
    /// The bucket held an entry that was removed.
    Deleted,
    /// The bucket holds this key and value.
    Occupied(K, V),
}

/// A bucket whose key and value are stored in place.
pub struct DenseBucket<K, V> {
    state: BucketState<K, V>,
}

impl<K, V> View for DenseBucket<K, V> {
    type V = BucketState<K, V>;

    closed spec fn view(&self) -> BucketState<K, V> {
        self.state
    }
}

impl<K, V> DenseBucket<K, V> {
    /// Creates an empty bucket.
    pub fn new() -> (b: Self)
        ensures
            b@ == BucketState::<K, V>::Empty,
    {
        DenseBucket { state: BucketState::Empty }
    }

    /// Whether the bucket is empty.
    pub fn is_empty(&self) -> (r: bool)
        ensures
            r == (self@ is Empty),
    {
        match &self.state {
            BucketState::Empty => true,
            _ => false,
        }
    }

    /// Whether the bucket's entry was removed.
    pub fn is_deleted(&self) -> (r: bool)
        ensures
            r == (self@ is Deleted),
    {
        match &self.state {
            BucketState::Deleted => true,
            _ => false,
        }
    }

    /// Whether the bucket holds an entry: it is neither empty nor deleted.
    pub fn is_set(&self) -> (r: bool)
        ensures
            r == (self@ is Occupied),
            r == (!(self@ is Empty) && !(self@ is Deleted)),
    {
        !self.is_empty() && !self.is_deleted()
    }

    /// Makes this bucket a copy of `other`, whatever state `other` is in.
    pub fn copy(&mut self, other: &DenseBucket<K, V>)
        where K: Copy, V: Copy,
        ensures
            final(self)@ == other@,
    {
        self.state = match &other.state {
            BucketState::Empty => BucketState::Empty,
            BucketState::Deleted => BucketState::Deleted,
            BucketState::Occupied(k, v) => BucketState::Occupied(*k, *v),
        };
    }

    /// Marks the bucket empty.
    pub fn set_empty(&mut self)
        ensures
            final(self)@ == BucketState::<K, V>::Empty,
    {
        self.state = BucketState::Empty;
    }

    /// Marks the bucket deleted.
    pub fn set_deleted(&mut self)
        ensures
            final(self)@ == BucketState::<K, V>::Deleted,
    {
        self.state = BucketState::Deleted;
    }

    /// Stores a key and a value in the bucket.
    pub fn set(&mut self, key: K, value: V)
        ensures
            final(self)@ == BucketState::Occupied(key, value),
    {
        self.state = BucketState::Occupied(key, value);
    }

    /// Replaces the entry of a set bucket and returns the entry it held.
    pub fn replace(&mut self, key: K, value: V) -> (entry: (K, V))
        requires
            old(self)@ is Occupied,
        ensures
            old(self)@ == BucketState::Occupied(entry.0, entry.1),
            final(self)@ == BucketState::Occupied(key, value),
    {
        let mut state = BucketState::Occupied(key, value);
        core::mem::swap(&mut self.state, &mut state);
        match state {
            BucketState::Occupied(k, v) => (k, v),
            _ => vstd::pervasive::unreached(),
        }
    }

    /// Takes the entry out of a set bucket and marks the bucket deleted.
    pub fn remove(&mut self) -> (entry: (K, V))
        requires
            old(self)@ is Occupied,
        ensures
            old(self)@ == BucketState::Occupied(entry.0, entry.1),
            final(self)@ == BucketState::<K, V>::Deleted,
    {
        let mut state = BucketState::Deleted;
        core::mem::swap(&mut self.state, &mut state);
        match state {
            BucketState::Occupied(k, v) => (k, v),
            _ => vstd::pervasive::unreached(),
        }
    }

    /// The key of a set bucket.
    pub fn key(&self) -> (k: &K)
        requires
            self@ is Occupied,
        ensures
            *k == self@->0,
    {
        match &self.state {
            BucketState::Occupied(k, _) => k,
            _ => vstd::pervasive::unreached(),
        }
    }

    /// The value of a set bucket.
    pub fn value(&self) -> (v: &V)
        requires
            self@ is Occupied,
        ensures
            *v == self@->1,
    {
        match &self.state {
            BucketState::Occupied(_, v) => v,
            _ => vstd::pervasive::unreached(),
        }
    }

    /// The key of a set bucket, to modify in place.
    pub fn mut_key(&mut self) -> (k: &mut K)
        requires
            old(self)@ is Occupied,
        ensures
            *k == old(self)@->0,
            final(self)@ == BucketState::Occupied(*final(k), old(self)@->1),
    {
        match &mut self.state {
            BucketState::Occupied(k, _) => k,
            _ => vstd::pervasive::unreached(),
        }
    }

    /// The value of a set bucket, to modify in place.
    pub fn mut_value(&mut self) -> (v: &mut V)
        requires
            old(self)@ is Occupied,
        ensures
            *v == old(self)@->1,
            final(self)@ == BucketState::Occupied(old(self)@->0, *final(v)),
    {
        match &mut self.state {
            BucketState::Occupied(_, v) => v,
            _ => vstd::pervasive::unreached(),
        }
    }
}

/// A bucket gives back on removal or replacement exactly the entry that it was set to:
/// `set(key, value)` leaves it `Occupied(key, value)`, and `remove` and `replace` return
/// an entry `e` with `Occupied(e.0, e.1)` equal to the state they found.
pub proof fn lemma_taken_entry_is_set_entry<K, V>(key: K, value: V, entry: (K, V))
    requires
        BucketState::Occupied(key, value) == BucketState::Occupied(entry.0, entry.1),
    ensures
        entry == (key, value),
{
}

} // verus!
