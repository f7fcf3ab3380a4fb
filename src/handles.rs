//! Owning tables of values addressed by tokens.
//!
//! A value handed across the boundary stays in the table of the side that
//! owns it, and the other side holds only its token. A token is never handed
//! out twice, so a release after the first finds nothing and is reported
//! instead of freeing a value a second time.

use vstd::prelude::*;

verus! {

/// Values by token; a released token stays empty for good.
pub struct HandleTable<T> {
    slots: Vec<Option<T>>,
}

impl<T> HandleTable<T> {
    /// The values that are held, by token.
    pub closed spec fn live(&self) -> Map<u64, T> {
        Map::new(
            |k: u64| (k as int) < self.slots@.len() && self.slots@[k as int] is Some,
            |k: u64| self.slots@[k as int]->Some_0,
        )
    }

    /// The number of tokens handed out so far; no token at or above it was
    /// ever handed out.
    pub closed spec fn issued(&self) -> nat {
        self.slots@.len()
    }

    /// An empty table.
    pub fn new() -> (r: HandleTable<T>)
        ensures
            r.live() == Map::<u64, T>::empty(),
            r.issued() == 0,
    {
        let r = HandleTable { slots: Vec::new() };
        assert(r.live() =~= Map::<u64, T>::empty());
        r
    }

    /// Takes ownership of `value` and returns its new token, or gives the
    /// value back when every token has been used.
    pub fn insert(&mut self, value: T) -> (r: Result<u64, T>)
        ensures
            match r {
                Ok(token) => {
                    &&& token == old(self).issued()
                    &&& old(self).issued() < u64::MAX
                    &&& !old(self).live().contains_key(token)
                    &&& final(self).live() == old(self).live().insert(token, value)
                    &&& final(self).issued() == old(self).issued() + 1
                },
                Err(v) => {
                    &&& v == value
                    &&& old(self).issued() >= u64::MAX
                    &&& final(self).live() == old(self).live()
                    &&& final(self).issued() == old(self).issued()
                },
            },
    {
        let n = self.slots.len();
        if n as u128 >= u64::MAX as u128 {
            return Err(value);
        }
        let token = n as u64;
        self.slots.push(Some(value));
        assert(final(self).live() =~= old(self).live().insert(token, value));
        Ok(token)
    }

    /// The value held under `token`, if any.
    pub fn get(&self, token: u64) -> (r: Option<&T>)
        ensures
            match r {
                Some(v) => self.live().contains_key(token) && *v == self.live()[token],
                None => !self.live().contains_key(token),
            },
    {
        if token as u128 >= self.slots.len() as u128 {
            return None;
        }
        match &self.slots[token as usize] {
            Some(v) => Some(v),
            None => None,
        }
    }

    /// Whether a value is held under `token`.
    pub fn contains(&self, token: u64) -> (r: bool)
        ensures
            r == self.live().contains_key(token),
    {
        self.get(token).is_some()
    }

    /// Releases the value held under `token` and hands it back; finds
    /// nothing when the token was never handed out or was released before.
    pub fn remove(&mut self, token: u64) -> (r: Option<T>)
        ensures
            match r {
                Some(v) => old(self).live().contains_key(token) && v == old(self).live()[token],
                None => !old(self).live().contains_key(token),
            },
            final(self).live() == old(self).live().remove(token),
            final(self).issued() == old(self).issued(),
    {
        if token as u128 >= self.slots.len() as u128 {
            assert(final(self).live() =~= old(self).live().remove(token));
            return None;
        }
        let r = self.slots[token as usize].take();
        assert(final(self).live() =~= old(self).live().remove(token));
        r
    }

    /// Whether nothing is held.
    pub fn is_empty(&self) -> (r: bool)
        ensures
            r == (self.live() == Map::<u64, T>::empty()),
    {
        let n = self.slots.len();
        let mut i: usize = 0;
        while i < n
            invariant
                n == self.slots@.len(),
                i <= n,
                forall|j: int| 0 <= j < i ==> self.slots@[j] is None,
            decreases n - i,
        {
            if self.slots[i].is_some() {
                assert(self.live().contains_key(i as u64));
                assert(self.live() != Map::<u64, T>::empty()) by {
                    assert(!Map::<u64, T>::empty().contains_key(i as u64));
                }
                return false;
            }
            i = i + 1;
        }
        assert(self.live() =~= Map::<u64, T>::empty());
        true
    }
}

/// Releasing a value once, right after it was taken in, leaves the table
/// holding what it held before; a second release of the same token finds
/// nothing.
pub proof fn lemma_release_once<T>(live: Map<u64, T>, token: u64, value: T)
    requires
        !live.contains_key(token),
    ensures
        live.insert(token, value).remove(token) == live,
        !live.insert(token, value).remove(token).contains_key(token),
{
    assert(live.insert(token, value).remove(token) =~= live);
}

} // verus!
