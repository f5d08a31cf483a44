//! A table of records keyed by a unique string id.
use vstd::prelude::*;

verus! {

broadcast use vstd::seq_lib::group_seq_properties;

/// A record with a string key.
pub trait Record: View + Sized {
    /// The key of a record's value.
    spec fn key_of(v: Self::V) -> Seq<char>;

    /// The record's key.
    fn key(&self) -> (r: &String)
        ensures
            r@ == Self::key_of(self@),
    ;

    /// A copy of the record.
    fn duplicate(&self) -> (r: Self)
        ensures
            r@ == self@,
    ;
}

/// No two rows share a key.
pub open spec fn unique_keys<T: Record>(s: Seq<T::V>) -> bool {
    forall|i: int, j: int|
        0 <= i < s.len() && 0 <= j < s.len() && i != j ==> T::key_of(s[i]) != T::key_of(s[j])
}

/// Some row has key `key`.
pub open spec fn has_key<T: Record>(s: Seq<T::V>, key: Seq<char>) -> bool {
    exists|k: int| 0 <= k < s.len() && T::key_of(#[trigger] s[k]) == key
}

/// The rows after `v` is stored: it replaces the row with its key, or is appended.
pub open spec fn upserted<T: Record>(s: Seq<T::V>, v: T::V, t: Seq<T::V>) -> bool {
    if has_key::<T>(s, T::key_of(v)) {
        exists|k: int|
            0 <= k < s.len() && T::key_of(#[trigger] s[k]) == T::key_of(v) && t == s.update(k, v)
    } else {
        t == s.push(v)
    }
}

/// Rows with unique keys.
pub struct Table<T: Record> {
    rows: Vec<T>,
}

impl<T: Record> Table<T> {
    /// The rows' values, in order.
    pub closed spec fn rows(&self) -> Seq<T::V> {
        self.rows@.map_values(|r: T| r@)
    }

    /// No two rows share a key.
    pub open spec fn wf(&self) -> bool {
        unique_keys::<T>(self.rows())
    }

    /// An empty table.
    pub fn new() -> (r: Table<T>)
        ensures
            r.wf(),
            r.rows() == Seq::<T::V>::empty(),
    {
        let r = Table { rows: Vec::new() };
        proof {
            assert(r.rows() =~= Seq::<T::V>::empty());
        }
        r
    }

    fn find(&self, key: &str) -> (r: Option<usize>)
        ensures
            r is Some <==> has_key::<T>(self.rows(), key@),
            r matches Some(k) ==> k < self.rows().len() && T::key_of(self.rows()[k as int])
                == key@,
    {
        let wanted = String::from_str(key);
        let mut i: usize = 0;
        while i < self.rows.len()
            invariant
                i <= self.rows@.len(),
                wanted@ == key@,
                self.rows().len() == self.rows@.len(),
                forall|k: int| 0 <= k < i ==> T::key_of(#[trigger] self.rows()[k]) != key@,
            decreases self.rows@.len() - i,
        {
            if *self.rows[i].key() == wanted {
                proof {
                    assert(T::key_of(self.rows()[i as int]) == key@);
                }
                return Some(i);
            }
            i = i + 1;
        }
        None
    }

    /// A copy of the row with key `key`.
    pub fn get(&self, key: &str) -> (r: Option<T>)
        ensures
            r is Some <==> has_key::<T>(self.rows(), key@),
            r matches Some(v) ==> T::key_of(v@) == key@ && self.rows().contains(v@),
    {
        match self.find(key) {
            Some(k) => {
                let v = self.rows[k].duplicate();
                proof {
                    assert(self.rows()[k as int] == v@);
                }
                Some(v)
            },
            None => None,
        }
    }

    /// Copies of every row, in order.
    pub fn all(&self) -> (r: Vec<T>)
        ensures
            r@.map_values(|v: T| v@) == self.rows(),
    {
        let mut r: Vec<T> = Vec::new();
        let mut i: usize = 0;
        while i < self.rows.len()
            invariant
                i <= self.rows@.len(),
                r@.len() == i,
                self.rows().len() == self.rows@.len(),
                forall|k: int| 0 <= k < i ==> (#[trigger] r@[k])@ == self.rows()[k],
            decreases self.rows@.len() - i,
        {
            r.push(self.rows[i].duplicate());
            i = i + 1;
        }
        proof {
            assert(r@.map_values(|v: T| v@) =~= self.rows());
        }
        r
    }

    /// Stores `v`: it replaces the row with its key, or is appended.
    pub fn upsert(&mut self, v: T)
        requires
            old(self).wf(),
        ensures
            final(self).wf(),
            upserted::<T>(old(self).rows(), v@, final(self).rows()),
    {
        let ghost s = old(self).rows();
        let ghost vv = v@;
        match self.find(v.key().as_str()) {
            Some(k) => {
                self.rows.set(k, v);
                proof {
                    assert(self.rows() =~= s.update(k as int, vv));
                    assert forall|i: int, j: int|
                        0 <= i < self.rows().len() && 0 <= j < self.rows().len() && i
                            != j implies T::key_of(self.rows()[i]) != T::key_of(self.rows()[j]) by {
                        assert(T::key_of(s[i]) != T::key_of(s[j]));
                    }
                }
            },
            None => {
                self.rows.push(v);
                proof {
                    assert(self.rows() =~= s.push(vv));
                }
            },
        }
    }

    /// Appends `v`. Fails when a row with its key exists.
    pub fn insert(&mut self, v: T) -> (r: Result<(), ()>)
        requires
            old(self).wf(),
        ensures
            final(self).wf(),
            r is Ok <==> !has_key::<T>(old(self).rows(), T::key_of(v@)),
            r is Ok ==> final(self).rows() == old(self).rows().push(v@),
            r is Err ==> final(self).rows() == old(self).rows(),
    {
        let ghost s = old(self).rows();
        let ghost vv = v@;
        if self.find(v.key().as_str()).is_some() {
            return Err(());
        }
        self.rows.push(v);
        proof {
            assert(self.rows() =~= s.push(vv));
        }
        Ok(())
    }

    /// Removes the row with key `key`, returning it.
    pub fn remove(&mut self, key: &str) -> (r: Option<T>)
        requires
            old(self).wf(),
        ensures
            final(self).wf(),
            r is Some <==> has_key::<T>(old(self).rows(), key@),
            r matches Some(v) ==> exists|k: int|
                0 <= k < old(self).rows().len() && #[trigger] old(self).rows()[k] == v@
                    && T::key_of(v@) == key@ && final(self).rows() == old(self).rows().remove(k),
            r is None ==> final(self).rows() == old(self).rows(),
            !has_key::<T>(final(self).rows(), key@),
    {
        let ghost s = old(self).rows();
        match self.find(key) {
            Some(k) => {
                let v = self.rows.remove(k);
                proof {
                    assert(self.rows() =~= s.remove(k as int));
                    assert forall|i: int, j: int|
                        0 <= i < self.rows().len() && 0 <= j < self.rows().len() && i
                            != j implies T::key_of(self.rows()[i]) != T::key_of(self.rows()[j]) by {
                        let ii = if i < k { i } else { i + 1 };
                        let jj = if j < k { j } else { j + 1 };
                        assert(T::key_of(s[ii]) != T::key_of(s[jj]));
                    }
                    assert forall|i: int| 0 <= i < self.rows().len() implies T::key_of(
                        #[trigger] self.rows()[i],
                    ) != key@ by {
                        let ii = if i < k { i } else { i + 1 };
                        assert(T::key_of(s[ii]) != T::key_of(s[k as int]));
                    }
                    assert(s[k as int] == v@);
                }
                Some(v)
            },
            None => None,
        }
    }
}

} // verus!
