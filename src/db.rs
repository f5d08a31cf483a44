//! The catalog: packages, tags, composes and signing keys, with the invariants
//! that every transition keeps. Above all, for any (tag, name, architecture) at
//! most one package is available.
use vstd::prelude::*;

use crate::errors::RepoError;
use crate::keyring::{GpgKey, GpgKeyModel};
use crate::package::{Rpm, RpmModel};
use crate::table::{Table, unique_keys, upserted, has_key};
use crate::tag::{ComposeModel, Tag, TagCompose, TagModel};

verus! {

broadcast use vstd::seq_lib::group_seq_properties;

/// No two packages share an id.
pub open spec fn unique_ids(s: Seq<RpmModel>) -> bool {
    forall|i: int, j: int| 0 <= i < s.len() && 0 <= j < s.len() && i != j ==> s[i].id != s[j].id
}

/// For any (tag, name, architecture), at most one package is available.
pub open spec fn at_most_one_available(s: Seq<RpmModel>) -> bool {
    forall|i: int, j: int|
        0 <= i < s.len() && 0 <= j < s.len() && i != j && #[trigger] s[i].available
            && #[trigger] s[j].available ==> !s[i].same_slot(s[j])
}

/// The package table's invariant.
pub open spec fn packages_wf(s: Seq<RpmModel>) -> bool {
    &&& unique_ids(s)
    &&& at_most_one_available(s)
    &&& forall|i: int| 0 <= i < s.len() ==> (#[trigger] s[i]).wf()
}

/// The views of a sequence of package records.
pub open spec fn rpms_view(v: Seq<Rpm>) -> Seq<RpmModel> {
    v.map_values(|r: Rpm| r@)
}

/// Some package has id `id`.
pub open spec fn has_id(s: Seq<RpmModel>, id: Seq<char>) -> bool {
    exists|k: int| 0 <= k < s.len() && #[trigger] s[k].id == id
}

/// The table after `rec` is marked available: every other package of its slot is
/// marked unavailable, and its own row becomes `rec` with the flag set.
pub open spec fn after_mark_available(s: Seq<RpmModel>, rec: RpmModel) -> Seq<RpmModel> {
    Seq::new(
        s.len(),
        |k: int|
            if s[k].id == rec.id {
                rec.with_available(true)
            } else if s[k].same_slot(rec) {
                s[k].with_available(false)
            } else {
                s[k]
            },
    )
}

/// The packages of tag `tag` that are available, in table order.
pub open spec fn available_in(s: Seq<RpmModel>, tag: Seq<char>) -> Seq<RpmModel> {
    s.filter(|r: RpmModel| r.tag == tag && r.available)
}

/// The in-memory database of the repository manager.
pub struct Db {
    rpms: Vec<Rpm>,
    tags: Table<Tag>,
    composes: Table<TagCompose>,
    keys: Table<GpgKey>,
}

impl Db {
    /// The package table.
    pub closed spec fn packages(&self) -> Seq<RpmModel> {
        rpms_view(self.rpms@)
    }

    /// The tag table.
    pub closed spec fn tags(&self) -> Seq<TagModel> {
        self.tags.rows()
    }

    /// The compose log.
    pub closed spec fn composes(&self) -> Seq<ComposeModel> {
        self.composes.rows()
    }

    /// The keyring.
    pub closed spec fn keys(&self) -> Seq<GpgKeyModel> {
        self.keys.rows()
    }

    /// The invariants of every table.
    pub open spec fn wf(&self) -> bool {
        &&& packages_wf(self.packages())
        &&& unique_keys::<Tag>(self.tags())
        &&& unique_keys::<TagCompose>(self.composes())
        &&& unique_keys::<GpgKey>(self.keys())
    }

    /// An empty database.
    pub fn new() -> (r: Db)
        ensures
            r.wf(),
            r.packages() == Seq::<RpmModel>::empty(),
            r.tags() == Seq::<TagModel>::empty(),
            r.composes() == Seq::<ComposeModel>::empty(),
            r.keys() == Seq::<GpgKeyModel>::empty(),
    {
        let r = Db { rpms: Vec::new(), tags: Table::new(), composes: Table::new(), keys: Table::new() };
        proof {
            assert(r.packages() =~= Seq::<RpmModel>::empty());
        }
        r
    }

    /// The tag with id `id`.
    pub fn get_tag(&self, id: &str) -> (r: Option<Tag>)
        ensures
            r is Some <==> has_key::<Tag>(self.tags(), id@),
            r matches Some(t) ==> t@.id == id@ && self.tags().contains(t@),
    {
        self.tags.get(id)
    }

    /// Every tag.
    pub fn all_tags(&self) -> (r: Vec<Tag>)
        ensures
            r@.map_values(|t: Tag| t@) == self.tags(),
    {
        self.tags.all()
    }

    /// Creates `t`, or replaces the tag with its id.
    pub fn upsert_tag(&mut self, t: Tag)
        requires
            old(self).wf(),
        ensures
            final(self).wf(),
            upserted::<Tag>(old(self).tags(), t@, final(self).tags()),
            final(self).packages() == old(self).packages(),
            final(self).composes() == old(self).composes(),
            final(self).keys() == old(self).keys(),
    {
        self.tags.upsert(t);
    }

    /// Removes the tag with id `id`, returning it.
    pub fn remove_tag(&mut self, id: &str) -> (r: Option<Tag>)
        requires
            old(self).wf(),
        ensures
            final(self).wf(),
            r is Some <==> has_key::<Tag>(old(self).tags(), id@),
            !has_key::<Tag>(final(self).tags(), id@),
            r is None ==> final(self).tags() == old(self).tags(),
            final(self).packages() == old(self).packages(),
            final(self).composes() == old(self).composes(),
            final(self).keys() == old(self).keys(),
    {
        self.tags.remove(id)
    }

    /// Appends `c` to the compose log. Fails with `Conflict` when its id is logged.
    pub fn insert_compose(&mut self, c: TagCompose) -> (r: Result<(), RepoError>)
        requires
            old(self).wf(),
        ensures
            final(self).wf(),
            r is Ok <==> !has_key::<TagCompose>(old(self).composes(), c@.id),
            r is Ok ==> final(self).composes() == old(self).composes().push(c@),
            r is Err ==> r == Err::<(), RepoError>(RepoError::Conflict) && final(self).composes()
                == old(self).composes(),
            final(self).packages() == old(self).packages(),
            final(self).tags() == old(self).tags(),
            final(self).keys() == old(self).keys(),
    {
        match self.composes.insert(c) {
            Ok(()) => Ok(()),
            Err(()) => Err(RepoError::Conflict),
        }
    }

    /// Every logged compose, oldest first.
    pub fn all_composes(&self) -> (r: Vec<TagCompose>)
        ensures
            r@.map_values(|c: TagCompose| c@) == self.composes(),
    {
        self.composes.all()
    }

    /// The key with id `id`.
    pub fn get_key(&self, id: &str) -> (r: Option<GpgKey>)
        ensures
            r is Some <==> has_key::<GpgKey>(self.keys(), id@),
            r matches Some(k) ==> k@.id == id@ && self.keys().contains(k@),
    {
        self.keys.get(id)
    }

    /// Every key.
    pub fn all_keys(&self) -> (r: Vec<GpgKey>)
        ensures
            r@.map_values(|k: GpgKey| k@) == self.keys(),
    {
        self.keys.all()
    }

    /// Stores `k`, replacing the key with its id.
    pub fn upsert_key(&mut self, k: GpgKey)
        requires
            old(self).wf(),
        ensures
            final(self).wf(),
            upserted::<GpgKey>(old(self).keys(), k@, final(self).keys()),
            final(self).packages() == old(self).packages(),
            final(self).tags() == old(self).tags(),
            final(self).composes() == old(self).composes(),
    {
        self.keys.upsert(k);
    }

    /// Removes the key with id `id`, returning it.
    pub fn remove_key(&mut self, id: &str) -> (r: Option<GpgKey>)
        requires
            old(self).wf(),
        ensures
            final(self).wf(),
            r is Some <==> has_key::<GpgKey>(old(self).keys(), id@),
            !has_key::<GpgKey>(final(self).keys(), id@),
            final(self).packages() == old(self).packages(),
            final(self).tags() == old(self).tags(),
            final(self).composes() == old(self).composes(),
    {
        self.keys.remove(id)
    }

    /// The index of the package with id `id`.
    fn find_rpm(&self, id: &String) -> (r: Option<usize>)
        requires
            unique_ids(self.packages()),
        ensures
            r is Some <==> has_id(self.packages(), id@),
            r matches Some(k) ==> k < self.packages().len() && self.packages()[k as int].id == id@,
    {
        let mut i: usize = 0;
        while i < self.rpms.len()
            invariant
                i <= self.rpms@.len(),
                self.packages().len() == self.rpms@.len(),
                forall|k: int| 0 <= k < i ==> self.packages()[k].id != id@,
            decreases self.rpms@.len() - i,
        {
            if self.rpms[i].id == *id {
                proof {
                    assert(self.packages()[i as int].id == id@);
                }
                return Some(i);
            }
            i = i + 1;
        }
        None
    }

    /// A copy of the package with id `id`.
    pub fn get_rpm(&self, id: &str) -> (r: Option<Rpm>)
        requires
            self.wf(),
        ensures
            r is Some <==> has_id(self.packages(), id@),
            r matches Some(p) ==> p@.id == id@ && self.packages().contains(p@),
    {
        let key = String::from_str(id);
        match self.find_rpm(&key) {
            Some(k) => {
                let p = self.rpms[k].duplicate();
                proof {
                    assert(self.packages()[k as int] == p@);
                }
                Some(p)
            },
            None => None,
        }
    }

    /// Copies of every package, in table order.
    pub fn all_rpms(&self) -> (r: Vec<Rpm>)
        ensures
            rpms_view(r@) == self.packages(),
    {
        let mut r: Vec<Rpm> = Vec::new();
        let mut i: usize = 0;
        while i < self.rpms.len()
            invariant
                i <= self.rpms@.len(),
                r@.len() == i,
                self.packages().len() == self.rpms@.len(),
                forall|k: int| 0 <= k < i ==> (#[trigger] r@[k])@ == self.packages()[k],
            decreases self.rpms@.len() - i,
        {
            r.push(self.rpms[i].duplicate());
            i = i + 1;
        }
        proof {
            assert(rpms_view(r@) =~= self.packages());
        }
        r
    }

    /// Copies of the available packages of tag `tag`, in table order.
    pub fn available_rpms(&self, tag: &str) -> (r: Vec<Rpm>)
        ensures
            rpms_view(r@) == available_in(self.packages(), tag@),
    {
        let mut r: Vec<Rpm> = Vec::new();
        let mut i: usize = 0;
        let key = String::from_str(tag);
        while i < self.rpms.len()
            invariant
                i <= self.rpms@.len(),
                key@ == tag@,
                self.packages().len() == self.rpms@.len(),
                rpms_view(r@) == available_in(self.packages().subrange(0, i as int), tag@),
            decreases self.rpms@.len() - i,
        {
            if self.rpms[i].tag == key && self.rpms[i].available {
                r.push(self.rpms[i].duplicate());
            }
            proof {
                let s = self.packages();
                assert(s.subrange(0, i + 1) =~= s.subrange(0, i as int).push(s[i as int]));
                s.subrange(0, i as int).lemma_filter_push(
                    s[i as int],
                    |r: RpmModel| r.tag == tag@ && r.available,
                );
                assert(rpms_view(r@) =~= available_in(s.subrange(0, i + 1), tag@));
            }
            i = i + 1;
        }
        proof {
            assert(self.packages().subrange(0, self.rpms@.len() as int) =~= self.packages());
        }
        r
    }

    /// Marks `rec` available: in one step, every package of its (tag, name,
    /// architecture) slot is marked unavailable, and its row becomes `rec` with the
    /// flag set. Fails with `NotFound` when no package has `rec`'s id.
    pub fn mark_available(&mut self, rec: &Rpm) -> (r: Result<Rpm, RepoError>)
        requires
            old(self).wf(),
            rec@.wf(),
        ensures
            final(self).tags() == old(self).tags(),
            final(self).composes() == old(self).composes(),
            final(self).keys() == old(self).keys(),
            final(self).wf(),
            r is Ok <==> has_id(old(self).packages(), rec@.id),
            r matches Ok(p) ==> p@ == rec@.with_available(true) && final(self).packages()
                == after_mark_available(old(self).packages(), rec@),
            r is Err ==> r == Err::<Rpm, RepoError>(RepoError::NotFound) && final(self).packages()
                == old(self).packages(),
    {
        let ghost s = old(self).packages();
        let target = match self.find_rpm(&rec.id) {
            Some(k) => k,
            None => {
                return Err(RepoError::NotFound);
            },
        };
        let mut i: usize = 0;
        while i < self.rpms.len()
            invariant
                i <= self.rpms@.len(),
                self.rpms@.len() == s.len(),
                target < s.len(),
                s[target as int].id == rec@.id,
                self.tags() == old(self).tags(),
                self.composes() == old(self).composes(),
                self.keys() == old(self).keys(),
                forall|k: int|
                    0 <= k < i ==> #[trigger] self.packages()[k] == after_mark_available(s, rec@)[k],
                forall|k: int| i <= k < s.len() ==> #[trigger] self.packages()[k] == s[k],
            decreases self.rpms@.len() - i,
        {
            let ghost pre = self.packages();
            if self.rpms[i].id == rec.id {
                let v = rec.with_available(true);
                let ghost vv = v@;
                self.rpms.set(i, v);
                proof {
                    assert(self.packages() =~= pre.update(i as int, vv));
                }
            } else if self.rpms[i].name == rec.name && self.rpms[i].arch == rec.arch
                && self.rpms[i].tag == rec.tag {
                let v = self.rpms[i].with_available(false);
                let ghost vv = v@;
                self.rpms.set(i, v);
                proof {
                    assert(self.packages() =~= pre.update(i as int, vv));
                }
            }
            proof {
                assert(pre[i as int] == s[i as int]);
                assert(self.packages()[i as int] == after_mark_available(s, rec@)[i as int]);
            }
            i = i + 1;
        }
        proof {
            let t = after_mark_available(s, rec@);
            assert(self.packages() =~= t);
            lemma_mark_available_keeps_wf(s, rec@);
        }
        Ok(rec.with_available(true))
    }

    /// Sets the signed-variant key of the package with id `id` to `key`, and returns
    /// the updated row. Fails with `NotFound` when no package has that id.
    pub fn set_signed_key(&mut self, id: &String, key: String) -> (r: Result<Rpm, RepoError>)
        requires
            old(self).wf(),
        ensures
            final(self).wf(),
            final(self).tags() == old(self).tags(),
            final(self).composes() == old(self).composes(),
            final(self).keys() == old(self).keys(),
            r is Ok <==> has_id(old(self).packages(), id@),
            r matches Ok(p) ==> exists|k: int|
                0 <= k < old(self).packages().len() && #[trigger] old(self).packages()[k].id == id@
                    && p@ == (RpmModel {
                    signed_object_key: Some(key@),
                    ..old(self).packages()[k]
                }) && final(self).packages() == old(self).packages().update(k, p@),
            r is Err ==> r == Err::<Rpm, RepoError>(RepoError::NotFound) && final(self).packages()
                == old(self).packages(),
    {
        let ghost s = old(self).packages();
        match self.find_rpm(id) {
            Some(k) => {
                let mut v = self.rpms[k].duplicate();
                v.signed_object_key = Some(key);
                let out = v.duplicate();
                self.rpms.set(k, v);
                proof {
                    assert(self.packages() =~= s.update(k as int, out@));
                    assert forall|i: int, j: int|
                        0 <= i < self.packages().len() && 0 <= j < self.packages().len() && i
                            != j implies self.packages()[i].id != self.packages()[j].id by {
                        assert(s[i].id != s[j].id);
                    }
                    assert forall|i: int, j: int|
                        0 <= i < self.packages().len() && 0 <= j < self.packages().len() && i
                            != j && #[trigger] self.packages()[i].available
                            && #[trigger] self.packages()[j].available implies !self.packages()[i].same_slot(
                        self.packages()[j],
                    ) by {
                        assert(s[i].available && s[j].available);
                    }
                    assert(s[k as int].wf());
                }
                Ok(out)
            },
            None => Err(RepoError::NotFound),
        }
    }

    /// Marks the package with `rec`'s id unavailable, and returns its updated row.
    /// Fails with `NotFound` when no package has that id.
    pub fn mark_unavailable(&mut self, rec: &Rpm) -> (r: Result<Rpm, RepoError>)
        requires
            old(self).wf(),
        ensures
            final(self).tags() == old(self).tags(),
            final(self).composes() == old(self).composes(),
            final(self).keys() == old(self).keys(),
            final(self).wf(),
            r is Ok <==> has_id(old(self).packages(), rec@.id),
            r matches Ok(p) ==> exists|k: int|
                0 <= k < old(self).packages().len() && #[trigger] old(self).packages()[k].id
                    == rec@.id && p@ == old(self).packages()[k].with_available(false)
                    && final(self).packages() == old(self).packages().update(k, p@),
            r is Err ==> r == Err::<Rpm, RepoError>(RepoError::NotFound) && final(self).packages()
                == old(self).packages(),
    {
        let ghost s = old(self).packages();
        match self.find_rpm(&rec.id) {
            Some(k) => {
                let v = self.rpms[k].with_available(false);
                let out = v.duplicate();
                self.rpms.set(k, v);
                proof {
                    assert(self.packages() =~= s.update(k as int, out@));
                    assert forall|i: int, j: int|
                        0 <= i < self.packages().len() && 0 <= j < self.packages().len() && i
                            != j && #[trigger] self.packages()[i].available
                            && #[trigger] self.packages()[j].available implies !self.packages()[i].same_slot(
                        self.packages()[j],
                    ) by {
                        assert(s[i].available && s[j].available);
                    }
                }
                Ok(out)
            },
            None => Err(RepoError::NotFound),
        }
    }

    /// Inserts `rec` as an unavailable package, then, when `latest` holds, marks it
    /// available. Fails with `Conflict` when a package with its id exists.
    pub fn insert_rpm(&mut self, rec: &Rpm, latest: bool) -> (r: Result<(), RepoError>)
        requires
            old(self).wf(),
            rec@.wf(),
        ensures
            final(self).tags() == old(self).tags(),
            final(self).composes() == old(self).composes(),
            final(self).keys() == old(self).keys(),
            final(self).wf(),
            r is Ok <==> !has_id(old(self).packages(), rec@.id),
            r is Ok ==> final(self).packages() == (if latest {
                after_mark_available(old(self).packages().push(rec@.with_available(false)), rec@)
            } else {
                old(self).packages().push(rec@.with_available(false))
            }),
            r is Err ==> r == Err::<(), RepoError>(RepoError::Conflict) && final(self).packages()
                == old(self).packages(),
    {
        let ghost s = old(self).packages();
        if self.find_rpm(&rec.id).is_some() {
            return Err(RepoError::Conflict);
        }
        let row = rec.with_available(false);
        self.rpms.push(row);
        proof {
            assert(self.packages() =~= s.push(rec@.with_available(false)));
            assert(unique_ids(self.packages()));
        }
        if latest {
            proof {
                let n = s.len() as int;
                assert(self.packages()[n].id == rec@.id);
            }
            let _marked = self.mark_available(rec);
        }
        Ok(())
    }

    /// Removes the package with id `id`, returning its row.
    pub fn remove_rpm(&mut self, id: &str) -> (r: Option<Rpm>)
        requires
            old(self).wf(),
        ensures
            final(self).tags() == old(self).tags(),
            final(self).composes() == old(self).composes(),
            final(self).keys() == old(self).keys(),
            final(self).wf(),
            r is Some <==> has_id(old(self).packages(), id@),
            r matches Some(p) ==> exists|k: int|
                0 <= k < old(self).packages().len() && #[trigger] old(self).packages()[k] == p@
                    && p@.id == id@ && final(self).packages() == old(self).packages().remove(k),
            r is None ==> final(self).packages() == old(self).packages(),
            forall|k: int|
                0 <= k < final(self).packages().len() ==> (#[trigger] final(self).packages()[k]).id
                    != id@,
    {
        let ghost s = old(self).packages();
        let key = String::from_str(id);
        match self.find_rpm(&key) {
            Some(k) => {
                let p = self.rpms.remove(k);
                proof {
                    assert(self.packages() =~= s.remove(k as int));
                    assert forall|i: int, j: int|
                        0 <= i < self.packages().len() && 0 <= j < self.packages().len() && i
                            != j implies self.packages()[i].id != self.packages()[j].id by {
                        let ii = if i < k { i } else { i + 1 };
                        let jj = if j < k { j } else { j + 1 };
                        assert(s[ii].id != s[jj].id);
                    }
                    assert forall|i: int, j: int|
                        0 <= i < self.packages().len() && 0 <= j < self.packages().len() && i
                            != j && #[trigger] self.packages()[i].available
                            && #[trigger] self.packages()[j].available implies !self.packages()[i].same_slot(
                        self.packages()[j],
                    ) by {
                        let ii = if i < k { i } else { i + 1 };
                        let jj = if j < k { j } else { j + 1 };
                        assert(s[ii].available && s[jj].available);
                    }
                    assert forall|i: int| 0 <= i < self.packages().len() implies (
                    #[trigger] self.packages()[i]).id != id@ by {
                        let ii = if i < k { i } else { i + 1 };
                        assert(ii != k);
                        assert(s[ii].id != s[k as int].id);
                    }
                }
                Some(p)
            },
            None => Option::None,
        }
    }
}

/// For any (tag, name, architecture), at most one package is available: the
/// invariant that every transition of the database keeps (marking available or
/// unavailable, committing with or without `latest`, deleting).
pub proof fn lemma_one_available_per_slot(db: &Db, i: int, j: int)
    requires
        db.wf(),
        0 <= i < db.packages().len(),
        0 <= j < db.packages().len(),
        db.packages()[i].available,
        db.packages()[j].available,
        db.packages()[i].same_slot(db.packages()[j]),
    ensures
        i == j,
{
}

/// Marking a well-formed record available keeps the package table's invariant.
proof fn lemma_mark_available_keeps_wf(s: Seq<RpmModel>, rec: RpmModel)
    requires
        packages_wf(s),
        rec.wf(),
        has_id(s, rec.id),
    ensures
        packages_wf(after_mark_available(s, rec)),
{
    let t = after_mark_available(s, rec);
    assert forall|i: int, j: int|
        0 <= i < t.len() && 0 <= j < t.len() && i != j implies t[i].id != t[j].id by {
        assert(s[i].id != s[j].id);
    }
    assert forall|i: int, j: int|
        0 <= i < t.len() && 0 <= j < t.len() && i != j && #[trigger] t[i].available
            && #[trigger] t[j].available implies !t[i].same_slot(t[j]) by {
        assert(s[i].id != s[j].id);
        if s[i].id != rec.id && s[j].id != rec.id {
            assert(s[i].available && s[j].available);
        }
    }
    assert forall|i: int| 0 <= i < t.len() implies (#[trigger] t[i]).wf() by {
        assert(s[i].wf());
    }
}

} // verus!
