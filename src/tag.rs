//! Tags (named repositories), the compose log, and the plan of an assembly.
use vstd::prelude::*;

use crate::cache::{join, join_path};
use crate::config::{export_path, Config};
use crate::db::{available_in, rpms_view, unique_ids, Db};
use crate::deps::copy_opt;
use crate::errors::RepoError;
use crate::ids::{fresh_ulid, is_ulid, ULID_LEN};
use crate::keys::{file_name, last_component};
use crate::opt_view;
use crate::package::{ref_of, Rpm, RpmModel, RpmRef, RpmRefModel};
use crate::table::Record;

verus! {

broadcast use vstd::seq_lib::group_seq_properties;

/// The abstract value of a tag.
pub struct TagModel {
    pub id: Seq<char>,
    pub name: Seq<char>,
    pub comps_xml: Option<Seq<char>>,
    pub signing_key: Option<Seq<char>>,
}

/// A named repository that groups packages for assembly.
#[derive(Clone, Debug, PartialEq, Eq)]
pub struct Tag {
    /// Primary key; the same as the name.
    pub id: String,
    pub name: String,
    /// Optional yum comps document.
    pub comps_xml: Option<String>,
    /// Id of the keyring entry that signs this tag's packages.
    pub signing_key: Option<String>,
}

impl View for Tag {
    type V = TagModel;

    open spec fn view(&self) -> TagModel {
        TagModel {
            id: self.id@,
            name: self.name@,
            comps_xml: opt_view(self.comps_xml),
            signing_key: opt_view(self.signing_key),
        }
    }
}

impl Record for Tag {
    open spec fn key_of(v: TagModel) -> Seq<char> {
        v.id
    }

    fn key(&self) -> (r: &String) {
        &self.id
    }

    fn duplicate(&self) -> (r: Tag) {
        Tag {
            id: self.id.clone(),
            name: self.name.clone(),
            comps_xml: copy_opt(&self.comps_xml),
            signing_key: copy_opt(&self.signing_key),
        }
    }
}

/// The abstract value of a compose record.
pub struct ComposeModel {
    pub id: Seq<char>,
    pub tag: Seq<char>,
    pub packages: Seq<RpmRefModel>,
}

/// The views of a sequence of package references.
pub open spec fn refs_view(v: Seq<RpmRef>) -> Seq<RpmRefModel> {
    v.map_values(|r: RpmRef| r@)
}

/// The record of one assembly: the packages captured when it started.
#[derive(Clone, Debug)]
pub struct TagCompose {
    pub id: String,
    pub tag: String,
    pub packages: Vec<RpmRef>,
}

impl View for TagCompose {
    type V = ComposeModel;

    open spec fn view(&self) -> ComposeModel {
        ComposeModel { id: self.id@, tag: self.tag@, packages: refs_view(self.packages@) }
    }
}

/// A copy of a list of package references.
fn copy_refs(v: &Vec<RpmRef>) -> (r: Vec<RpmRef>)
    ensures
        refs_view(r@) == refs_view(v@),
{
    let mut r: Vec<RpmRef> = Vec::new();
    let mut i: usize = 0;
    while i < v.len()
        invariant
            i <= v@.len(),
            r@.len() == i,
            forall|k: int| 0 <= k < i ==> (#[trigger] r@[k])@ == v@[k]@,
        decreases v@.len() - i,
    {
        let x = RpmRef {
            id: v[i].id.clone(),
            name: v[i].name.clone(),
            object_key: v[i].object_key.clone(),
            signed_object_key: copy_opt(&v[i].signed_object_key),
            tag: copy_opt(&v[i].tag),
        };
        r.push(x);
        i = i + 1;
    }
    proof {
        assert(refs_view(r@) =~= refs_view(v@));
    }
    r
}

impl Record for TagCompose {
    open spec fn key_of(v: ComposeModel) -> Seq<char> {
        v.id
    }

    fn key(&self) -> (r: &String) {
        &self.id
    }

    fn duplicate(&self) -> (r: TagCompose) {
        TagCompose {
            id: self.id.clone(),
            tag: self.tag.clone(),
            packages: copy_refs(&self.packages),
        }
    }
}

impl TagCompose {
    /// A compose of `tag` over `packages`, with a fresh ULID.
    pub fn new(tag: &str, packages: Vec<RpmRef>) -> (r: TagCompose)
        ensures
            is_ulid(r.id@),
            r.tag@ == tag@,
            refs_view(r.packages@) == refs_view(packages@),
    {
        TagCompose { id: fresh_ulid(), tag: String::from_str(tag), packages }
    }

    /// Appends this compose to the log. Fails with `Conflict` when a compose with
    /// its id is already logged.
    pub fn save(&self, db: &mut Db) -> (r: Result<TagCompose, RepoError>)
        requires
            old(db).wf(),
        ensures
            final(db).wf(),
            final(db).packages() == old(db).packages(),
            final(db).tags() == old(db).tags(),
            final(db).keys() == old(db).keys(),
            r is Ok <==> !crate::table::has_key::<TagCompose>(old(db).composes(), self@.id),
            r matches Ok(c) ==> c@ == self@ && final(db).composes() == old(db).composes().push(
                self@,
            ),
            r is Err ==> r == Err::<TagCompose, RepoError>(RepoError::Conflict)
                && final(db).composes() == old(db).composes(),
    {
        let out = Record::duplicate(self);
        match db.insert_compose(Record::duplicate(self)) {
            Ok(()) => Ok(out),
            Err(e) => Err(e),
        }
    }
}

/// No logged compose has an id in the shape of a ULID.
pub open spec fn no_ulid_composes(s: Seq<ComposeModel>) -> bool {
    forall|k: int| 0 <= k < s.len() ==> !is_ulid(#[trigger] s[k].id)
}

/// `<tag>/<tag>_<compose id>`: the staging directory of an assembly, relative to
/// the repository cache.
pub open spec fn staging_name(tag: Seq<char>, id: Seq<char>) -> Seq<char> {
    tag + seq!['/'] + tag + seq!['_'] + id
}

/// `<package id>-<file name of its object key>`: the name of a package's link in
/// the staging directory.
pub open spec fn link_name_of(p: RpmModel) -> Seq<char> {
    p.id + seq!['-'] + last_component(p.object_key)
}

/// One link of an assembly: `staging_dir/link_name` points at the cached object of
/// `object_key`.
#[derive(Clone, Debug)]
pub struct Link {
    pub object_key: String,
    pub link_name: String,
}

/// What an assembly materializes.
#[derive(Clone, Debug)]
pub struct AssemblyPlan {
    /// The compose logged for this assembly.
    pub compose: TagCompose,
    /// The staging directory to populate.
    pub staging_dir: String,
    /// One link per package, in the order of the snapshot.
    pub links: Vec<Link>,
    /// The export path that will point at the staging directory.
    pub export_dir: String,
}

/// The plan `plan` materializes the packages `pkgs` of tag `tag` under `config`.
pub open spec fn plan_matches(plan: AssemblyPlan, tag: Seq<char>, pkgs: Seq<RpmModel>, config: Config) -> bool {
    &&& plan.compose@.tag == tag
    &&& plan.compose@.packages == pkgs.map_values(|p: RpmModel| ref_of(p))
    &&& plan.staging_dir@ == join_path(config.repo_cache_dir@, staging_name(tag, plan.compose@.id))
    &&& plan.export_dir@ == join_path(config.export_dir@, tag)
    &&& plan.links@.len() == pkgs.len()
    &&& forall|i: int|
        0 <= i < pkgs.len() ==> (#[trigger] plan.links@[i]).object_key@ == pkgs[i].object_key
            && plan.links@[i].link_name@ == link_name_of(pkgs[i])
}

/// The link of package `p`.
fn link_of(p: &Rpm) -> (r: Link)
    ensures
        r.object_key@ == p@.object_key,
        r.link_name@ == link_name_of(p@),
{
    let base = file_name(p.object_key.as_str());
    let mut name = p.id.clone();
    name.append("-");
    name.append(base.as_str());
    proof {
        reveal_strlit("-");
        assert(name@ =~= link_name_of(p@));
    }
    Link { object_key: p.object_key.clone(), link_name: name }
}

impl Tag {
    /// A tag named `name`, with no comps document and no signing key.
    pub fn new(name: String) -> (r: Tag)
        ensures
            r@ == (TagModel { id: name@, name: name@, comps_xml: None, signing_key: None }),
    {
        Tag { id: name.clone(), name, comps_xml: None, signing_key: None }
    }

    /// Makes `key` the tag's signing key.
    pub fn set_gpg_key(&mut self, key: &str)
        ensures
            final(self)@ == (TagModel { signing_key: Some(key@), ..old(self)@ }),
    {
        self.signing_key = Some(String::from_str(key));
    }

    /// The tag with id `id`.
    pub fn get(db: &Db, id: &str) -> (r: Option<Tag>)
        ensures
            r is Some <==> crate::table::has_key::<Tag>(db.tags(), id@),
            r matches Some(t) ==> t@.id == id@ && db.tags().contains(t@),
    {
        db.get_tag(id)
    }

    /// Every tag.
    pub fn get_all(db: &Db) -> (r: Vec<Tag>)
        ensures
            r@.map_values(|t: Tag| t@) == db.tags(),
    {
        db.all_tags()
    }

    /// Creates the tag, or updates the tag with its id.
    pub fn save(&self, db: &mut Db) -> (r: Tag)
        requires
            old(db).wf(),
        ensures
            final(db).wf(),
            r@ == self@,
            crate::table::upserted::<Tag>(old(db).tags(), self@, final(db).tags()),
            final(db).packages() == old(db).packages(),
            final(db).composes() == old(db).composes(),
            final(db).keys() == old(db).keys(),
    {
        db.upsert_tag(Record::duplicate(self));
        Record::duplicate(self)
    }

    /// Deletes the tag. Its packages are kept.
    pub fn delete(&self, db: &mut Db)
        requires
            old(db).wf(),
        ensures
            final(db).wf(),
            !crate::table::has_key::<Tag>(final(db).tags(), self@.id),
            final(db).packages() == old(db).packages(),
    {
        db.remove_tag(self.id.as_str());
    }

    /// The available packages of this tag, in table order.
    pub fn get_available_rpms(&self, db: &Db) -> (r: Vec<Rpm>)
        ensures
            rpms_view(r@) == available_in(db.packages(), self@.name),
    {
        db.available_rpms(self.name.as_str())
    }

    /// The path under the export root that serves this tag.
    pub fn export_dir(&self, config: &Config) -> (r: String)
        ensures
            r@ == join_path(config.export_dir@, self@.name),
    {
        export_path(config, self.name.as_str())
    }

    /// Plans an assembly: snapshots the tag's available packages, logs one compose
    /// over them, and names the staging directory, the link of each package and
    /// the export path. Fails with `Conflict`, and changes nothing, when the fresh
    /// compose id is already logged.
    pub fn assemble(&self, db: &mut Db, config: &Config) -> (r: Result<AssemblyPlan, RepoError>)
        requires
            old(db).wf(),
        ensures
            final(db).wf(),
            final(db).packages() == old(db).packages(),
            final(db).tags() == old(db).tags(),
            no_ulid_composes(old(db).composes()) ==> r is Ok,
            r matches Ok(plan) ==> is_ulid(plan.compose@.id) && plan_matches(
                plan,
                self@.name,
                available_in(old(db).packages(), self@.name),
                *config,
            ) && final(db).composes() == old(db).composes().push(plan.compose@),
            r is Err ==> r == Err::<AssemblyPlan, RepoError>(RepoError::Conflict)
                && final(db).composes() == old(db).composes(),
    {
        let id = fresh_ulid();
        proof {
            if no_ulid_composes(old(db).composes()) {
                assert(!crate::table::has_key::<TagCompose>(old(db).composes(), id@));
            }
        }
        self.plan_assembly(db, config, id)
    }

    /// Plans an assembly whose compose has the id `compose_id`: snapshots the tag's
    /// available packages, logs one compose over them, and names the staging
    /// directory, the link of each package and the export path. Fails with
    /// `Conflict`, and changes nothing, exactly when a compose with that id is logged.
    pub fn plan_assembly(&self, db: &mut Db, config: &Config, compose_id: String) -> (r: Result<AssemblyPlan, RepoError>)
        requires
            old(db).wf(),
        ensures
            final(db).wf(),
            final(db).packages() == old(db).packages(),
            final(db).tags() == old(db).tags(),
            r is Ok <==> !crate::table::has_key::<TagCompose>(old(db).composes(), compose_id@),
            r matches Ok(plan) ==> plan.compose@.id == compose_id@ && plan_matches(
                plan,
                self@.name,
                available_in(old(db).packages(), self@.name),
                *config,
            ) && final(db).composes() == old(db).composes().push(plan.compose@),
            r is Err ==> r == Err::<AssemblyPlan, RepoError>(RepoError::Conflict)
                && final(db).composes() == old(db).composes(),
    {
        let pkgs = self.get_available_rpms(db);
        let ghost snap = rpms_view(pkgs@);
        let mut refs: Vec<RpmRef> = Vec::new();
        let mut links: Vec<Link> = Vec::new();
        let mut i: usize = 0;
        while i < pkgs.len()
            invariant
                i <= pkgs@.len(),
                snap == rpms_view(pkgs@),
                refs@.len() == i,
                links@.len() == i,
                forall|k: int| 0 <= k < i ==> (#[trigger] refs@[k])@ == ref_of(snap[k]),
                forall|k: int|
                    0 <= k < i ==> (#[trigger] links@[k]).object_key@ == snap[k].object_key
                        && links@[k].link_name@ == link_name_of(snap[k]),
            decreases pkgs@.len() - i,
        {
            refs.push(RpmRef::from(&pkgs[i]));
            links.push(link_of(&pkgs[i]));
            i = i + 1;
        }
        proof {
            assert(refs_view(refs@) =~= snap.map_values(|p: RpmModel| ref_of(p)));
        }
        let compose = TagCompose { id: compose_id, tag: self.name.clone(), packages: refs };
        let compose = compose.save(db)?;
        let mut rel = self.name.clone();
        rel.append("/");
        rel.append(self.name.as_str());
        rel.append("_");
        rel.append(compose.id.as_str());
        proof {
            reveal_strlit("/");
            reveal_strlit("_");
            assert(rel@ =~= staging_name(self@.name, compose@.id));
        }
        let staging_dir = join(config.repo_cache_dir.as_str(), rel.as_str());
        Ok(AssemblyPlan { compose, staging_dir, links, export_dir: self.export_dir(config) })
    }
}

/// Keeping the rows that satisfy `pred` keeps the ids unique.
pub proof fn lemma_filter_unique_ids(s: Seq<RpmModel>, pred: spec_fn(RpmModel) -> bool)
    requires
        unique_ids(s),
    ensures
        unique_ids(s.filter(pred)),
    decreases s.len(),
{
    reveal(Seq::filter);
    if s.len() > 0 {
        let d = s.drop_last();
        assert(unique_ids(d));
        lemma_filter_unique_ids(d, pred);
        let f = d.filter(pred);
        if pred(s.last()) {
            assert forall|i: int, j: int|
                0 <= i < f.push(s.last()).len() && 0 <= j < f.push(s.last()).len() && i
                    != j implies f.push(s.last())[i].id != f.push(s.last())[j].id by {
                if i == f.len() as int && j < f.len() {
                    assert(f.contains(f[j]));
                    d.lemma_filter_contains_rev(pred, f[j]);
                    let k = choose|k: int| 0 <= k < d.len() && d[k] == f[j];
                    assert(s[k] == d[k]);
                } else if j == f.len() as int && i < f.len() {
                    assert(f.contains(f[i]));
                    d.lemma_filter_contains_rev(pred, f[i]);
                    let k = choose|k: int| 0 <= k < d.len() && d[k] == f[i];
                    assert(s[k] == d[k]);
                }
            }
        }
    }
}

/// Each package of an assembly gets its own link: in a well-formed table, the
/// link names of a tag's available packages are pairwise distinct.
pub proof fn lemma_link_names_distinct(s: Seq<RpmModel>, tag: Seq<char>)
    requires
        crate::db::packages_wf(s),
    ensures
        forall|i: int, j: int|
            0 <= i < available_in(s, tag).len() && 0 <= j < available_in(s, tag).len() && i != j
                ==> link_name_of(available_in(s, tag)[i]) != link_name_of(
                available_in(s, tag)[j],
            ),
{
    let pred = |r: RpmModel| r.tag == tag && r.available;
    lemma_filter_unique_ids(s, pred);
    let f = available_in(s, tag);
    assert forall|i: int, j: int|
        0 <= i < f.len() && 0 <= j < f.len() && i != j implies link_name_of(f[i]) != link_name_of(
        f[j],
    ) by {
        assert(f.contains(f[i]));
        assert(f.contains(f[j]));
        s.lemma_filter_contains_rev(pred, f[i]);
        s.lemma_filter_contains_rev(pred, f[j]);
        let a = choose|k: int| 0 <= k < s.len() && s[k] == f[i];
        let b = choose|k: int| 0 <= k < s.len() && s[k] == f[j];
        assert(s[a].wf() && s[b].wf());
        assert(f[i].id.len() == ULID_LEN && f[j].id.len() == ULID_LEN);
        if link_name_of(f[i]) == link_name_of(f[j]) {
            assert(link_name_of(f[i]).subrange(0, ULID_LEN as int) =~= f[i].id);
            assert(link_name_of(f[j]).subrange(0, ULID_LEN as int) =~= f[j].id);
        }
    }
}

} // verus!
