//! The operations behind each HTTP endpoint, over the database. The HTTP layer
//! decodes requests, calls these, and maps a [`RepoError`] to its status code.
use vstd::prelude::*;

use crate::cache::{is_single_component, join_path, lemma_single_component_inside, single_component};
use crate::config::Config;
use crate::db::{available_in, has_id, rpms_view, Db};
use crate::errors::{RepoError, TagError};
use crate::keyring::{GpgKey, GpgKeyModel, GpgKeyRef};
use crate::package::{read_from, ref_of, Rpm, RpmRef};
use crate::rpmfile::{header_complete, rpm_layout_in_bounds, rpm_reads, RpmHeader};
use crate::table::{has_key, upserted, Record};
use crate::tag::{no_ulid_composes, plan_matches, refs_view, AssemblyPlan, Tag, TagModel};

verus! {

/// The kinds of repository a tag can be.
#[derive(Clone, Copy, Debug, PartialEq, Eq, Structural)]
pub enum RepoType {
    Rpm,
}

/// Body of a tag creation.
#[derive(Clone, Debug)]
pub struct CreateTag {
    pub name: String,
    pub repo_type: RepoType,
}

/// Body of a signing-key attachment.
#[derive(Clone, Debug)]
pub struct SetGpgKey {
    pub key_id: String,
}

/// Body of a key generation.
#[derive(Clone, Debug)]
pub struct CreateGpgKey {
    /// The id of the key in the keyring.
    pub id: String,
    /// The OpenPGP user id, such as `John Doe <john@example.com>`.
    pub user_id: String,
    /// Optional description of the key.
    pub description: Option<String>,
}

/// A validated upload: the package parsed from the uploaded bytes, and where the
/// bytes are staged before they are stored.
pub struct Ingest {
    pub staging_path: String,
    pub data: Vec<u8>,
    pub rpm: Rpm,
}

/// The tag with id `tag_id`; `Tag(NotFound)` when there is none.
pub fn get_tag(db: &Db, tag_id: &str) -> (r: Result<Tag, RepoError>)
    ensures
        r is Ok <==> has_key::<Tag>(db.tags(), tag_id@),
        r matches Ok(t) ==> t@.id == tag_id@ && db.tags().contains(t@),
        r is Err ==> r == Err::<Tag, RepoError>(RepoError::Tag(TagError::NotFound)),
{
    match Tag::get(db, tag_id) {
        Some(t) => Ok(t),
        None => Err(RepoError::Tag(TagError::NotFound)),
    }
}

/// Attaches the key `key.key_id` to the tag `tag_id`; `Tag(NotFound)` when there
/// is no such tag.
pub fn set_gpg_key(db: &mut Db, tag_id: &str, key: &SetGpgKey) -> (r: Result<Tag, RepoError>)
    requires
        old(db).wf(),
    ensures
        final(db).wf(),
        final(db).packages() == old(db).packages(),
        r is Ok <==> has_key::<Tag>(old(db).tags(), tag_id@),
        r matches Ok(t) ==> t@.id == tag_id@ && t@.signing_key == Some(key.key_id@)
            && upserted::<Tag>(old(db).tags(), t@, final(db).tags()),
        r is Err ==> r == Err::<Tag, RepoError>(RepoError::Tag(TagError::NotFound)) && final(db).tags()
            == old(db).tags(),
{
    let mut tag = get_tag(db, tag_id)?;
    tag.set_gpg_key(key.key_id.as_str());
    Ok(tag.save(db))
}

/// References to the available packages of the tag `tag_id`; `NotFound` when
/// there is no such tag.
pub fn get_tag_rpms(db: &Db, tag_id: &str) -> (r: Result<Vec<RpmRef>, RepoError>)
    ensures
        r is Ok <==> has_key::<Tag>(db.tags(), tag_id@),
        r matches Ok(v) ==> exists|t: TagModel|
            #![trigger db.tags().contains(t)]
            db.tags().contains(t) && t.id == tag_id@ && refs_view(v@) == available_in(
                db.packages(),
                t.name,
            ).map_values(|p| ref_of(p)),
        r is Err ==> r == Err::<Vec<RpmRef>, RepoError>(RepoError::NotFound),
{
    let tag = match Tag::get(db, tag_id) {
        Some(t) => t,
        None => {
            return Err(RepoError::NotFound);
        },
    };
    let rpms = tag.get_available_rpms(db);
    let ghost snap = rpms_view(rpms@);
    let mut refs: Vec<RpmRef> = Vec::new();
    let mut i: usize = 0;
    while i < rpms.len()
        invariant
            i <= rpms@.len(),
            snap == rpms_view(rpms@),
            refs@.len() == i,
            forall|k: int| 0 <= k < i ==> (#[trigger] refs@[k])@ == ref_of(snap[k]),
        decreases rpms@.len() - i,
    {
        refs.push(RpmRef::from(&rpms[i]));
        i = i + 1;
    }
    proof {
        assert(refs_view(refs@) =~= snap.map_values(|p| ref_of(p)));
    }
    Ok(refs)
}

/// Every tag.
pub fn get_all_tags(db: &Db) -> (r: Vec<Tag>)
    ensures
        r@.map_values(|t: Tag| t@) == db.tags(),
{
    Tag::get_all(db)
}

/// Creates the tag `tag.name`; `BadRequest` when the name is not a single path
/// component (its export path would leave the export root), `Tag(AlreadyExists)`
/// when a tag of that name exists.
pub fn create_tag(db: &mut Db, tag: &CreateTag) -> (r: Result<Tag, RepoError>)
    requires
        old(db).wf(),
    ensures
        final(db).wf(),
        final(db).packages() == old(db).packages(),
        !single_component(tag.name@) ==> r == Err::<Tag, RepoError>(RepoError::BadRequest)
            && final(db).tags() == old(db).tags(),
        r is Ok <==> single_component(tag.name@) && !has_key::<Tag>(old(db).tags(), tag.name@),
        r matches Ok(t) ==> t@ == (TagModel {
            id: tag.name@,
            name: tag.name@,
            comps_xml: None,
            signing_key: None,
        }) && final(db).tags() == old(db).tags().push(t@),
        single_component(tag.name@) && r is Err ==> r == Err::<Tag, RepoError>(
            RepoError::Tag(TagError::AlreadyExists),
        ) && final(db).tags() == old(db).tags(),
{
    if !is_single_component(tag.name.as_str()) {
        return Err(RepoError::BadRequest);
    }
    if Tag::get(db, tag.name.as_str()).is_some() {
        return Err(RepoError::Tag(TagError::AlreadyExists));
    }
    let t = Tag::new(tag.name.clone());
    Ok(t.save(db))
}

/// Deletes the tag `tag_id`; `NotFound` when there is none. Its packages are kept.
pub fn delete_tag(db: &mut Db, tag_id: &str) -> (r: Result<(), RepoError>)
    requires
        old(db).wf(),
    ensures
        final(db).wf(),
        final(db).packages() == old(db).packages(),
        r is Ok <==> has_key::<Tag>(old(db).tags(), tag_id@),
        !has_key::<Tag>(final(db).tags(), tag_id@),
        r is Err ==> r == Err::<(), RepoError>(RepoError::NotFound) && final(db).tags()
            == old(db).tags(),
{
    let tag = match Tag::get(db, tag_id) {
        Some(t) => t,
        None => {
            return Err(RepoError::NotFound);
        },
    };
    tag.delete(db);
    Ok(())
}

/// Plans the assembly of the tag `tag_id` and logs its compose; `NotFound` when
/// there is no such tag.
pub fn assemble_tag(db: &mut Db, config: &Config, tag_id: &str) -> (r: Result<AssemblyPlan, RepoError>)
    requires
        old(db).wf(),
    ensures
        final(db).wf(),
        final(db).packages() == old(db).packages(),
        final(db).tags() == old(db).tags(),
        r matches Ok(plan) ==> (exists|t: TagModel|
            #![trigger old(db).tags().contains(t)]
            old(db).tags().contains(t) && t.id == tag_id@ && plan_matches(
                plan,
                t.name,
                available_in(old(db).packages(), t.name),
                *config,
            )) && final(db).composes() == old(db).composes().push(plan.compose@),
        !has_key::<Tag>(old(db).tags(), tag_id@) ==> r == Err::<AssemblyPlan, RepoError>(
            RepoError::NotFound,
        ),
        has_key::<Tag>(old(db).tags(), tag_id@) && no_ulid_composes(old(db).composes())
            ==> r is Ok,
        r is Err ==> final(db).composes() == old(db).composes(),
{
    let tag = match Tag::get(db, tag_id) {
        Some(t) => t,
        None => {
            return Err(RepoError::NotFound);
        },
    };
    tag.assemble(db, config)
}

/// The package with id `id`; `NotFound` when there is none.
pub fn get_rpm(db: &Db, id: &str) -> (r: Result<Rpm, RepoError>)
    requires
        db.wf(),
    ensures
        r is Ok <==> has_id(db.packages(), id@),
        r matches Ok(p) ==> p@.id == id@ && db.packages().contains(p@),
        r is Err ==> r == Err::<Rpm, RepoError>(RepoError::NotFound),
{
    match Rpm::get(db, id) {
        Some(p) => Ok(p),
        None => Err(RepoError::NotFound),
    }
}

/// References to every package.
pub fn get_all_rpms(db: &Db) -> (r: Vec<RpmRef>)
    ensures
        refs_view(r@) == db.packages().map_values(|p| ref_of(p)),
{
    let rpms = Rpm::get_all(db);
    let ghost snap = rpms_view(rpms@);
    let mut refs: Vec<RpmRef> = Vec::new();
    let mut i: usize = 0;
    while i < rpms.len()
        invariant
            i <= rpms@.len(),
            snap == rpms_view(rpms@),
            refs@.len() == i,
            forall|k: int| 0 <= k < i ==> (#[trigger] refs@[k])@ == ref_of(snap[k]),
        decreases rpms@.len() - i,
    {
        refs.push(RpmRef::from(&rpms[i]));
        i = i + 1;
    }
    proof {
        assert(refs_view(refs@) =~= snap.map_values(|p| ref_of(p)));
    }
    refs
}

/// Marks the package `id` available, and the others of its slot unavailable;
/// `NotFound` when there is no such package.
pub fn mark_rpm_available(db: &mut Db, id: &str) -> (r: Result<(), RepoError>)
    requires
        old(db).wf(),
    ensures
        final(db).wf(),
        r is Ok <==> has_id(old(db).packages(), id@),
        r is Ok ==> exists|k: int|
            0 <= k < old(db).packages().len() && #[trigger] old(db).packages()[k].id == id@
                && final(db).packages() == crate::db::after_mark_available(
                old(db).packages(),
                old(db).packages()[k],
            ),
        r is Err ==> r == Err::<(), RepoError>(RepoError::NotFound) && final(db).packages()
            == old(db).packages(),
{
    let rpm = get_rpm(db, id)?;
    proof {
        let k = choose|k: int| 0 <= k < old(db).packages().len() && old(db).packages()[k] == rpm@;
        assert(old(db).packages()[k].wf());
    }
    match rpm.mark_available(db) {
        Ok(_) => Ok(()),
        Err(e) => Err(e),
    }
}

/// Marks the package `id` unavailable; `NotFound` when there is no such package.
/// When the configuration deletes on prune, the package is then deleted too, and
/// its object key is returned for the caller to remove the object.
pub fn mark_rpm_unavailable(db: &mut Db, config: &Config, id: &str) -> (r: Result<Option<String>, RepoError>)
    requires
        old(db).wf(),
    ensures
        final(db).wf(),
        r is Ok <==> has_id(old(db).packages(), id@),
        r matches Ok(o) ==> exists|k: int|
            0 <= k < old(db).packages().len() && #[trigger] old(db).packages()[k].id == id@
                && if config.delete_when_prune {
                o matches Some(key) && key@ == old(db).packages()[k].object_key
                    && final(db).packages() == old(db).packages().remove(k)
            } else {
                o is None && final(db).packages() == old(db).packages().update(
                    k,
                    old(db).packages()[k].with_available(false),
                )
            },
        r is Err ==> r == Err::<Option<String>, RepoError>(RepoError::NotFound)
            && final(db).packages() == old(db).packages(),
{
    let rpm = get_rpm(db, id)?;
    let ghost s0 = db.packages();
    match rpm.mark_unavailable(db) {
        Ok(_) => {},
        Err(e) => {
            return Err(e);
        },
    }
    if config.delete_when_prune {
        let ghost s1 = db.packages();
        let key = delete_rpm(db, id);
        proof {
            let k = choose|k: int|
                0 <= k < s0.len() && #[trigger] s0[k].id == id@ && s1 == s0.update(
                    k,
                    s0[k].with_available(false),
                );
            assert(s1[k].id == id@);
            let j = choose|j: int|
                0 <= j < s1.len() && #[trigger] s1[j].id == id@ && key->Ok_0@ == s1[j].object_key
                    && db.packages() == s1.remove(j);
            assert(j == k) by {
                if j != k {
                    assert(s1[j].id != s1[k].id);
                }
            }
            assert(s1.remove(k) =~= s0.remove(k));
        }
        match key {
            Ok(k) => Ok(Some(k)),
            Err(e) => Err(e),
        }
    } else {
        Ok(None)
    }
}

/// Deletes the package `id` and returns its object key, whose object the caller
/// then removes; `NotFound` when there is no such package.
pub fn delete_rpm(db: &mut Db, id: &str) -> (r: Result<String, RepoError>)
    requires
        old(db).wf(),
    ensures
        final(db).wf(),
        r is Ok <==> has_id(old(db).packages(), id@),
        !has_id(final(db).packages(), id@),
        r matches Ok(key) ==> exists|k: int|
            0 <= k < old(db).packages().len() && #[trigger] old(db).packages()[k].id == id@
                && key@ == old(db).packages()[k].object_key && final(db).packages()
                == old(db).packages().remove(k),
        r is Err ==> r == Err::<String, RepoError>(RepoError::NotFound) && final(db).packages()
            == old(db).packages(),
{
    match db.remove_rpm(id) {
        Some(p) => Ok(p.object_key),
        None => Err(RepoError::NotFound),
    }
}

/// Checks an upload and reads its package: `BadRequest` unless the file name,
/// the bytes and the tag are all present, `Parse` when the bytes are no readable
/// RPM or its header lacks a field. The bytes are staged under the cache directory,
/// at the uploaded file name.
pub fn upload_rpm(
    config: &Config,
    filename: Option<String>,
    data: Option<Vec<u8>>,
    tag: Option<String>,
) -> (r: Result<Ingest, RepoError>)
    ensures
        (filename is None || data is None || tag is None) ==> r == Err::<Ingest, RepoError>(
            RepoError::BadRequest,
        ),
        (filename matches Some(f) && !single_component(f@)) ==> r == Err::<Ingest, RepoError>(
            RepoError::BadRequest,
        ),
        (filename is Some && tag is Some && data is Some) ==> (r is Ok <==> (single_component(
            filename->Some_0@,
        ) && rpm_layout_in_bounds(data->Some_0@) && rpm_reads(data->Some_0@) && header_complete(
            data->Some_0@,
        ))),
        r is Err ==> r == Err::<Ingest, RepoError>(RepoError::BadRequest) || r == Err::<
            Ingest,
            RepoError,
        >(RepoError::Parse),
        r matches Ok(ing) ==> {
            &&& filename is Some && ing.staging_path@ == join_path(config.cache_dir@, Seq::empty())
                + filename->Some_0@
            &&& data matches Some(d) && ing.data@ == d@
            &&& tag is Some && data is Some && ing.rpm@.wf() && read_from(
                ing.rpm@,
                data->Some_0@,
                tag->Some_0@,
            )
        },
{
    match (filename, data, tag) {
        (Some(filename), Some(data), Some(tag)) => {
            if !is_single_component(filename.as_str()) {
                return Err(RepoError::BadRequest);
            }
            let header = RpmHeader::read(data)?;
            let rpm = Rpm::new(&header, tag.as_str())?;
            let data = header.into_bytes();
            let staging_path = config.cache().entry_path(filename.as_str());
            proof {
                lemma_single_component_inside(config.cache_dir@, filename@);
            }
            Ok(Ingest { staging_path, data, rpm })
        },
        _ => Err(RepoError::BadRequest),
    }
}

/// `r` is the public projection of the key `k`: every field but the secret key.
pub open spec fn projects(r: GpgKeyRef, k: GpgKeyModel) -> bool {
    &&& r.id@ == k.id
    &&& r.user_id@ == k.user_id
    &&& crate::opt_view(r.description) == k.description
    &&& r.public_key@ == k.public_key
    &&& r.created_at == k.created_at
}

/// Public projections of every key.
pub fn get_all_keys(db: &Db) -> (r: Vec<GpgKeyRef>)
    ensures
        r@.len() == db.keys().len(),
        forall|i: int|
            0 <= i < r@.len() ==> projects(#[trigger] r@[i], db.keys()[i]),
{
    let keys = GpgKey::get_all(db);
    let mut out: Vec<GpgKeyRef> = Vec::new();
    let mut i: usize = 0;
    while i < keys.len()
        invariant
            i <= keys@.len(),
            keys@.map_values(|k: GpgKey| k@) == db.keys(),
            out@.len() == i,
            forall|k: int|
                0 <= k < i ==> projects(#[trigger] out@[k], db.keys()[k]),
        decreases keys@.len() - i,
    {
        proof {
            assert(keys@.map_values(|k: GpgKey| k@)[i as int] == keys@[i as int]@);
        }
        out.push(GpgKeyRef::from(&keys[i]));
        i = i + 1;
    }
    out
}

/// Generates and stores the key described by `key`, and returns its public
/// projection; `Parse` when the OpenPGP library fails.
pub fn create_key(db: &mut Db, key: &CreateGpgKey) -> (r: Result<GpgKeyRef, RepoError>)
    requires
        old(db).wf(),
    ensures
        final(db).wf(),
        final(db).packages() == old(db).packages(),
        r matches Ok(k) ==> k.id@ == key.id@ && k.user_id@ == key.user_id@ && has_key::<GpgKey>(
            final(db).keys(),
            key.id@,
        ),
        r is Err ==> r == Err::<GpgKeyRef, RepoError>(RepoError::Parse) && final(db).keys()
            == old(db).keys(),
{
    let description = crate::deps::copy_opt(&key.description);
    let k = GpgKey::new(key.id.as_str(), description, key.user_id.as_str())?;
    let saved = k.save(db);
    proof {
        if has_key::<GpgKey>(old(db).keys(), k@.id) {
            let j = choose|j: int|
                0 <= j < old(db).keys().len() && <GpgKey as Record>::key_of(#[trigger] old(db).keys()[j])
                    == k@.id && final(db).keys() == old(db).keys().update(j, k@);
            assert(final(db).keys()[j] == k@);
        } else {
            assert(final(db).keys()[old(db).keys().len() as int] == k@);
        }
    }
    Ok(GpgKeyRef::from(&saved))
}

} // verus!
