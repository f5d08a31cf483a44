//! The package record: identity, metadata read from an RPM, object-store keys,
//! tag membership and availability; and the signing of a stored package.
use vstd::prelude::*;

use crate::db::{after_mark_available, has_id, Db};
use crate::deps::{copy_deps, dep_model, deps_from_raw, deps_view, DepModel, PkgDependency};
use crate::rpmfile::{
    epoch_or_zero, header_complete, parse_package, parsed, rpm_arch_of, rpm_layout_in_bounds,
    rpm_layout_ok, rpm_name_of, rpm_provides_of, rpm_reads, rpm_release_of, rpm_requires_of,
    rpm_version_of, triples_view, RpmHeader,
};
use crate::errors::RepoError;
use crate::ids::{fresh_ulid, is_ulid, now_millis};
use crate::keys::{object_key_of, rpm_file_name, rpm_object_key, signed_key_of, Nevra};
use crate::opt_view;

verus! {

/// The abstract value of a package record.
pub struct RpmModel {
    pub id: Seq<char>,
    pub epoch: u32,
    pub name: Seq<char>,
    pub version: Seq<char>,
    pub release: Seq<char>,
    pub arch: Seq<char>,
    pub object_key: Seq<char>,
    pub provides: Seq<DepModel>,
    pub requirements: Seq<DepModel>,
    pub signed_object_key: Option<Seq<char>>,
    pub tag: Seq<char>,
    pub timestamp: i64,
    pub available: bool,
}

impl RpmModel {
    /// `<name>-<epoch>:<version>-<release>.<arch>.rpm`
    pub open spec fn file_name(self) -> Seq<char> {
        rpm_file_name(self.name, self.epoch as nat, self.version, self.release, self.arch)
    }

    /// The id is a ULID and the object key is derived from the id and file name.
    pub open spec fn wf(self) -> bool {
        &&& is_ulid(self.id)
        &&& self.object_key == object_key_of(self.id, self.file_name())
    }

    /// The key that the signed variant of this package is stored under.
    pub open spec fn signed_key(self) -> Seq<char> {
        match self.signed_object_key {
            Some(k) => k,
            None => signed_key_of(self.id, self.file_name()),
        }
    }

    /// Both records compete for the same (tag, name, architecture) availability slot.
    pub open spec fn same_slot(self, other: RpmModel) -> bool {
        &&& self.name == other.name
        &&& self.arch == other.arch
        &&& self.tag == other.tag
    }

    pub open spec fn with_available(self, available: bool) -> RpmModel {
        RpmModel { available, ..self }
    }
}

/// One stored RPM package.
#[derive(Debug)]
pub struct Rpm {
    /// ULID of the package.
    pub id: String,
    pub epoch: u32,
    pub name: String,
    pub version: String,
    pub release: String,
    pub arch: String,
    /// Key of the package file in the object store.
    pub object_key: String,
    pub provides: Vec<PkgDependency>,
    pub requirements: Vec<PkgDependency>,
    /// Key of the signed variant, once the package has been signed.
    pub signed_object_key: Option<String>,
    /// Name of the tag the package belongs to.
    pub tag: String,
    /// Creation instant, in milliseconds since the Unix epoch (UTC).
    pub timestamp: i64,
    /// Whether the package takes part in its tag's next assembly. At most one
    /// package per (tag, name, architecture) is available.
    pub available: bool,
}

impl View for Rpm {
    type V = RpmModel;

    open spec fn view(&self) -> RpmModel {
        RpmModel {
            id: self.id@,
            epoch: self.epoch,
            name: self.name@,
            version: self.version@,
            release: self.release@,
            arch: self.arch@,
            object_key: self.object_key@,
            provides: deps_view(self.provides@),
            requirements: deps_view(self.requirements@),
            signed_object_key: opt_view(self.signed_object_key),
            tag: self.tag@,
            timestamp: self.timestamp,
            available: self.available,
        }
    }
}

/// Relies on `rpm::signature::pgp::Signer::from_asc`, loading an armored secret key.
#[verifier::external_body]
fn load_signer(armored: &str) -> (r: Result<rpm::signature::pgp::Signer, rpm::Error>) {
    rpm::signature::pgp::Signer::from_asc(armored)
}

/// Relies on `rpm::Package::sign`, which adds the signer's header signature. Its
/// callers pass only packages that `parse_package` read from bytes whose layout
/// `rpm_layout_ok` accepted, so every entry it slices lies inside its store.
#[verifier::external_body]
fn sign_package(pkg: &mut rpm::Package, signer: rpm::signature::pgp::Signer) -> (r: Result<(), rpm::Error>) {
    pkg.sign(signer)
}

/// Relies on `rpm::Package::write`, serializing the package into a buffer.
#[verifier::external_body]
fn write_package(pkg: &rpm::Package) -> (r: Result<Vec<u8>, rpm::Error>) {
    let mut buf = Vec::new();
    pkg.write(&mut buf).map(|_| buf)
}

/// The record `p` holds what the rpm crate reads from the header in `b`, and the
/// tag `tag`; it is unsigned and unavailable.
pub open spec fn read_from(p: RpmModel, b: Seq<u8>, tag: Seq<char>) -> bool {
    &&& rpm_name_of(b) == Some(p.name)
    &&& p.epoch == epoch_or_zero(b)
    &&& rpm_version_of(b) == Some(p.version)
    &&& rpm_release_of(b) == Some(p.release)
    &&& rpm_arch_of(b) == Some(p.arch)
    &&& rpm_provides_of(b) matches Some(v) && p.provides == deps_of_triples(v)
    &&& rpm_requires_of(b) matches Some(v) && p.requirements == deps_of_triples(v)
    &&& p.tag == tag
    &&& !p.available
    &&& p.signed_object_key is None
}

/// The dependencies made from (name, flag bits, version) triples.
pub open spec fn deps_of_triples(v: Seq<(Seq<char>, u32, Seq<char>)>) -> Seq<DepModel> {
    v.map_values(|t: (Seq<char>, u32, Seq<char>)| dep_model(t.0, t.1, t.2))
}

impl Rpm {
    /// The record of a new package with the given identity, metadata and tag.
    /// It starts out unsigned and unavailable.
    pub fn with_identity(
        id: String,
        timestamp: i64,
        nevra: Nevra,
        provides: Vec<PkgDependency>,
        requirements: Vec<PkgDependency>,
        tag: &str,
    ) -> (r: Rpm)
        requires
            is_ulid(id@),
        ensures
            r@ == (RpmModel {
                id: id@,
                epoch: nevra.epoch,
                name: nevra.name@,
                version: nevra.version@,
                release: nevra.release@,
                arch: nevra.arch@,
                object_key: object_key_of(id@, nevra.file_name_spec()),
                provides: deps_view(provides@),
                requirements: deps_view(requirements@),
                signed_object_key: None,
                tag: tag@,
                timestamp,
                available: false,
            }),
            r@.wf(),
    {
        let (object_key, _signed) = rpm_object_key(id.as_str(), &nevra);
        Rpm {
            id,
            epoch: nevra.epoch,
            name: nevra.name,
            version: nevra.version,
            release: nevra.release,
            arch: nevra.arch,
            object_key,
            provides,
            requirements,
            signed_object_key: None,
            tag: String::from_str(tag),
            timestamp,
            available: false,
        }
    }

    /// A new record for the package whose header is `header`, in the tag `tag`, with
    /// a fresh ULID and the current time. A missing epoch counts as 0; any other
    /// missing field fails with `Parse`.
    pub fn new(header: &RpmHeader, tag: &str) -> (r: Result<Rpm, RepoError>)
        ensures
            r is Ok <==> header_complete(header.source()),
            r matches Ok(p) ==> p@.wf() && read_from(p@, header.source(), tag@),
            r is Err ==> r == Err::<Rpm, RepoError>(RepoError::Parse),
    {
        let f = header.fields()?;
        let provides = deps_from_raw(&f.provides);
        let requirements = deps_from_raw(&f.requirements);
        proof {
            assert(deps_view(provides@) =~= deps_of_triples(triples_view(f.provides@)));
            assert(deps_view(requirements@) =~= deps_of_triples(triples_view(f.requirements@)));
        }
        let id = fresh_ulid();
        let timestamp = now_millis();
        Ok(
            Rpm::with_identity(
                id,
                timestamp,
                Nevra { name: f.name, epoch: f.epoch, version: f.version, release: f.release, arch: f.arch },
                provides,
                requirements,
                tag,
            ),
        )
    }

    /// A new record for the RPM file whose content is `bytes`, in the tag `tag`.
    /// Fails with `Parse` when the file's layout is out of bounds, when the rpm
    /// crate cannot read it, or when its header lacks a field.
    pub fn from_bytes(bytes: &Vec<u8>, tag: &str) -> (r: Result<Rpm, RepoError>)
        ensures
            r is Ok <==> rpm_layout_in_bounds(bytes@) && rpm_reads(bytes@) && header_complete(
                bytes@,
            ),
            r matches Ok(p) ==> p@.wf() && read_from(p@, bytes@, tag@),
            r is Err ==> r == Err::<Rpm, RepoError>(RepoError::Parse),
    {
        let header = RpmHeader::read(vstd::slice::slice_to_vec(bytes.as_slice()))?;
        Rpm::new(&header, tag)
    }

    /// Whether the record is well formed: its id is a ULID and its object key is the
    /// one derived from its id and file name.
    pub fn is_well_formed(&self) -> (r: bool)
        ensures
            r == self@.wf(),
    {
        if !crate::ids::check_ulid(self.id.as_str()) {
            return false;
        }
        let (key, _signed) = rpm_object_key(self.id.as_str(), &self.nevra());
        key == self.object_key
    }

    /// Name, epoch, version, release and architecture of this package.
    pub fn nevra(&self) -> (r: Nevra)
        ensures
            r.name@ == self.name@,
            r.epoch == self.epoch,
            r.version@ == self.version@,
            r.release@ == self.release@,
            r.arch@ == self.arch@,
    {
        Nevra {
            name: self.name.clone(),
            epoch: self.epoch,
            version: self.version.clone(),
            release: self.release.clone(),
            arch: self.arch.clone(),
        }
    }

    /// Whether the package takes part in its tag's next assembly.
    pub fn available(&self) -> (r: bool)
        ensures
            r == self@.available,
    {
        self.available
    }

    /// A copy of this record.
    pub fn duplicate(&self) -> (r: Rpm)
        ensures
            r@ == self@,
    {
        Rpm {
            id: self.id.clone(),
            epoch: self.epoch,
            name: self.name.clone(),
            version: self.version.clone(),
            release: self.release.clone(),
            arch: self.arch.clone(),
            object_key: self.object_key.clone(),
            provides: copy_deps(&self.provides),
            requirements: copy_deps(&self.requirements),
            signed_object_key: crate::deps::copy_opt(&self.signed_object_key),
            tag: self.tag.clone(),
            timestamp: self.timestamp,
            available: self.available,
        }
    }

    /// A copy of this record with the availability flag set to `available`.
    pub fn with_available(&self, available: bool) -> (r: Rpm)
        ensures
            r@ == self@.with_available(available),
    {
        let mut r = self.duplicate();
        r.available = available;
        r
    }

    /// The key for the signed variant: the recorded one, or else the one derived
    /// from the id and file name.
    pub fn signed_key(&self) -> (r: String)
        requires
            self@.id.len() >= 2,
        ensures
            r@ == self@.signed_key(),
    {
        match &self.signed_object_key {
            Some(k) => k.clone(),
            None => {
                let (_key, signed) = rpm_object_key(self.id.as_str(), &self.nevra());
                signed
            },
        }
    }

    /// Marks this package available and every other package of its (tag, name,
    /// architecture) slot unavailable, in one step; the stored row becomes this
    /// record with the flag set. Fails with `NotFound` when the package is not stored.
    pub fn mark_available(&self, db: &mut Db) -> (r: Result<Rpm, RepoError>)
        requires
            old(db).wf(),
            self@.wf(),
        ensures
            final(db).wf(),
            r is Ok <==> has_id(old(db).packages(), self@.id),
            r matches Ok(p) ==> p@ == self@.with_available(true) && final(db).packages()
                == after_mark_available(old(db).packages(), self@),
            r is Err ==> r == Err::<Rpm, RepoError>(RepoError::NotFound) && final(db).packages()
                == old(db).packages(),
    {
        db.mark_available(self)
    }

    /// Marks the stored package with this id unavailable, and returns its row.
    /// Fails with `NotFound` when the package is not stored.
    pub fn mark_unavailable(&self, db: &mut Db) -> (r: Result<Rpm, RepoError>)
        requires
            old(db).wf(),
        ensures
            final(db).wf(),
            r is Ok <==> has_id(old(db).packages(), self@.id),
            r matches Ok(p) ==> exists|k: int|
                0 <= k < old(db).packages().len() && #[trigger] old(db).packages()[k].id
                    == self@.id && p@ == old(db).packages()[k].with_available(false)
                    && final(db).packages() == old(db).packages().update(k, p@),
            r is Err ==> r == Err::<Rpm, RepoError>(RepoError::NotFound) && final(db).packages()
                == old(db).packages(),
    {
        db.mark_unavailable(self)
    }

    /// Removes the package's row. Its object is left to the caller to remove.
    pub fn delete(&self, db: &mut Db) -> (r: Result<(), RepoError>)
        requires
            old(db).wf(),
        ensures
            final(db).wf(),
            r is Ok,
            !has_id(final(db).packages(), self@.id),
            has_id(old(db).packages(), self@.id) ==> exists|k: int|
                0 <= k < old(db).packages().len() && #[trigger] old(db).packages()[k].id
                    == self@.id && final(db).packages() == old(db).packages().remove(k),
            !has_id(old(db).packages(), self@.id) ==> final(db).packages()
                == old(db).packages(),
    {
        let _removed = db.remove_rpm(self.id.as_str());
        Ok(())
    }

    /// Stores the package, unavailable; then, when `latest` holds, marks it
    /// available. Fails with `Conflict` when a package with its id is stored.
    pub fn commit_to_db(&self, db: &mut Db, latest: bool) -> (r: Result<(), RepoError>)
        requires
            old(db).wf(),
            self@.wf(),
        ensures
            final(db).wf(),
            r is Ok <==> !has_id(old(db).packages(), self@.id),
            r is Ok ==> final(db).packages() == (if latest {
                after_mark_available(old(db).packages().push(self@.with_available(false)), self@)
            } else {
                old(db).packages().push(self@.with_available(false))
            }),
            r is Err ==> r == Err::<(), RepoError>(RepoError::Conflict) && final(db).packages()
                == old(db).packages(),
    {
        db.insert_rpm(self, latest)
    }

    /// The stored package with id `id`.
    pub fn get(db: &Db, id: &str) -> (r: Option<Rpm>)
        requires
            db.wf(),
        ensures
            r is Some <==> has_id(db.packages(), id@),
            r matches Some(p) ==> p@.id == id@ && db.packages().contains(p@),
    {
        db.get_rpm(id)
    }

    /// Every stored package.
    pub fn get_all(db: &Db) -> (r: Vec<Rpm>)
        ensures
            crate::db::rpms_view(r@) == db.packages(),
    {
        db.all_rpms()
    }

    /// Records `signed_key` as the key of the stored package's signed variant, and
    /// returns the updated row. Fails with `NotFound` when the package is not stored.
    pub fn set_signed_object_key(&self, db: &mut Db, signed_key: String) -> (r: Result<Rpm, RepoError>)
        requires
            old(db).wf(),
        ensures
            final(db).wf(),
            r is Ok <==> has_id(old(db).packages(), self@.id),
            r matches Ok(p) ==> exists|k: int|
                0 <= k < old(db).packages().len() && #[trigger] old(db).packages()[k].id == self@.id
                    && p@ == (RpmModel {
                    signed_object_key: Some(signed_key@),
                    ..old(db).packages()[k]
                }) && final(db).packages() == old(db).packages().update(k, p@),
            r is Err ==> r == Err::<Rpm, RepoError>(RepoError::NotFound) && final(db).packages()
                == old(db).packages(),
    {
        db.set_signed_key(&self.id, signed_key)
    }

    /// Signs the package file `package` with the armored secret key `secret_key`.
    /// Returns the key that the signed file belongs under and its bytes.
    pub fn sign(&self, package: &Vec<u8>, secret_key: &str) -> (r: Result<(String, Vec<u8>), RepoError>)
        requires
            self@.id.len() >= 2,
        ensures
            r is Ok ==> r->Ok_0.0@ == self@.signed_key(),
            !rpm_layout_in_bounds(package@) ==> r is Err,
            r is Err ==> r == Err::<(String, Vec<u8>), RepoError>(RepoError::Parse),
    {
        if !rpm_layout_ok(package) {
            return Err(RepoError::Parse);
        }
        let signer = parsed(load_signer(secret_key))?;
        let mut pkg = parsed(parse_package(package))?;
        parsed(sign_package(&mut pkg, signer))?;
        let bytes = parsed(write_package(&pkg))?;
        Ok((self.signed_key(), bytes))
    }
}

/// A light reference to a package record.
#[derive(Clone, Debug, PartialEq, Eq)]
pub struct RpmRef {
    pub id: String,
    pub name: String,
    pub object_key: String,
    pub signed_object_key: Option<String>,
    pub tag: Option<String>,
}

/// The abstract value of a package reference.
pub struct RpmRefModel {
    pub id: Seq<char>,
    pub name: Seq<char>,
    pub object_key: Seq<char>,
    pub signed_object_key: Option<Seq<char>>,
    pub tag: Option<Seq<char>>,
}

impl View for RpmRef {
    type V = RpmRefModel;

    open spec fn view(&self) -> RpmRefModel {
        RpmRefModel {
            id: self.id@,
            name: self.name@,
            object_key: self.object_key@,
            signed_object_key: opt_view(self.signed_object_key),
            tag: opt_view(self.tag),
        }
    }
}

/// The reference to the package `p`.
pub open spec fn ref_of(p: RpmModel) -> RpmRefModel {
    RpmRefModel {
        id: p.id,
        name: p.name,
        object_key: p.object_key,
        signed_object_key: p.signed_object_key,
        tag: Some(p.tag),
    }
}

impl RpmRef {
    /// A reference with no signed key and no tag.
    pub fn new(id: String, name: String, object_key: String) -> (r: RpmRef)
        ensures
            r@ == (RpmRefModel {
                id: id@,
                name: name@,
                object_key: object_key@,
                signed_object_key: None,
                tag: None,
            }),
    {
        RpmRef { id, name, object_key, signed_object_key: None, tag: None }
    }
}

impl RpmRef {
    /// The reference to the stored package with id `id`.
    pub fn get(db: &Db, id: &str) -> (r: Option<RpmRef>)
        requires
            db.wf(),
        ensures
            r is Some <==> has_id(db.packages(), id@),
            r matches Some(x) ==> exists|k: int|
                0 <= k < db.packages().len() && #[trigger] db.packages()[k].id == id@ && x@
                    == ref_of(db.packages()[k]),
    {
        match db.get_rpm(id) {
            Some(p) => {
                let x = RpmRef::from(&p);
                proof {
                    let k = choose|k: int| 0 <= k < db.packages().len() && db.packages()[k] == p@;
                    assert(db.packages()[k].id == id@);
                }
                Some(x)
            },
            None => None,
        }
    }

    /// The full record of the referenced package. Fails with `NotFound` when it is
    /// not stored.
    pub fn get_full(&self, db: &Db) -> (r: Result<Rpm, RepoError>)
        requires
            db.wf(),
        ensures
            r is Ok <==> has_id(db.packages(), self@.id),
            r matches Ok(p) ==> p@.id == self@.id && db.packages().contains(p@),
            r is Err ==> r == Err::<Rpm, RepoError>(RepoError::NotFound),
    {
        match db.get_rpm(self.id.as_str()) {
            Some(p) => Ok(p),
            None => Err(RepoError::NotFound),
        }
    }
}

impl<'a> From<&'a Rpm> for RpmRef {
    fn from(rpm: &'a Rpm) -> (r: RpmRef) {
        RpmRef {
            id: rpm.id.clone(),
            name: rpm.name.clone(),
            object_key: rpm.object_key.clone(),
            signed_object_key: crate::deps::copy_opt(&rpm.signed_object_key),
            tag: Some(rpm.tag.clone()),
        }
    }
}

impl<'a> vstd::std_specs::convert::FromSpecImpl<&'a Rpm> for RpmRef {
    open spec fn obeys_from_spec() -> bool {
        true
    }

    open spec fn from_spec(rpm: &'a Rpm) -> RpmRef {
        RpmRef {
            id: rpm.id,
            name: rpm.name,
            object_key: rpm.object_key,
            signed_object_key: rpm.signed_object_key,
            tag: Some(rpm.tag),
        }
    }
}

} // verus!
