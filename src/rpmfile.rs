//! Reading RPM files. The layout check keeps every header index entry of a file,
//! from its offset over its item count, inside the header's data store before the
//! rpm crate reads or signs the file: that crate slices the store at each entry's
//! offset, and binary entries over `offset..offset + count`, without checking. What the rpm crate
//! reads from a file's header is named here, as a function of the file's bytes.
use vstd::prelude::*;

use crate::errors::RepoError;

verus! {

/// Size of the lead that starts every RPM file.
pub const LEAD_SIZE: u64 = 96;

/// The big-endian 32-bit number at `p` in `b`.
pub open spec fn be32(b: Seq<u8>, p: int) -> int {
    b[p] as int * 16777216 + b[p + 1] as int * 65536 + b[p + 2] as int * 256 + b[p + 3] as int
}

/// Number of index entries of the header at `p`.
pub open spec fn header_count(b: Seq<u8>, p: int) -> int {
    be32(b, p + 8)
}

/// Size of the data store of the header at `p`.
pub open spec fn header_store(b: Seq<u8>, p: int) -> int {
    be32(b, p + 12)
}

/// The `k`-th index entry of the header at `p` stays inside a store of `store`
/// bytes: its offset is non-negative, and the range from its offset spanning its
/// item count ends within the store.
pub open spec fn entry_in_bounds(b: Seq<u8>, p: int, k: int, store: int) -> bool {
    let q = p + 16 + 16 * k;
    &&& be32(b, q + 8) < 0x8000_0000
    &&& be32(b, q + 8) + be32(b, q + 12) <= store
}

/// The header at `p` lies within `b`, its sizes fit 32 bits, and every index entry
/// points inside its store.
pub open spec fn header_in_bounds(b: Seq<u8>, p: int) -> bool {
    &&& 0 <= p
    &&& p + 16 <= b.len()
    &&& 16 * header_count(b, p) + header_store(b, p) < 0x1_0000_0000
    &&& p + 16 + 16 * header_count(b, p) + header_store(b, p) <= b.len()
    &&& forall|k: int|
        0 <= k < header_count(b, p) ==> #[trigger] entry_in_bounds(b, p, k, header_store(b, p))
}

/// Where the main header starts: after the lead and the signature header, whose
/// store is padded to a multiple of 8 bytes.
pub open spec fn main_header_start(b: Seq<u8>) -> int {
    let d = header_store(b, LEAD_SIZE as int);
    LEAD_SIZE + 16 + 16 * header_count(b, LEAD_SIZE as int) + d + (8 - d % 8) % 8
}

/// The lead, the signature header and the main header of `b` are laid out within
/// bounds.
pub open spec fn rpm_layout_in_bounds(b: Seq<u8>) -> bool {
    &&& b.len() >= LEAD_SIZE
    &&& header_in_bounds(b, LEAD_SIZE as int)
    &&& header_in_bounds(b, main_header_start(b))
}

/// Whether the rpm crate reads a package's lead and headers from `b`.
pub uninterp spec fn rpm_reads(b: Seq<u8>) -> bool;

/// The package name that the rpm crate reads from the header in `b`.
pub uninterp spec fn rpm_name_of(b: Seq<u8>) -> Option<Seq<char>>;

/// The package epoch that the rpm crate reads from the header in `b`.
pub uninterp spec fn rpm_epoch_of(b: Seq<u8>) -> Option<u32>;

/// The package version that the rpm crate reads from the header in `b`.
pub uninterp spec fn rpm_version_of(b: Seq<u8>) -> Option<Seq<char>>;

/// The package release that the rpm crate reads from the header in `b`.
pub uninterp spec fn rpm_release_of(b: Seq<u8>) -> Option<Seq<char>>;

/// The package architecture that the rpm crate reads from the header in `b`.
pub uninterp spec fn rpm_arch_of(b: Seq<u8>) -> Option<Seq<char>>;

/// The provided capabilities (name, raw flag bits, version) that the rpm crate reads
/// from the header in `b`.
pub uninterp spec fn rpm_provides_of(b: Seq<u8>) -> Option<Seq<(Seq<char>, u32, Seq<char>)>>;

/// The required capabilities (name, raw flag bits, version) that the rpm crate reads
/// from the header in `b`.
pub uninterp spec fn rpm_requires_of(b: Seq<u8>) -> Option<Seq<(Seq<char>, u32, Seq<char>)>>;

/// The views of (name, flag bits, version) triples.
pub open spec fn triples_view(v: Seq<(String, u32, String)>) -> Seq<(Seq<char>, u32, Seq<char>)> {
    v.map_values(|t: (String, u32, String)| (t.0@, t.1, t.2@))
}

/// The big-endian 32-bit number at `p`.
fn read_be32(b: &Vec<u8>, p: u64) -> (r: u64)
    requires
        p + 4 <= b@.len(),
    ensures
        r as int == be32(b@, p as int),
        r < 0x1_0000_0000,
{
    let _len = b.len();
    let i = p as usize;
    (b[i] as u64) * 16777216 + (b[i + 1] as u64) * 65536 + (b[i + 2] as u64) * 256 + (
    b[i + 3] as u64)
}

/// Whether the header at `p` lies within bounds.
fn check_header(b: &Vec<u8>, p: u64) -> (r: bool)
    ensures
        r == header_in_bounds(b@, p as int),
{
    let len = b.len() as u64;
    if p > len || len - p < 16 {
        return false;
    }
    let n = read_be32(b, p + 8);
    let d = read_be32(b, p + 12);
    if 16 * n + d >= 0x1_0000_0000 {
        return false;
    }
    if 16 * n + d > len - p - 16 {
        return false;
    }
    let mut k: u64 = 0;
    while k < n
        invariant
            k <= n,
            len == b@.len(),
            n as int == header_count(b@, p as int),
            d as int == header_store(b@, p as int),
            p + 16 + 16 * n + d <= len,
            forall|j: int| 0 <= j < k ==> #[trigger] entry_in_bounds(b@, p as int, j, d as int),
        decreases n - k,
    {
        let q = p + 16 + 16 * k;
        let off = read_be32(b, q + 8);
        let cnt = read_be32(b, q + 12);
        if !(off < 0x8000_0000 && off + cnt <= d) {
            proof {
                assert(!entry_in_bounds(b@, p as int, k as int, d as int));
            }
            return false;
        }
        proof {
            assert(entry_in_bounds(b@, p as int, k as int, d as int));
        }
        k = k + 1;
    }
    true
}

/// Whether the lead and both headers of `b` are laid out within bounds.
pub fn rpm_layout_ok(b: &Vec<u8>) -> (r: bool)
    ensures
        r == rpm_layout_in_bounds(b@),
{
    if (b.len() as u64) < LEAD_SIZE {
        return false;
    }
    if !check_header(b, LEAD_SIZE) {
        return false;
    }
    let n = read_be32(b, LEAD_SIZE + 8);
    let d = read_be32(b, LEAD_SIZE + 12);
    let start = LEAD_SIZE + 16 + 16 * n + d + (8 - d % 8) % 8;
    check_header(b, start)
}

/// A package header as the rpm crate read it, together with the bytes it was read
/// from. [`RpmHeader::read`] is its only constructor.
pub struct RpmHeader {
    meta: rpm::PackageMetadata,
    bytes: Vec<u8>,
}

/// Relies on `rpm::PackageMetadata::parse`, reading the lead and both headers from
/// `bytes`. With the layout in bounds it returns instead of panicking.
#[verifier::external_body]
fn parse_metadata(bytes: &Vec<u8>) -> (r: Result<rpm::PackageMetadata, rpm::Error>)
    requires
        rpm_layout_in_bounds(bytes@),
    ensures
        r is Ok <==> rpm_reads(bytes@),
{
    rpm::PackageMetadata::parse(&mut bytes.as_slice())
}

/// Relies on `rpm::Package::parse`, reading a whole package from `bytes`: the
/// metadata through `rpm::PackageMetadata::parse`, then the rest of the slice as
/// payload, which cannot fail; so it succeeds exactly when that reading does.
#[verifier::external_body]
pub(crate) fn parse_package(bytes: &Vec<u8>) -> (r: Result<rpm::Package, rpm::Error>)
    requires
        rpm_layout_in_bounds(bytes@),
    ensures
        r is Ok <==> rpm_reads(bytes@),
{
    rpm::Package::parse(&mut bytes.as_slice())
}

/// Relies on `rpm::PackageMetadata::get_name`, on the metadata read from `h`'s bytes.
#[verifier::external_body]
fn header_name(h: &RpmHeader) -> (r: Result<String, rpm::Error>)
    ensures
        r is Ok <==> rpm_name_of(h.source()) is Some,
        r matches Ok(s) ==> rpm_name_of(h.source()) == Some(s@),
{
    h.meta.get_name().map(|s| s.to_owned())
}

/// Relies on `rpm::PackageMetadata::get_epoch`, on the metadata read from `h`'s bytes.
#[verifier::external_body]
fn header_epoch(h: &RpmHeader) -> (r: Result<u32, rpm::Error>)
    ensures
        r is Ok <==> rpm_epoch_of(h.source()) is Some,
        r matches Ok(e) ==> rpm_epoch_of(h.source()) == Some(e),
{
    h.meta.get_epoch()
}

/// Relies on `rpm::PackageMetadata::get_version`, on the metadata read from `h`'s bytes.
#[verifier::external_body]
fn header_version(h: &RpmHeader) -> (r: Result<String, rpm::Error>)
    ensures
        r is Ok <==> rpm_version_of(h.source()) is Some,
        r matches Ok(s) ==> rpm_version_of(h.source()) == Some(s@),
{
    h.meta.get_version().map(|s| s.to_owned())
}

/// Relies on `rpm::PackageMetadata::get_release`, on the metadata read from `h`'s bytes.
#[verifier::external_body]
fn header_release(h: &RpmHeader) -> (r: Result<String, rpm::Error>)
    ensures
        r is Ok <==> rpm_release_of(h.source()) is Some,
        r matches Ok(s) ==> rpm_release_of(h.source()) == Some(s@),
{
    h.meta.get_release().map(|s| s.to_owned())
}

/// Relies on `rpm::PackageMetadata::get_arch`, on the metadata read from `h`'s bytes.
#[verifier::external_body]
fn header_arch(h: &RpmHeader) -> (r: Result<String, rpm::Error>)
    ensures
        r is Ok <==> rpm_arch_of(h.source()) is Some,
        r matches Ok(s) ==> rpm_arch_of(h.source()) == Some(s@),
{
    h.meta.get_arch().map(|s| s.to_owned())
}

/// Relies on `rpm::PackageMetadata::get_provides`, on the metadata read from `h`'s
/// bytes; each dependency is handed out as its name, raw flag bits and version.
#[verifier::external_body]
fn header_provides(h: &RpmHeader) -> (r: Result<Vec<(String, u32, String)>, rpm::Error>)
    ensures
        r is Ok <==> rpm_provides_of(h.source()) is Some,
        r matches Ok(v) ==> rpm_provides_of(h.source()) == Some(triples_view(v@)),
{
    h.meta.get_provides().map(
        |v| v.into_iter().map(|d| (d.name, d.flags.bits(), d.version)).collect(),
    )
}

/// Relies on `rpm::PackageMetadata::get_requires`, on the metadata read from `h`'s
/// bytes; each dependency is handed out as its name, raw flag bits and version.
#[verifier::external_body]
fn header_requires(h: &RpmHeader) -> (r: Result<Vec<(String, u32, String)>, rpm::Error>)
    ensures
        r is Ok <==> rpm_requires_of(h.source()) is Some,
        r matches Ok(v) ==> rpm_requires_of(h.source()) == Some(triples_view(v@)),
{
    h.meta.get_requires().map(
        |v| v.into_iter().map(|d| (d.name, d.flags.bits(), d.version)).collect(),
    )
}

/// The fields that a package record needs are all read from the header in `b`.
pub open spec fn header_complete(b: Seq<u8>) -> bool {
    &&& rpm_name_of(b) is Some
    &&& rpm_version_of(b) is Some
    &&& rpm_release_of(b) is Some
    &&& rpm_arch_of(b) is Some
    &&& rpm_provides_of(b) is Some
    &&& rpm_requires_of(b) is Some
}

/// The epoch read from the header in `b`, 0 when it has none.
pub open spec fn epoch_or_zero(b: Seq<u8>) -> u32 {
    match rpm_epoch_of(b) {
        Some(e) => e,
        None => 0,
    }
}

/// What the header fields read from `b` are, as plain values.
pub struct HeaderFields {
    pub name: String,
    pub epoch: u32,
    pub version: String,
    pub release: String,
    pub arch: String,
    pub provides: Vec<(String, u32, String)>,
    pub requirements: Vec<(String, u32, String)>,
}

/// A failure of the rpm crate, reported as [`RepoError::Parse`].
pub(crate) fn parsed<T>(r: Result<T, rpm::Error>) -> (o: Result<T, RepoError>)
    ensures
        r is Ok <==> o is Ok,
        r is Ok ==> o == Ok::<T, RepoError>(r->Ok_0),
        o is Err ==> o == Err::<T, RepoError>(RepoError::Parse),
{
    match r {
        Ok(v) => Ok(v),
        Err(_) => Err(RepoError::Parse),
    }
}

impl RpmHeader {
    /// The bytes the header was read from.
    pub closed spec fn source(&self) -> Seq<u8> {
        self.bytes@
    }

    /// Reads the header of the RPM file `bytes`. Fails with `Parse` when the layout
    /// is out of bounds or the rpm crate cannot read it.
    pub fn read(bytes: Vec<u8>) -> (r: Result<RpmHeader, RepoError>)
        ensures
            r is Ok <==> rpm_layout_in_bounds(bytes@) && rpm_reads(bytes@),
            r matches Ok(h) ==> h.source() == bytes@,
            r is Err ==> r == Err::<RpmHeader, RepoError>(RepoError::Parse),
    {
        if !rpm_layout_ok(&bytes) {
            return Err(RepoError::Parse);
        }
        let meta = parsed(parse_metadata(&bytes))?;
        Ok(RpmHeader { meta, bytes })
    }

    /// The bytes the header was read from.
    pub fn into_bytes(self) -> (r: Vec<u8>)
        ensures
            r@ == self.source(),
    {
        self.bytes
    }

    /// The fields a package record needs. Fails with `Parse` when one is missing;
    /// a missing epoch counts as 0.
    pub fn fields(&self) -> (r: Result<HeaderFields, RepoError>)
        ensures
            r is Ok <==> header_complete(self.source()),
            r matches Ok(f) ==> {
                &&& rpm_name_of(self.source()) == Some(f.name@)
                &&& f.epoch == epoch_or_zero(self.source())
                &&& rpm_version_of(self.source()) == Some(f.version@)
                &&& rpm_release_of(self.source()) == Some(f.release@)
                &&& rpm_arch_of(self.source()) == Some(f.arch@)
                &&& rpm_provides_of(self.source()) == Some(triples_view(f.provides@))
                &&& rpm_requires_of(self.source()) == Some(triples_view(f.requirements@))
            },
            r is Err ==> r == Err::<HeaderFields, RepoError>(RepoError::Parse),
    {
        let epoch = match header_epoch(self) {
            Ok(e) => e,
            Err(_) => 0,
        };
        let name = parsed(header_name(self))?;
        let version = parsed(header_version(self))?;
        let release = parsed(header_release(self))?;
        let arch = parsed(header_arch(self))?;
        let provides = parsed(header_provides(self))?;
        let requirements = parsed(header_requires(self))?;
        Ok(HeaderFields { name, epoch, version, release, arch, provides, requirements })
    }
}

} // verus!
