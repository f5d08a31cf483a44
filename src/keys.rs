//! Object-store key layout for stored packages.
//!
//! A package with id `ID` and file name `F` is stored under
//! `rpm/<ID[0]>/<ID[1]>/<ID>/F`, and its signed variant under
//! `rpm/<ID[0]>/<ID[1]>/<ID>/signed/F`.
use vstd::prelude::*;

verus! {

/// Top-level prefix of every package object key.
pub const RPM_PREFIX: &'static str = "rpm";

/// The decimal digit for `d < 10`.
pub open spec fn digit_char(d: nat) -> char {
    seq!['0', '1', '2', '3', '4', '5', '6', '7', '8', '9'][d as int]
}

/// Base-10 representation of `n`, without sign or leading zeros.
pub open spec fn decimal(n: nat) -> Seq<char>
    decreases n,
{
    if n < 10 {
        seq![digit_char(n)]
    } else {
        decimal(n / 10).push(digit_char(n % 10))
    }
}

/// The last component of a `/`-separated key: what follows its last `/`,
/// or the whole key when it holds none.
pub open spec fn last_component(key: Seq<char>) -> Seq<char>
    decreases key.len(),
{
    if key.len() == 0 {
        key
    } else if key.last() == '/' {
        Seq::empty()
    } else {
        last_component(key.drop_last()).push(key.last())
    }
}

/// `<id[0]>/<id[1]>/<id>`: a two-level fan-out by the first two characters.
pub open spec fn split_id(id: Seq<char>) -> Seq<char>
    recommends
        id.len() >= 2,
{
    seq![id[0], '/', id[1], '/'] + id
}

/// `<name>-<epoch>:<version>-<release>.<arch>.rpm`
pub open spec fn rpm_file_name(
    name: Seq<char>,
    epoch: nat,
    version: Seq<char>,
    release: Seq<char>,
    arch: Seq<char>,
) -> Seq<char> {
    name + seq!['-'] + decimal(epoch) + seq![':'] + version + seq!['-'] + release + seq!['.']
        + arch + seq!['.', 'r', 'p', 'm']
}

/// `rpm/<split id>/<file>`
pub open spec fn object_key_of(id: Seq<char>, file: Seq<char>) -> Seq<char> {
    seq!['r', 'p', 'm', '/'] + split_id(id) + seq!['/'] + file
}

/// `rpm/<split id>/signed/<file>`
pub open spec fn signed_key_of(id: Seq<char>, file: Seq<char>) -> Seq<char> {
    seq!['r', 'p', 'm', '/'] + split_id(id) + seq!['/', 's', 'i', 'g', 'n', 'e', 'd', '/'] + file
}

/// Name, epoch, version, release and architecture of a package.
#[derive(Clone, Debug, PartialEq, Eq)]
pub struct Nevra {
    pub name: String,
    pub epoch: u32,
    pub version: String,
    pub release: String,
    pub arch: String,
}

impl Nevra {
    pub open spec fn file_name_spec(&self) -> Seq<char> {
        rpm_file_name(self.name@, self.epoch as nat, self.version@, self.release@, self.arch@)
    }
}

/// Relies on the `Display` impl of `u32` (through `to_string`): base-10 digits,
/// with no sign and no leading zeros.
#[verifier::external_body]
fn decimal_string(n: u32) -> (r: String)
    ensures
        r@ == decimal(n as nat),
{
    n.to_string()
}

/// Splits an id into a tree-like directory path using its first two characters.
pub fn get_split_id_string(id: &str) -> (r: String)
    requires
        id@.len() >= 2,
    ensures
        r@ == split_id(id@),
{
    let mut r = String::from_str(id.substring_char(0, 1));
    r.append("/");
    r.append(id.substring_char(1, 2));
    r.append("/");
    r.append(id);
    proof {
        reveal_strlit("/");
        assert(r@ =~= split_id(id@));
    }
    r
}

/// The file name of a package: `<name>-<epoch>:<version>-<release>.<arch>.rpm`.
pub fn get_rpm_path(name: &str, epoch: u32, version: &str, release: &str, arch: &str) -> (r: String)
    ensures
        r@ == rpm_file_name(name@, epoch as nat, version@, release@, arch@),
{
    let mut r = String::from_str(name);
    r.append("-");
    let e = decimal_string(epoch);
    r.append(e.as_str());
    r.append(":");
    r.append(version);
    r.append("-");
    r.append(release);
    r.append(".");
    r.append(arch);
    r.append(".rpm");
    proof {
        reveal_strlit("-");
        reveal_strlit(":");
        reveal_strlit(".");
        reveal_strlit(".rpm");
        assert(r@ =~= rpm_file_name(name@, epoch as nat, version@, release@, arch@));
    }
    r
}

/// The object key and the signed-variant key of the package `nevra` with id `id`.
pub fn rpm_object_key(id: &str, nevra: &Nevra) -> (r: (String, String))
    requires
        id@.len() >= 2,
    ensures
        r.0@ == object_key_of(id@, nevra.file_name_spec()),
        r.1@ == signed_key_of(id@, nevra.file_name_spec()),
{
    let id_string = get_split_id_string(id);
    let rpm_path = get_rpm_path(
        nevra.name.as_str(),
        nevra.epoch,
        nevra.version.as_str(),
        nevra.release.as_str(),
        nevra.arch.as_str(),
    );
    let mut object_key = String::from_str(RPM_PREFIX);
    object_key.append("/");
    object_key.append(id_string.as_str());
    object_key.append("/");
    object_key.append(rpm_path.as_str());
    let mut signed_key = String::from_str(RPM_PREFIX);
    signed_key.append("/");
    signed_key.append(id_string.as_str());
    signed_key.append("/signed/");
    signed_key.append(rpm_path.as_str());
    proof {
        reveal_strlit("rpm");
        reveal_strlit("/");
        reveal_strlit("/signed/");
        assert(object_key@ =~= object_key_of(id@, nevra.file_name_spec()));
        assert(signed_key@ =~= signed_key_of(id@, nevra.file_name_spec()));
    }
    (object_key, signed_key)
}

/// The component of `key` after its last `/`.
pub fn file_name(key: &str) -> (r: String)
    ensures
        r@ == last_component(key@),
{
    let n = key.unicode_len();
    let mut start: usize = n;
    while start > 0 && key.get_char(start - 1) != '/'
        invariant
            start <= n,
            n == key@.len(),
            forall|j: int| start <= j < n ==> key@[j] != '/',
        decreases start,
    {
        start = start - 1;
    }
    proof {
        lemma_last_component_suffix(key@, start as int);
    }
    String::from_str(key.substring_char(start, n))
}

/// Where `key[start..]` holds no `/` and `start` is 0 or follows a `/`,
/// that suffix is the last component.
proof fn lemma_last_component_suffix(key: Seq<char>, start: int)
    requires
        0 <= start <= key.len(),
        forall|j: int| start <= j < key.len() ==> key[j] != '/',
        start == 0 || key[start - 1] == '/',
    ensures
        last_component(key) == key.subrange(start, key.len() as int),
    decreases key.len(),
{
    if key.len() == start {
        if key.len() > 0 {
            assert(key.last() == '/');
        }
        assert(key.subrange(start, key.len() as int) =~= Seq::<char>::empty());
    } else {
        let k = key.drop_last();
        lemma_last_component_suffix(k, start);
        assert(key.subrange(start, key.len() as int) =~= k.subrange(start, k.len() as int).push(
            key.last(),
        ));
    }
}

} // verus!
