//! Package dependencies and the mapping of RPM dependency-flag bits to the one
//! flag name that a dependency surfaces.
use vstd::prelude::*;

use crate::opt_view;

verus! {

/// Number of scriptlet / trigger / weak-dependency flags that can be surfaced.
pub const FLAG_COUNT: usize = 13;

pub const SCRIPT_PRE: u32 = 0x200;
pub const SCRIPT_POST: u32 = 0x400;
pub const SCRIPT_PREUN: u32 = 0x800;
pub const SCRIPT_POSTUN: u32 = 0x1000;
pub const SCRIPT_VERIFY: u32 = 0x2000;
pub const FIND_REQUIRES: u32 = 0x4000;
pub const FIND_PROVIDES: u32 = 0x8000;
pub const TRIGGERIN: u32 = 0x10000;
pub const TRIGGERUN: u32 = 0x20000;
pub const TRIGGERPOSTUN: u32 = 0x40000;
pub const MISSINGOK: u32 = 0x80000;
pub const PREUNTRANS: u32 = 0x100000;
pub const POSTUNTRANS: u32 = 0x200000;

/// The bit of the `i`-th flag, in canonical order.
pub open spec fn flag_mask(i: int) -> u32 {
    if i == 0 {
        SCRIPT_PRE
    } else if i == 1 {
        SCRIPT_POST
    } else if i == 2 {
        SCRIPT_PREUN
    } else if i == 3 {
        SCRIPT_POSTUN
    } else if i == 4 {
        SCRIPT_VERIFY
    } else if i == 5 {
        FIND_REQUIRES
    } else if i == 6 {
        FIND_PROVIDES
    } else if i == 7 {
        TRIGGERIN
    } else if i == 8 {
        TRIGGERUN
    } else if i == 9 {
        TRIGGERPOSTUN
    } else if i == 10 {
        MISSINGOK
    } else if i == 11 {
        PREUNTRANS
    } else {
        POSTUNTRANS
    }
}

/// The name of the `i`-th flag, in canonical order.
pub open spec fn flag_name(i: int) -> Seq<char> {
    if i == 0 {
        "scriptpre"@
    } else if i == 1 {
        "scriptpost"@
    } else if i == 2 {
        "scriptpreun"@
    } else if i == 3 {
        "scriptpostun"@
    } else if i == 4 {
        "scriptverify"@
    } else if i == 5 {
        "findrequires"@
    } else if i == 6 {
        "findprovides"@
    } else if i == 7 {
        "triggerin"@
    } else if i == 8 {
        "triggerun"@
    } else if i == 9 {
        "triggerpostun"@
    } else if i == 10 {
        "missingok"@
    } else if i == 11 {
        "preuntrans"@
    } else {
        "postuntrans"@
    }
}

/// `bits` holds every bit of the `i`-th flag.
pub open spec fn has_flag(bits: u32, i: int) -> bool {
    bits & flag_mask(i) == flag_mask(i)
}

/// The flag that `bits` surfaces: the first flag in canonical order whose bit is set,
/// or none when no flag bit is set.
pub open spec fn surfaced_flag(bits: u32, r: Option<Seq<char>>) -> bool {
    match r {
        Some(s) => exists|i: int|
            0 <= i < FLAG_COUNT && #[trigger] has_flag(bits, i) && (forall|j: int|
                0 <= j < i ==> !has_flag(bits, j)) && s == flag_name(i),
        None => forall|i: int| 0 <= i < FLAG_COUNT ==> !#[trigger] has_flag(bits, i),
    }
}

fn mask_at(i: usize) -> (r: u32)
    requires
        i < FLAG_COUNT,
    ensures
        r == flag_mask(i as int),
{
    match i {
        0 => SCRIPT_PRE,
        1 => SCRIPT_POST,
        2 => SCRIPT_PREUN,
        3 => SCRIPT_POSTUN,
        4 => SCRIPT_VERIFY,
        5 => FIND_REQUIRES,
        6 => FIND_PROVIDES,
        7 => TRIGGERIN,
        8 => TRIGGERUN,
        9 => TRIGGERPOSTUN,
        10 => MISSINGOK,
        11 => PREUNTRANS,
        _ => POSTUNTRANS,
    }
}

fn name_at(i: usize) -> (r: &'static str)
    requires
        i < FLAG_COUNT,
    ensures
        r@ == flag_name(i as int),
{
    match i {
        0 => "scriptpre",
        1 => "scriptpost",
        2 => "scriptpreun",
        3 => "scriptpostun",
        4 => "scriptverify",
        5 => "findrequires",
        6 => "findprovides",
        7 => "triggerin",
        8 => "triggerun",
        9 => "triggerpostun",
        10 => "missingok",
        11 => "preuntrans",
        _ => "postuntrans",
    }
}

/// The first flag, at index `i` or later in canonical order, whose bits `bits` holds.
pub open spec fn first_flag_from(bits: u32, i: int) -> Option<Seq<char>>
    decreases FLAG_COUNT - i,
{
    if i < 0 || i >= FLAG_COUNT {
        None
    } else if has_flag(bits, i) {
        Some(flag_name(i))
    } else {
        first_flag_from(bits, i + 1)
    }
}

/// The flag name that the bits `bits` surface.
pub open spec fn first_flag(bits: u32) -> Option<Seq<char>> {
    first_flag_from(bits, 0)
}

/// For every combination of flag bits, the surfaced flag is the first one in canonical
/// order whose bit is set, and there is none when no such bit is set.
pub proof fn lemma_first_flag_is_first_match(bits: u32)
    ensures
        surfaced_flag(bits, first_flag(bits)),
{
    lemma_first_flag_from(bits, 0);
}

proof fn lemma_first_flag_from(bits: u32, i: int)
    requires
        0 <= i <= FLAG_COUNT,
        forall|j: int| 0 <= j < i ==> !has_flag(bits, j),
    ensures
        surfaced_flag(bits, first_flag_from(bits, i)),
    decreases FLAG_COUNT - i,
{
    if i < FLAG_COUNT {
        if has_flag(bits, i) {
            assert(surfaced_flag(bits, first_flag_from(bits, i)));
        } else {
            lemma_first_flag_from(bits, i + 1);
        }
    }
}

/// The flag name surfaced by the dependency-flag bits `bits`.
pub fn dependency_flag(bits: u32) -> (r: Option<String>)
    ensures
        opt_view(r) == first_flag(bits),
{
    let mut i: usize = 0;
    while i < FLAG_COUNT
        invariant
            i <= FLAG_COUNT,
            first_flag(bits) == first_flag_from(bits, i as int),
        decreases FLAG_COUNT - i,
    {
        let m = mask_at(i);
        if bits & m == m {
            return Some(String::from_str(name_at(i)));
        }
        i = i + 1;
    }
    None
}

/// A dependency of a package: a capability name, an optional version and at most
/// one surfaced flag.
#[derive(Clone, Debug, PartialEq, Eq)]
pub struct PkgDependency {
    pub flag: Option<String>,
    pub name: String,
    pub version: Option<String>,
}

/// The abstract value of a dependency.
pub struct DepModel {
    pub flag: Option<Seq<char>>,
    pub name: Seq<char>,
    pub version: Option<Seq<char>>,
}

/// The dependency made from a name, raw flag bits and a version string.
pub open spec fn dep_model(name: Seq<char>, bits: u32, version: Seq<char>) -> DepModel {
    DepModel {
        flag: first_flag(bits),
        name,
        version: if version.len() == 0 {
            None
        } else {
            Some(version)
        },
    }
}

impl View for PkgDependency {
    type V = DepModel;

    open spec fn view(&self) -> DepModel {
        DepModel { flag: opt_view(self.flag), name: self.name@, version: opt_view(self.version) }
    }
}

/// The views of a sequence of dependencies.
pub open spec fn deps_view(v: Seq<PkgDependency>) -> Seq<DepModel> {
    v.map_values(|d: PkgDependency| d@)
}

/// A copy of an optional string.
pub fn copy_opt(o: &Option<String>) -> (r: Option<String>)
    ensures
        r == *o,
{
    match o {
        Some(s) => Some(s.clone()),
        None => None,
    }
}

impl PkgDependency {
    /// A dependency from its name, its raw flag bits and its version string
    /// (empty when the dependency names no version).
    pub fn new(name: String, flag_bits: u32, version: String) -> (r: PkgDependency)
        ensures
            r@ == dep_model(name@, flag_bits, version@),
            surfaced_flag(flag_bits, opt_view(r.flag)),
    {
        proof {
            lemma_first_flag_is_first_match(flag_bits);
        }
        let flag = dependency_flag(flag_bits);
        let version = if version.as_str().is_empty() {
            None
        } else {
            Some(version)
        };
        PkgDependency { flag, name, version }
    }

    /// A copy of this dependency.
    pub fn duplicate(&self) -> (r: PkgDependency)
        ensures
            r@ == self@,
    {
        PkgDependency {
            flag: copy_opt(&self.flag),
            name: self.name.clone(),
            version: copy_opt(&self.version),
        }
    }
}

/// A copy of a list of dependencies.
pub fn copy_deps(v: &Vec<PkgDependency>) -> (r: Vec<PkgDependency>)
    ensures
        deps_view(r@) == deps_view(v@),
{
    let mut r: Vec<PkgDependency> = Vec::new();
    let mut i: usize = 0;
    while i < v.len()
        invariant
            i <= v.len(),
            r@.len() == i,
            forall|k: int| 0 <= k < i ==> (#[trigger] r@[k])@ == v@[k]@,
        decreases v.len() - i,
    {
        r.push(v[i].duplicate());
        i = i + 1;
    }
    proof {
        assert(deps_view(r@) =~= deps_view(v@));
    }
    r
}

/// Dependencies from (name, raw flag bits, version) triples, in order.
pub fn deps_from_raw(raw: &Vec<(String, u32, String)>) -> (r: Vec<PkgDependency>)
    ensures
        r@.len() == raw@.len(),
        forall|i: int|
            0 <= i < raw@.len() ==> (#[trigger] r@[i])@ == dep_model(
                raw@[i].0@,
                raw@[i].1,
                raw@[i].2@,
            ),
{
    let mut r: Vec<PkgDependency> = Vec::new();
    let mut i: usize = 0;
    while i < raw.len()
        invariant
            i <= raw@.len(),
            r@.len() == i,
            forall|k: int|
                0 <= k < i ==> (#[trigger] r@[k])@ == dep_model(
                    raw@[k].0@,
                    raw@[k].1,
                    raw@[k].2@,
                ),
        decreases raw@.len() - i,
    {
        let d = PkgDependency::new(raw[i].0.clone(), raw[i].1, raw[i].2.clone());
        r.push(d);
        i = i + 1;
    }
    r
}

} // verus!
