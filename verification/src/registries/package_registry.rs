//! The registry of package managers whose package lists are backed up.
use vstd::prelude::*;
use crate::registries::{Registry, RegistryItem, copies, lemma_copies_push};
use crate::text::{clone_opt_string, clone_strings, str_eq};

verus! {

/// A package manager: the command that prints its package list, the file the
/// list is saved to, and the platforms it runs on (all when `None`).
#[derive(Debug, Clone)]
pub struct PackageManagerEntry {
    pub name: String,
    pub command: String,
    pub args: Vec<String>,
    pub output_file: String,
    pub enabled: bool,
    pub description: Option<String>,
    pub platforms: Option<Vec<String>>,
}

fn clone_opt_strings(v: &Option<Vec<String>>) -> (r: Option<Vec<String>>)
    ensures
        match (r, *v) {
            (Some(a), Some(b)) => a@ == b@,
            (None, None) => true,
            _ => false,
        },
{
    match v {
        Some(s) => Some(clone_strings(s)),
        None => None,
    }
}

impl RegistryItem for PackageManagerEntry {
    open spec fn enabled_spec(&self) -> bool {
        self.enabled
    }

    open spec fn with_enabled_spec(&self, on: bool) -> Self {
        PackageManagerEntry { enabled: on, ..*self }
    }

    proof fn lemma_with_enabled(&self, on: bool) {
    }

    open spec fn same_as(&self, other: &Self) -> bool {
        &&& self.name@ == other.name@
        &&& self.command@ == other.command@
        &&& self.args@ == other.args@
        &&& self.output_file@ == other.output_file@
        &&& self.enabled == other.enabled
        &&& self.description == other.description
        &&& match (self.platforms, other.platforms) {
            (Some(a), Some(b)) => a@ == b@,
            (None, None) => true,
            _ => false,
        }
    }

    fn is_enabled(&self) -> (b: bool) {
        self.enabled
    }

    fn set_enabled(&mut self, on: bool) {
        self.enabled = on;
    }

    fn duplicate(&self) -> (r: Self) {
        let args = clone_strings(&self.args);
        let platforms = clone_opt_strings(&self.platforms);
        let r = PackageManagerEntry {
            name: self.name.clone(),
            command: self.command.clone(),
            args,
            output_file: self.output_file.clone(),
            enabled: self.enabled,
            description: clone_opt_string(&self.description),
            platforms,
        };
        r
    }
}

/// Whether the entry runs on `platform`: no platform list, or one naming it.
pub open spec fn supports_platform(e: PackageManagerEntry, platform: Seq<char>) -> bool {
    match e.platforms {
        None => true,
        Some(ps) => exists|i: int| 0 <= i < ps@.len() && ps@[i]@ == platform,
    }
}

/// Enabled and runs on `platform`.
pub open spec fn is_compatible(e: PackageManagerEntry, platform: Seq<char>) -> bool {
    e.enabled && supports_platform(e, platform)
}

/// The pairs whose entries are compatible with `platform`, in order.
pub open spec fn compatible_pairs(s: Seq<(String, PackageManagerEntry)>, platform: Seq<char>) -> Seq<
    (String, PackageManagerEntry),
>
    decreases s.len(),
{
    if s.len() == 0 {
        Seq::empty()
    } else if is_compatible(s.last().1, platform) {
        compatible_pairs(s.drop_last(), platform).push(s.last())
    } else {
        compatible_pairs(s.drop_last(), platform)
    }
}

/// The package managers used on a platform are exactly the enabled ones
/// that either name no platform or name that one among their platforms.
pub proof fn law_compatible_entries(s: Seq<(String, PackageManagerEntry)>, platform: Seq<char>)
    ensures
        compatible_pairs(s, platform).len() <= s.len(),
        forall|i: int|
            0 <= i < compatible_pairs(s, platform).len() ==> s.contains(#[trigger] compatible_pairs(s, platform)[i])
                && compatible_pairs(s, platform)[i].1.enabled && match compatible_pairs(s, platform)[i].1.platforms {
                None => true,
                Some(ps) => exists|j: int| 0 <= j < ps@.len() && ps@[j]@ == platform,
            },
        forall|i: int|
            0 <= i < s.len() && (#[trigger] s[i]).1.enabled && match s[i].1.platforms {
                None => true,
                Some(ps) => exists|j: int| 0 <= j < ps@.len() && ps@[j]@ == platform,
            } ==> compatible_pairs(s, platform).contains(s[i]),
    decreases s.len(),
{
    if s.len() > 0 {
        let t = s.drop_last();
        law_compatible_entries(t, platform);
        let c = compatible_pairs(s, platform);
        let ct = compatible_pairs(t, platform);
        assert forall|i: int| 0 <= i < c.len() implies s.contains(#[trigger] c[i]) && is_compatible(c[i].1, platform) by {
            if i < ct.len() {
                assert(c[i] == ct[i]);
                let j = choose|j: int| 0 <= j < t.len() && t[j] == ct[i];
                assert(s[j] == t[j]);
            } else {
                assert(c[i] == s.last());
                assert(s[s.len() - 1] == s.last());
            }
        }
        assert forall|i: int| 0 <= i < s.len() && is_compatible((#[trigger] s[i]).1, platform) implies c.contains(s[i]) by {
            if i < t.len() {
                assert(t[i] == s[i]);
                let j = choose|j: int| 0 <= j < ct.len() && ct[j] == t[i];
                assert(c[j] == ct[j]);
            } else {
                assert(c[c.len() - 1] == s[i]);
            }
        }
    }
}

/// Whether a list of platform names contains `platform`.
pub fn contains_platform(ps: &Vec<String>, platform: &str) -> (r: bool)
    ensures
        r == exists|i: int| 0 <= i < ps@.len() && ps@[i]@ == platform@,
{
    let mut i: usize = 0;
    while i < ps.len()
        invariant
            i <= ps.len(),
            forall|j: int| 0 <= j < i ==> ps@[j]@ != platform@,
        decreases ps.len() - i,
    {
        if str_eq(ps[i].as_str(), platform) {
            return true;
        }
        i = i + 1;
    }
    false
}

/// The registry of package managers.
pub type PackageRegistry = Registry<PackageManagerEntry>;

impl Registry<PackageManagerEntry> {
    /// The enabled entries that run on `platform`, in order.
    pub fn get_platform_compatible_entries(&self, platform: &str) -> (r: Vec<(String, PackageManagerEntry)>)
        requires
            self.wf(),
        ensures
            copies(r@, compatible_pairs(self.pairs(), platform@)),
    {
        let entries = self.entries();
        let mut r: Vec<(String, PackageManagerEntry)> = Vec::new();
        let mut i: usize = 0;
        while i < entries.len()
            invariant
                entries@ == self.pairs(),
                i <= entries.len(),
                copies(r@, compatible_pairs(entries@.take(i as int), platform@)),
            decreases entries.len() - i,
        {
            proof {
                assert(entries@.take(i + 1).drop_last() =~= entries@.take(i as int));
            }
            let e = &entries[i].1;
            let ok = e.enabled && match &e.platforms {
                None => true,
                Some(ps) => contains_platform(ps, platform),
            };
            if ok {
                let k = entries[i].0.clone();
                let d = e.duplicate();
                let ghost before = r@;
                r.push((k, d));
                proof {
                    lemma_copies_push(before, compatible_pairs(entries@.take(i as int), platform@), (k, d), entries@[i as int]);
                }
            } else {
                proof {
                    assert(compatible_pairs(entries@.take(i + 1), platform@) == compatible_pairs(entries@.take(i as int), platform@));
                }
            }
            i = i + 1;
        }
        proof {
            assert(entries@.take(entries.len() as int) =~= entries@);
        }
        r
    }
}

} // verus!
