//! Profiles and the layers a configuration file is looked up in.
//!
//! A configuration file is backed up under a layer directory. When restoring
//! or linking, the layers are searched from the most specific to the least:
//! the active profile, the environment, the machine, the shared `common`
//! layer, and last the legacy flat backup directory.
pub mod config;

use vstd::prelude::*;
use crate::path::{join, path_join};
use crate::text::owned;
use crate::utils::paths::{MntnLayout, COMMON_DIR, PROFILES_DIR, MACHINES_DIR, ENVIRONMENTS_DIR, ENCRYPTED_DIR};

verus! {

/// The layer a configuration file was found in.
#[derive(Debug, Clone, Copy, PartialEq, Eq, Structural)]
pub enum SourceLayer {
    Profile,
    Environment,
    Machine,
    Common,
    Legacy,
}

impl SourceLayer {
    pub open spec fn label(&self) -> Seq<char> {
        match self {
            SourceLayer::Profile => "profile"@,
            SourceLayer::Environment => "environment"@,
            SourceLayer::Machine => "machine"@,
            SourceLayer::Common => "common"@,
            SourceLayer::Legacy => "legacy"@,
        }
    }

    /// The name of the layer.
    pub fn to_string(&self) -> (r: String)
        ensures
            r@ == self.label(),
    {
        match self {
            SourceLayer::Profile => owned("profile"),
            SourceLayer::Environment => owned("environment"),
            SourceLayer::Machine => owned("machine"),
            SourceLayer::Common => owned("common"),
            SourceLayer::Legacy => owned("legacy"),
        }
    }
}

/// A configuration file found in a layer.
#[derive(Debug, Clone)]
pub struct ResolvedSource {
    pub path: String,
    pub layer: SourceLayer,
}

/// The profile in use: an optional named profile, and the machine and
/// environment layers (an empty string leaves that layer out).
#[derive(Debug, Clone)]
pub struct ActiveProfile {
    pub name: Option<String>,
    pub machine_id: String,
    pub environment: String,
}

/// The layers of a profile, most specific first, with their directories.
pub open spec fn layer_dirs(p: ActiveProfile, backup: Seq<char>) -> Seq<(SourceLayer, Seq<char>)> {
    let profile: Seq<(SourceLayer, Seq<char>)> = match p.name {
        Some(n) => seq![(SourceLayer::Profile, path_join(path_join(backup, PROFILES_DIR@), n@))],
        None => Seq::empty(),
    };
    let env: Seq<(SourceLayer, Seq<char>)> = if p.environment@.len() > 0 {
        seq![(SourceLayer::Environment, path_join(path_join(backup, ENVIRONMENTS_DIR@), p.environment@))]
    } else {
        Seq::empty()
    };
    let machine: Seq<(SourceLayer, Seq<char>)> = if p.machine_id@.len() > 0 {
        seq![(SourceLayer::Machine, path_join(path_join(backup, MACHINES_DIR@), p.machine_id@))]
    } else {
        Seq::empty()
    };
    profile + env + machine + seq![
        (SourceLayer::Common, path_join(backup, COMMON_DIR@)),
        (SourceLayer::Legacy, backup),
    ]
}

/// Where a source path would be found in each layer, most specific first.
pub open spec fn candidates(p: ActiveProfile, backup: Seq<char>, source: Seq<char>) -> Seq<(SourceLayer, Seq<char>)> {
    layer_dirs(p, backup).map_values(|d: (SourceLayer, Seq<char>)| (d.0, path_join(d.1, source)))
}

/// The directory under `backup` that backups of profile `p` are written
/// to: the profile's directory, or `common` without a profile.
pub open spec fn backup_dir_of(p: ActiveProfile, backup: Seq<char>) -> Seq<char> {
    match p.name {
        Some(n) => path_join(path_join(backup, PROFILES_DIR@), n@),
        None => path_join(backup, COMMON_DIR@),
    }
}

/// The view of a list of resolved sources.
pub open spec fn resolved_view(v: Seq<ResolvedSource>) -> Seq<(SourceLayer, Seq<char>)> {
    v.map_values(|r: ResolvedSource| (r.layer, r.path@))
}

/// The entries of `c` whose flag in `found` is set, in order.
pub open spec fn kept<T>(c: Seq<T>, found: Seq<bool>) -> Seq<T>
    decreases c.len(),
{
    if c.len() == 0 || found.len() < c.len() {
        Seq::empty()
    } else if found[c.len() - 1] {
        kept(c.drop_last(), found.take(c.len() - 1)).push(c.last())
    } else {
        kept(c.drop_last(), found.take(c.len() - 1))
    }
}

impl ActiveProfile {
    /// Only the shared layers: no profile, machine or environment.
    pub fn common_only() -> (r: Self)
        ensures
            r.name is None,
            r.machine_id@.len() == 0,
            r.environment@.len() == 0,
    {
        ActiveProfile { name: None, machine_id: String::new(), environment: String::new() }
    }

    /// The named profile over the shared layers.
    pub fn with_profile(name: &str) -> (r: Self)
        ensures
            r.name matches Some(n) && n@ == name@,
            r.machine_id@.len() == 0,
            r.environment@.len() == 0,
    {
        ActiveProfile { name: Some(owned(name)), machine_id: String::new(), environment: String::new() }
    }

    /// The directory that backups of this profile are written to: the
    /// profile's directory, or `common` without a profile.
    pub fn get_backup_path(&self, layout: &MntnLayout) -> (r: String)
        ensures
            r@ == backup_dir_of(*self, layout.backup_spec()),
    {
        match &self.name {
            Some(n) => layout.profile_path(n.as_str()),
            None => layout.common_path(),
        }
    }

    /// The directory that encrypted backups of this profile are written to.
    pub fn get_encrypted_backup_path(&self, layout: &MntnLayout) -> (r: String)
        ensures
            r@ == path_join(
                match self.name {
                    Some(n) => path_join(path_join(layout.backup_spec(), PROFILES_DIR@), n@),
                    None => path_join(layout.backup_spec(), COMMON_DIR@),
                },
                ENCRYPTED_DIR@,
            ),
    {
        join(self.get_backup_path(layout).as_str(), ENCRYPTED_DIR)
    }

    /// Where `source_path` would be found in each layer, most specific first.
    pub fn source_candidates(&self, layout: &MntnLayout, source_path: &str) -> (r: Vec<ResolvedSource>)
        ensures
            resolved_view(r@) == candidates(*self, layout.backup_spec(), source_path@),
    {
        let mut r: Vec<ResolvedSource> = Vec::new();
        let ghost dirs = layer_dirs(*self, layout.backup_spec());
        let ghost mut n: int = 0;
        match &self.name {
            Some(name) => {
                let d = layout.profile_path(name.as_str());
                r.push(ResolvedSource { path: join(d.as_str(), source_path), layer: SourceLayer::Profile });
            },
            None => {},
        }
        if self.environment.as_str().unicode_len() > 0 {
            let d = layout.environment_path(self.environment.as_str());
            r.push(ResolvedSource { path: join(d.as_str(), source_path), layer: SourceLayer::Environment });
        }
        if self.machine_id.as_str().unicode_len() > 0 {
            let d = layout.machine_path(self.machine_id.as_str());
            r.push(ResolvedSource { path: join(d.as_str(), source_path), layer: SourceLayer::Machine });
        }
        let d = layout.common_path();
        r.push(ResolvedSource { path: join(d.as_str(), source_path), layer: SourceLayer::Common });
        let d = layout.backup_path();
        r.push(ResolvedSource { path: join(d.as_str(), source_path), layer: SourceLayer::Legacy });
        proof {
            assert(resolved_view(r@) =~= candidates(*self, layout.backup_spec(), source_path@));
        }
        r
    }

    /// An equal copy of the profile.
    pub fn duplicate(&self) -> (r: Self)
        ensures
            r == *self,
    {
        ActiveProfile {
            name: crate::text::clone_opt_string(&self.name),
            machine_id: self.machine_id.clone(),
            environment: self.environment.clone(),
        }
    }

    /// A short description of the profile for messages.
    pub fn describe(&self) -> (r: String)
        ensures
            r@ == match self.name {
                Some(n) => "profile '"@ + n@ + "'"@,
                None => "common"@,
            },
    {
        match &self.name {
            Some(n) => {
                let mut s = owned("profile '");
                s.append(n.as_str());
                s.append("'");
                s
            },
            None => owned("common"),
        }
    }
}

/// The candidates whose flag in `found` is set, in order.
pub fn select_existing(candidates: &Vec<ResolvedSource>, found: &Vec<bool>) -> (r: Vec<ResolvedSource>)
    requires
        found@.len() == candidates@.len(),
    ensures
        resolved_view(r@) == kept(resolved_view(candidates@), found@),
{
    let mut r: Vec<ResolvedSource> = Vec::new();
    let mut i: usize = 0;
    while i < candidates.len()
        invariant
            found@.len() == candidates@.len(),
            i <= candidates.len(),
            resolved_view(r@) == kept(resolved_view(candidates@).take(i as int), found@.take(i as int)),
        decreases candidates.len() - i,
    {
        proof {
            let c = resolved_view(candidates@).take(i + 1);
            assert(c.drop_last() =~= resolved_view(candidates@).take(i as int));
            assert(found@.take(i + 1).take(i as int) =~= found@.take(i as int));
            assert(c.last() == (candidates@[i as int].layer, candidates@[i as int].path@));
        }
        if found[i] {
            let ghost before = r@;
            r.push(ResolvedSource { path: candidates[i].path.clone(), layer: candidates[i].layer });
            proof {
                assert(resolved_view(r@) =~= resolved_view(before).push(
                    (candidates@[i as int].layer, candidates@[i as int].path@),
                ));
            }
        }
        i = i + 1;
    }
    proof {
        assert(resolved_view(candidates@).take(candidates.len() as int) =~= resolved_view(candidates@));
        assert(found@.take(candidates.len() as int) =~= found@);
    }
    r
}

/// The first candidate whose flag in `found` is set: the layer a
/// configuration file is resolved from.
pub fn select_first_existing(candidates: &Vec<ResolvedSource>, found: &Vec<bool>) -> (r: Option<ResolvedSource>)
    requires
        found@.len() == candidates@.len(),
    ensures
        kept(resolved_view(candidates@), found@).len() == 0 ==> r is None,
        kept(resolved_view(candidates@), found@).len() > 0 ==> (r matches Some(s)
            && (s.layer, s.path@) == kept(resolved_view(candidates@), found@)[0]),
{
    let all = select_existing(candidates, found);
    if all.len() == 0 {
        None
    } else {
        proof {
            assert(resolved_view(all@)[0] == (all@[0].layer, all@[0].path@));
        }
        Some(ResolvedSource { path: all[0].path.clone(), layer: all[0].layer })
    }
}

/// With no flag set, nothing is kept.
pub proof fn lemma_kept_none<T>(c: Seq<T>, found: Seq<bool>)
    requires
        found.len() == c.len(),
        forall|k: int| 0 <= k < found.len() ==> !#[trigger] found[k],
    ensures
        kept(c, found).len() == 0,
    decreases c.len(),
{
    if c.len() > 0 {
        lemma_kept_none(c.drop_last(), found.take(c.len() - 1));
    }
}

/// The place of a layer in the search order, most specific first: a named
/// profile, then the environment, the machine, the shared layer, and last
/// the legacy backup directory.
pub open spec fn layer_rank(l: SourceLayer) -> int {
    match l {
        SourceLayer::Profile => 0,
        SourceLayer::Environment => 1,
        SourceLayer::Machine => 2,
        SourceLayer::Common => 3,
        SourceLayer::Legacy => 4,
    }
}

/// The candidates for a source path come in the order profile, environment,
/// machine, common, legacy, each layer at most once: the environment layer
/// overrides the machine layer, both override the shared one. The shared and
/// legacy candidates are always the last two; the profile, environment and
/// machine candidates are there exactly when the profile has a name, an
/// environment and a machine id, and each lies in that layer's directory.
pub proof fn law_candidate_order(p: ActiveProfile, backup: Seq<char>, source: Seq<char>)
    ensures
        ({
            let c = candidates(p, backup, source);
            &&& forall|i: int, j: int| 0 <= i < j < c.len() ==> layer_rank(c[i].0) < layer_rank(c[j].0)
            &&& c.len() >= 2
            &&& c[c.len() - 1] == (SourceLayer::Legacy, path_join(backup, source))
            &&& c[c.len() - 2] == (SourceLayer::Common, path_join(path_join(backup, "common"@), source))
            &&& (exists|i: int| 0 <= i < c.len() && c[i].0 == SourceLayer::Profile) <==> p.name is Some
            &&& (exists|i: int| 0 <= i < c.len() && c[i].0 == SourceLayer::Environment) <==> p.environment@.len() > 0
            &&& (exists|i: int| 0 <= i < c.len() && c[i].0 == SourceLayer::Machine) <==> p.machine_id@.len() > 0
            &&& forall|i: int|
                0 <= i < c.len() && c[i].0 == SourceLayer::Profile ==> (p.name matches Some(n) && c[i].1 == path_join(
                    path_join(path_join(backup, "profiles"@), n@),
                    source,
                ))
            &&& forall|i: int|
                0 <= i < c.len() && c[i].0 == SourceLayer::Environment ==> c[i].1 == path_join(
                    path_join(path_join(backup, "environments"@), p.environment@),
                    source,
                )
            &&& forall|i: int|
                0 <= i < c.len() && c[i].0 == SourceLayer::Machine ==> c[i].1 == path_join(
                    path_join(path_join(backup, "machines"@), p.machine_id@),
                    source,
                )
        }),
{
    let c = candidates(p, backup, source);
    let d = layer_dirs(p, backup);
    assert(c.len() == d.len());
    assert forall|i: int| 0 <= i < c.len() implies #[trigger] c[i] == (d[i].0, path_join(d[i].1, source)) by {}
    let np: int = if p.name is Some { 1 } else { 0 };
    let ne: int = if p.environment@.len() > 0 { 1 } else { 0 };
    let nm: int = if p.machine_id@.len() > 0 { 1 } else { 0 };
    assert(d.len() == np + ne + nm + 2);
    assert forall|i: int| 0 <= i < d.len() implies #[trigger] layer_rank(d[i].0) == (if i < np {
        0int
    } else if i < np + ne {
        1int
    } else if i < np + ne + nm {
        2int
    } else if i == np + ne + nm {
        3int
    } else {
        4int
    }) by {}
    assert forall|i: int| 0 <= i < c.len() implies #[trigger] layer_rank(c[i].0) == layer_rank(d[i].0) by {}
    if p.name is Some {
        assert(c[0].0 == SourceLayer::Profile);
    }
    if p.environment@.len() > 0 {
        assert(c[np].0 == SourceLayer::Environment);
    }
    if p.machine_id@.len() > 0 {
        assert(c[np + ne].0 == SourceLayer::Machine);
    }
}

/// Layers are searched from the most specific: what a lookup resolves to is
/// the first candidate whose file exists.
pub proof fn law_first_existing_most_specific<T>(c: Seq<T>, found: Seq<bool>, j: int)
    requires
        found.len() == c.len(),
        0 <= j < c.len(),
        found[j],
        forall|k: int| 0 <= k < j ==> !#[trigger] found[k],
    ensures
        kept(c, found).len() > 0,
        kept(c, found)[0] == c[j],
    decreases c.len(),
{
    let n = c.len() - 1;
    let c0 = c.drop_last();
    let f0 = found.take(n);
    if j < n {
        assert forall|k: int| 0 <= k < j implies !#[trigger] f0[k] by {
            assert(f0[k] == found[k]);
        }
        law_first_existing_most_specific(c0, f0, j);
    } else {
        assert forall|k: int| 0 <= k < f0.len() implies !#[trigger] f0[k] by {
            assert(f0[k] == found[k]);
        }
        lemma_kept_none(c0, f0);
    }
}

/// What a backup writes, a restore reads: the first place a restore of a
/// profile looks for a source path is where a backup of that profile wrote
/// it (for a named profile, or one without machine and environment layers),
/// so the restore resolves to it whenever it is there.
pub proof fn law_restore_reads_backup(p: ActiveProfile, backup: Seq<char>, source: Seq<char>, found: Seq<bool>)
    requires
        p.name is Some || (p.environment@.len() == 0 && p.machine_id@.len() == 0),
        found.len() == candidates(p, backup, source).len(),
        found.len() > 0 ==> found[0],
    ensures
        candidates(p, backup, source).len() > 0,
        candidates(p, backup, source)[0].1 == path_join(backup_dir_of(p, backup), source),
        kept(candidates(p, backup, source), found).len() > 0,
        kept(candidates(p, backup, source), found)[0].1 == path_join(backup_dir_of(p, backup), source),
{
    let c = candidates(p, backup, source);
    let d = layer_dirs(p, backup);
    assert(c.len() == d.len());
    assert(c[0] == (d[0].0, path_join(d[0].1, source)));
    law_first_existing_most_specific(c, found, 0);
}

} // verus!
