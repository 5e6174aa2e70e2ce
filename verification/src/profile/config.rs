//! The profile configuration: the profiles that exist, by name, with their
//! descriptions.
use vstd::prelude::*;
use crate::registries::{Registry, lists_ids_in_order, strs_of};

verus! {

/// A profile: what it is for, if that was said.
#[derive(Debug, Clone)]
pub struct ProfileDefinition {
    pub description: Option<String>,
}

/// The profiles by name, and the version of the configuration format.
#[derive(Debug, Clone)]
pub struct ProfileConfig {
    pub version: String,
    pub profiles: Registry<ProfileDefinition>,
}

impl ProfileConfig {
    /// The profiles as a map from name to definition.
    pub open spec fn view(&self) -> Map<Seq<char>, ProfileDefinition> {
        self.profiles.view()
    }

    /// No name occurs twice.
    pub open spec fn wf(&self) -> bool {
        self.profiles.wf()
    }

    /// A configuration of the given version with no profiles.
    pub fn new(version: String) -> (r: Self)
        ensures
            r.wf(),
            r.version == version,
            r.view() == Map::<Seq<char>, ProfileDefinition>::empty(),
    {
        ProfileConfig { version, profiles: Registry::new() }
    }

    /// Whether a profile of that name exists.
    pub fn profile_exists(&self, name: &str) -> (r: bool)
        requires
            self.wf(),
        ensures
            r == self.view().contains_key(name@),
    {
        self.profiles.get_entry(name).is_some()
    }

    /// The profile of that name, if any.
    pub fn get_profile(&self, name: &str) -> (r: Option<&ProfileDefinition>)
        requires
            self.wf(),
        ensures
            r matches Some(d) ==> self.view().contains_key(name@) && *d == self.view()[name@],
            r is None ==> !self.view().contains_key(name@),
    {
        self.profiles.get_entry(name)
    }

    /// Adds (or replaces) the profile `name`.
    pub fn create_profile(&mut self, name: String, description: Option<String>)
        requires
            old(self).wf(),
        ensures
            final(self).wf(),
            final(self).version == old(self).version,
            final(self).view() == old(self).view().insert(name@, ProfileDefinition { description }),
    {
        self.profiles.add_entry(name, ProfileDefinition { description });
    }

    /// Removes the profile `name`, giving back its definition.
    pub fn delete_profile(&mut self, name: &str) -> (r: Option<ProfileDefinition>)
        requires
            old(self).wf(),
        ensures
            final(self).wf(),
            final(self).version == old(self).version,
            final(self).view() == old(self).view().remove(name@),
            r matches Some(d) ==> old(self).view().contains_key(name@) && d == old(self).view()[name@],
            r is None ==> !old(self).view().contains_key(name@),
    {
        self.profiles.remove_entry(name)
    }

    /// The names of the profiles, in order.
    pub fn list_profiles(&self) -> (r: Vec<String>)
        requires
            self.wf(),
        ensures
            lists_ids_in_order(strs_of(r@), self.view()),
    {
        self.profiles.sorted_ids()
    }
}

} // verus!
