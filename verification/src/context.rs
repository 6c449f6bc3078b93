//! The filters and profiles that one run can refer to.

use crate::error::{ErrorView, RglError, RglResult};
use crate::filter::FilterDefinition;
use crate::profile::Profile;
use vstd::hash_map::StringHashMap;
use vstd::prelude::*;

verus! {

/// The index of one invocation: every known filter definition and profile by
/// its name, and the name of the profile that the run was asked for.
pub struct RunContext {
    root_profile: String,
    filter_definitions: StringHashMap<FilterDefinition>,
    profiles: StringHashMap<Profile>,
}

impl RunContext {
    /// The name of the profile that the run was asked for.
    pub closed spec fn root(&self) -> Seq<char> {
        self.root_profile@
    }

    /// The filter definitions by name.
    pub closed spec fn filters(&self) -> Map<Seq<char>, FilterDefinition> {
        self.filter_definitions@
    }

    /// The profiles by name.
    pub closed spec fn known_profiles(&self) -> Map<Seq<char>, Profile> {
        self.profiles@
    }

    /// The context of a run of `root_profile` that knows no filter and no
    /// profile yet.
    pub fn new(root_profile: &str) -> (context: Self)
        ensures
            context.root() == root_profile@,
            context.filters() == Map::<Seq<char>, FilterDefinition>::empty(),
            context.known_profiles() == Map::<Seq<char>, Profile>::empty(),
    {
        RunContext {
            root_profile: root_profile.to_owned(),
            filter_definitions: StringHashMap::new(),
            profiles: StringHashMap::new(),
        }
    }

    /// Makes `definition` known under `name`, in place of an earlier
    /// definition of that name.
    pub fn add_filter(&mut self, name: String, definition: FilterDefinition)
        ensures
            final(self).filters() == old(self).filters().insert(name@, definition),
            final(self).known_profiles() == old(self).known_profiles(),
            final(self).root() == old(self).root(),
    {
        self.filter_definitions.insert(name, definition);
    }

    /// Makes `profile` known under `name`, in place of an earlier profile of
    /// that name.
    pub fn add_profile(&mut self, name: String, profile: Profile)
        ensures
            final(self).known_profiles() == old(self).known_profiles().insert(name@, profile),
            final(self).filters() == old(self).filters(),
            final(self).root() == old(self).root(),
    {
        self.profiles.insert(name, profile);
    }

    /// The name of the profile that the run was asked for.
    pub fn root_profile(&self) -> (name: &String)
        ensures
            name@ == self.root(),
    {
        &self.root_profile
    }

    /// The definition of the filter `name`, or the error that names it as
    /// unknown.
    pub fn get_filter_def(&self, name: &str) -> (found: RglResult<&FilterDefinition>)
        ensures
            found is Ok <==> self.filters().contains_key(name@),
            found matches Ok(definition) ==> *definition == self.filters()[name@],
            found matches Err(error) ==> error@ == (ErrorView::UnknownFilter { filter_name: name@ }),
    {
        match self.filter_definitions.get(name) {
            Some(definition) => Ok(definition),
            None => Err(RglError::UnknownFilter { filter_name: name.to_owned() }),
        }
    }

    /// The profile `name`, or the error that names it as unknown.
    pub fn get_profile(&self, name: &str) -> (found: RglResult<&Profile>)
        ensures
            found is Ok <==> self.known_profiles().contains_key(name@),
            found matches Ok(profile) ==> *profile == self.known_profiles()[name@],
            found matches Err(error) ==> error@ == (ErrorView::UnknownProfile {
                profile_name: name@,
            }),
    {
        match self.profiles.get(name) {
            Some(profile) => Ok(profile),
            None => Err(RglError::UnknownProfile { profile_name: name.to_owned() }),
        }
    }
}

} // verus!
