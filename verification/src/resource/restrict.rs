//! Restrictions on where a repository may be used.

use vstd::prelude::*;
use crate::resource::tomlconfig::{
    Dependencies0_2_2, entries_or_none, hashmap_to_option_hashmap, kept, Restrictor0_2_2,
    RestrictorSettings0_2_2, RestrictRequirement0_2_2, SettingsModel,
};

verus! {

/// A condition that restricts usage of a repository.
#[derive(Debug, Clone, Copy, PartialEq, Eq, Hash, Structural)]
pub enum Condition {
    Windows,
    Linux,
    Unix,
    MacOs,
}

/// Requirement severity of a condition.
#[derive(Debug, Clone, Copy, PartialEq, Eq, Structural)]
pub enum Requirement {
    Deny,
    Allow,
    Require,
}

/// Settings for a condition.
#[derive(Debug, Clone, PartialEq, Eq)]
pub struct Settings {
    pub inclusion: Requirement,
    pub dependencies: Dependencies0_2_2,
}

impl DeepView for Condition {
    type V = Condition;

    open spec fn deep_view(&self) -> Condition {
        *self
    }
}

/// What settings are, mathematically.
pub struct SettingsView {
    pub inclusion: Requirement,
    pub dependencies: Seq<(Seq<Seq<char>>, Seq<char>)>,
}

impl DeepView for Settings {
    type V = SettingsView;

    open spec fn deep_view(&self) -> SettingsView {
        SettingsView { inclusion: self.inclusion, dependencies: self.dependencies.deep_view() }
    }
}

/// What the settings of a record say: no requirement means `Allow`, and
/// absent dependencies mean none.
pub open spec fn settings_read(record: SettingsModel) -> SettingsView {
    SettingsView {
        inclusion: inclusion_of(record.inclusion),
        dependencies: entries_or_none(record.dependencies),
    }
}

/// What the record of settings says: `Allow` is not stated, and empty
/// dependencies are left out.
pub open spec fn settings_record(settings: SettingsView) -> SettingsModel {
    SettingsModel {
        inclusion: inclusion_record(settings.inclusion),
        dependencies: kept(settings.dependencies),
    }
}

impl Condition {
    /// The condition as it stands in a record.
    pub open spec fn restrictor(self) -> Restrictor0_2_2 {
        match self {
            Condition::Windows => Restrictor0_2_2::Windows,
            Condition::Linux => Restrictor0_2_2::Linux,
            Condition::Unix => Restrictor0_2_2::Unix,
            Condition::MacOs => Restrictor0_2_2::MacOs,
        }
    }

    /// The condition that stands in a record.
    pub open spec fn of_restrictor(restrictor: Restrictor0_2_2) -> Condition {
        match restrictor {
            Restrictor0_2_2::Windows => Condition::Windows,
            Restrictor0_2_2::Linux => Condition::Linux,
            Restrictor0_2_2::Unix => Condition::Unix,
            Restrictor0_2_2::MacOs => Condition::MacOs,
        }
    }
}

impl Requirement {
    /// The requirement as it stands in a record.
    pub open spec fn record(self) -> RestrictRequirement0_2_2 {
        match self {
            Requirement::Deny => RestrictRequirement0_2_2::Deny,
            Requirement::Allow => RestrictRequirement0_2_2::Allow,
            Requirement::Require => RestrictRequirement0_2_2::Require,
        }
    }

    /// The requirement that stands in a record.
    pub open spec fn of_record(requirement: RestrictRequirement0_2_2) -> Requirement {
        match requirement {
            RestrictRequirement0_2_2::Deny => Requirement::Deny,
            RestrictRequirement0_2_2::Allow => Requirement::Allow,
            RestrictRequirement0_2_2::Require => Requirement::Require,
        }
    }
}

impl From<Condition> for Restrictor0_2_2 {
    fn from(value: Condition) -> (restrictor: Restrictor0_2_2) {
        match value {
            Condition::Linux => Restrictor0_2_2::Linux,
            Condition::MacOs => Restrictor0_2_2::MacOs,
            Condition::Unix => Restrictor0_2_2::Unix,
            Condition::Windows => Restrictor0_2_2::Windows,
        }
    }
}

impl vstd::std_specs::convert::FromSpecImpl<Condition> for Restrictor0_2_2 {
    open spec fn obeys_from_spec() -> bool {
        true
    }

    open spec fn from_spec(value: Condition) -> Restrictor0_2_2 {
        value.restrictor()
    }
}

impl From<Restrictor0_2_2> for Condition {
    fn from(value: Restrictor0_2_2) -> (condition: Condition) {
        match value {
            Restrictor0_2_2::Linux => Condition::Linux,
            Restrictor0_2_2::Windows => Condition::Windows,
            Restrictor0_2_2::MacOs => Condition::MacOs,
            Restrictor0_2_2::Unix => Condition::Unix,
        }
    }
}

impl vstd::std_specs::convert::FromSpecImpl<Restrictor0_2_2> for Condition {
    open spec fn obeys_from_spec() -> bool {
        true
    }

    open spec fn from_spec(value: Restrictor0_2_2) -> Condition {
        Condition::of_restrictor(value)
    }
}

impl From<Requirement> for RestrictRequirement0_2_2 {
    fn from(value: Requirement) -> (requirement: RestrictRequirement0_2_2) {
        match value {
            Requirement::Allow => RestrictRequirement0_2_2::Allow,
            Requirement::Deny => RestrictRequirement0_2_2::Deny,
            Requirement::Require => RestrictRequirement0_2_2::Require,
        }
    }
}

impl vstd::std_specs::convert::FromSpecImpl<Requirement> for RestrictRequirement0_2_2 {
    open spec fn obeys_from_spec() -> bool {
        true
    }

    open spec fn from_spec(value: Requirement) -> RestrictRequirement0_2_2 {
        value.record()
    }
}

impl From<RestrictRequirement0_2_2> for Requirement {
    fn from(value: RestrictRequirement0_2_2) -> (requirement: Requirement) {
        match value {
            RestrictRequirement0_2_2::Allow => Requirement::Allow,
            RestrictRequirement0_2_2::Deny => Requirement::Deny,
            RestrictRequirement0_2_2::Require => Requirement::Require,
        }
    }
}

impl vstd::std_specs::convert::FromSpecImpl<RestrictRequirement0_2_2> for Requirement {
    open spec fn obeys_from_spec() -> bool {
        true
    }

    open spec fn from_spec(value: RestrictRequirement0_2_2) -> Requirement {
        Requirement::of_record(value)
    }
}

/// A condition and its place in a record stand for each other.
pub proof fn lemma_condition_round_trip(condition: Condition, restrictor: Restrictor0_2_2)
    ensures
        Condition::of_restrictor(condition.restrictor()) == condition,
        Condition::of_restrictor(restrictor).restrictor() == restrictor,
{
}

/// A requirement and its place in a record stand for each other.
pub proof fn lemma_requirement_round_trip(
    requirement: Requirement,
    record: RestrictRequirement0_2_2,
)
    ensures
        Requirement::of_record(requirement.record()) == requirement,
        Requirement::of_record(record).record() == record,
{
}

/// The requirement that a record states, `Allow` where it states none.
pub open spec fn inclusion_of(record: Option<RestrictRequirement0_2_2>) -> Requirement {
    match record {
        Some(requirement) => Requirement::of_record(requirement),
        None => Requirement::Allow,
    }
}

/// The requirement as a record states it: `Allow` is not stated.
pub open spec fn inclusion_record(requirement: Requirement) -> Option<RestrictRequirement0_2_2> {
    if requirement == Requirement::Allow {
        None
    } else {
        Some(requirement.record())
    }
}

impl Settings {
    /// What the settings of a record say: no requirement means `Allow`,
    /// and absent dependencies mean none.
    pub fn from_record(record: RestrictorSettings0_2_2) -> (settings: Settings)
        ensures
            settings.deep_view() == settings_read(record.deep_view()),
    {
        let inclusion = match record.inclusion {
            Some(requirement) => Requirement::from(requirement),
            None => Requirement::Allow,
        };
        let dependencies = match record.dependencies {
            Some(dependencies) => dependencies,
            None => Vec::new(),
        };
        assert(dependencies.deep_view() =~= entries_or_none(record.dependencies.deep_view()));
        Settings { inclusion, dependencies }
    }

    /// The settings as they stand in a record: `Allow` is not stated, and
    /// empty dependencies are left out.
    pub fn into_record(self) -> (record: RestrictorSettings0_2_2)
        ensures
            record.deep_view() == settings_record(self.deep_view()),
            record.dependencies is None <==> self.dependencies@.len() == 0,
    {
        let inclusion = match self.inclusion {
            Requirement::Allow => None,
            other => Some(RestrictRequirement0_2_2::from(other)),
        };
        RestrictorSettings0_2_2 {
            inclusion,
            dependencies: hashmap_to_option_hashmap(self.dependencies),
        }
    }
}

/// Settings come back from their record as they went in.
pub proof fn lemma_settings_round_trip(settings: SettingsView)
    ensures
        settings_read(settings_record(settings)) == settings,
{
    assert(entries_or_none(kept(settings.dependencies)) =~= settings.dependencies);
}

} // verus!
