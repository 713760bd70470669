//! Names and ids of actions and modules.

use std::hash::{DefaultHasher, Hash, Hasher};
use vstd::prelude::*;
use vstd::std_specs::hash::DefaultHasherAdditionalSpecFns;

use crate::strings::str_eq;

verus! {

/// What `<str as Hash>::hash` writes into a hasher for `name`, in order.
pub uninterp spec fn str_hash_writes(name: Seq<char>) -> Seq<Seq<u8>>;

/// `<str as Hash>::hash` into a `DefaultHasher`: it writes what
/// `str_hash_writes` names, a function of the name alone, after what the
/// hasher already holds.
#[verifier::external_body]
fn hash_str_into(name: &str, hasher: &mut DefaultHasher)
    ensures
        final(hasher)@ == old(hasher)@ + str_hash_writes(name@),
{
    name.hash(hasher)
}

/// The 64-bit hash of a name: `str`'s `Hash` fed to a fresh
/// `DefaultHasher`.
pub open spec fn spec_name_hash(name: Seq<char>) -> u64 {
    DefaultHasher::spec_finish(str_hash_writes(name))
}

/// Hashes a name with a fresh `DefaultHasher`.
pub fn name_hash(name: &str) -> (hash: u64)
    ensures
        hash == spec_name_hash(name@),
{
    let mut hasher = DefaultHasher::new();
    hash_str_into(name, &mut hasher);
    proof {
        assert(hasher@ =~= str_hash_writes(name@));
    }
    hasher.finish()
}

/// The name of an action.
#[derive(Clone, Copy, Debug, PartialEq, Eq, Hash)]
pub struct ActionName(&'static str);

/// The id of an action: the hash of its name.
#[derive(Clone, Copy, Debug, PartialEq, Eq, Structural)]
pub struct ActionId {
    pub hash: u64,
}

impl ActionId {
    /// The id of the action with the given name.
    pub fn from_action_name(name: &str) -> (id: ActionId)
        ensures
            id.hash == spec_name_hash(name@),
    {
        ActionId { hash: name_hash(name) }
    }
}

impl ActionName {
    /// The characters of the name.
    pub closed spec fn spec_str(&self) -> Seq<char> {
        self.0@
    }

    /// The action name `name`.
    pub fn from_str(name: &'static str) -> (this: ActionName)
        ensures
            this.spec_str() == name@,
    {
        ActionName(name)
    }

    /// The name as a string slice.
    pub fn as_str(&self) -> (name: &'static str)
        ensures
            name@ == self.spec_str(),
    {
        self.0
    }

    /// The id of the action.
    pub fn id(&self) -> (id: ActionId)
        ensures
            id.hash == spec_name_hash(self.spec_str()),
    {
        ActionId::from_action_name(self.0)
    }

    /// Whether two action names are the same.
    pub fn same_as(&self, other: &ActionName) -> (eq: bool)
        ensures
            eq == (self.spec_str() == other.spec_str()),
    {
        str_eq(self.0, other.0)
    }
}

/// The name of a module.
#[derive(Clone, Copy, Debug, PartialEq, Eq, Hash)]
pub struct ModuleName(&'static str);

/// The id of a module: the hash of its name.
#[derive(Clone, Copy, Debug, PartialEq, Eq, Structural)]
pub struct ModuleId {
    pub hash: u64,
}

impl ModuleId {
    /// The id of the module with the given name.
    pub fn from_module_name(name: &str) -> (id: ModuleId)
        ensures
            id.hash == spec_name_hash(name@),
    {
        ModuleId { hash: name_hash(name) }
    }
}

impl ModuleName {
    /// The characters of the name.
    pub closed spec fn spec_str(&self) -> Seq<char> {
        self.0@
    }

    /// The module name `name`.
    pub fn from_str(name: &'static str) -> (this: ModuleName)
        ensures
            this.spec_str() == name@,
    {
        ModuleName(name)
    }

    /// The name as a string slice.
    pub fn as_str(&self) -> (name: &'static str)
        ensures
            name@ == self.spec_str(),
    {
        self.0
    }

    /// The id of the module.
    pub fn id(&self) -> (id: ModuleId)
        ensures
            id.hash == spec_name_hash(self.spec_str()),
    {
        ModuleId::from_module_name(self.0)
    }

    /// Whether two module names are the same.
    pub fn same_as(&self, other: &ModuleName) -> (eq: bool)
        ensures
            eq == (self.spec_str() == other.spec_str()),
    {
        str_eq(self.0, other.0)
    }
}

/// The name of the autocommand group of a module's action:
/// `nomad-<module>/<action>`.
pub open spec fn spec_augroup_name(module: Seq<char>, action: Seq<char>) -> Seq<char> {
    "nomad-"@ + module + "/"@ + action
}

/// The name of the autocommand group of an action of a module.
pub fn augroup_name(module: ModuleName, action: ActionName) -> (name: String)
    ensures
        name@ == spec_augroup_name(module.spec_str(), action.spec_str()),
{
    let mut name = String::from_str("nomad-");
    name.append(module.as_str());
    name.append("/");
    name.append(action.as_str());
    name
}

} // verus!
