//! The closed set of worker roles, their names, entry points and the order
//! in which they are launched and stopped.

use crate::text::same_text;
use vstd::prelude::*;

verus! {

/// One of the four backend workers that the supervisor runs.
#[derive(Clone, Copy, Debug, PartialEq, Eq, Structural)]
pub enum ServiceRole {
    Alden,
    Vault,
    Core,
    Synapse,
}

/// Number of worker roles.
pub const ROLE_COUNT: usize = 4;

/// The order in which the workers are launched: the most foundational first.
pub open spec fn launch_order() -> Seq<ServiceRole> {
    seq![ServiceRole::Alden, ServiceRole::Vault, ServiceRole::Core, ServiceRole::Synapse]
}

/// The order in which the workers are stopped: a worker that depends on
/// others goes first, the most foundational worker last.
pub open spec fn shutdown_order() -> Seq<ServiceRole> {
    seq![ServiceRole::Synapse, ServiceRole::Core, ServiceRole::Vault, ServiceRole::Alden]
}

impl ServiceRole {
    /// Position of the role in the dependency chain: `0` for the most
    /// foundational worker, growing with each layer built on top of it.
    pub open spec fn rank(self) -> nat {
        match self {
            ServiceRole::Alden => 0,
            ServiceRole::Vault => 1,
            ServiceRole::Core => 2,
            ServiceRole::Synapse => 3,
        }
    }

    /// `self` needs `other` to be up: `other` sits directly below `self` in
    /// the dependency chain.
    pub open spec fn depends_on(self, other: ServiceRole) -> bool {
        self.rank() == other.rank() + 1
    }

    /// `self` needs `other` to be up, directly or through the workers in
    /// between.  Every direct dependency is such a need.
    pub open spec fn needs(self, other: ServiceRole) -> bool {
        self.rank() > other.rank()
    }

    /// Position of the role in [`launch_order`].
    pub open spec fn launch_position(self) -> int {
        self.rank() as int
    }

    /// Position of the role in [`shutdown_order`].
    pub open spec fn shutdown_position(self) -> int {
        3 - self.rank()
    }

    /// The name under which the role is known to operators.
    pub open spec fn name_spec(self) -> Seq<char> {
        match self {
            ServiceRole::Alden => "alden"@,
            ServiceRole::Vault => "vault"@,
            ServiceRole::Core => "core"@,
            ServiceRole::Synapse => "synapse"@,
        }
    }

    /// The role that goes by `name`, if there is one.
    pub open spec fn named(name: Seq<char>) -> Option<ServiceRole> {
        if name == "alden"@ {
            Some(ServiceRole::Alden)
        } else if name == "vault"@ {
            Some(ServiceRole::Vault)
        } else if name == "core"@ {
            Some(ServiceRole::Core)
        } else if name == "synapse"@ {
            Some(ServiceRole::Synapse)
        } else {
            None
        }
    }

    /// The worker's entry point, relative to the resource directory.
    pub open spec fn script_spec(self) -> Seq<char> {
        match self {
            ServiceRole::Alden => "src/api/alden_api.py"@,
            ServiceRole::Vault => "src/vault/vault_api_server.py"@,
            ServiceRole::Core => "src/api/core_api.py"@,
            ServiceRole::Synapse => "src/api/synapse_api_server.py"@,
        }
    }

    /// The name under which the role is known to operators.
    pub fn name(&self) -> (name: &'static str)
        ensures
            name@ == self.name_spec(),
    {
        match self {
            ServiceRole::Alden => "alden",
            ServiceRole::Vault => "vault",
            ServiceRole::Core => "core",
            ServiceRole::Synapse => "synapse",
        }
    }

    /// The worker's entry point, relative to the resource directory.
    pub fn script_path(&self) -> (path: &'static str)
        ensures
            path@ == self.script_spec(),
    {
        match self {
            ServiceRole::Alden => "src/api/alden_api.py",
            ServiceRole::Vault => "src/vault/vault_api_server.py",
            ServiceRole::Core => "src/api/core_api.py",
            ServiceRole::Synapse => "src/api/synapse_api_server.py",
        }
    }

    /// The role that goes by `name`, if there is one.
    pub fn from_name(name: &str) -> (role: Option<ServiceRole>)
        ensures
            role == ServiceRole::named(name@),
            match role {
                Some(r) => r.name_spec() == name@,
                None => forall|r: ServiceRole| r.name_spec() != name@,
            },
    {
        if same_text(name, "alden") {
            Some(ServiceRole::Alden)
        } else if same_text(name, "vault") {
            Some(ServiceRole::Vault)
        } else if same_text(name, "core") {
            Some(ServiceRole::Core)
        } else if same_text(name, "synapse") {
            Some(ServiceRole::Synapse)
        } else {
            None
        }
    }

    /// The role launched at position `index`.
    pub fn launched_at(index: usize) -> (role: ServiceRole)
        requires
            index < ROLE_COUNT,
        ensures
            role == launch_order()[index as int],
            role.launch_position() == index,
    {
        if index == 0 {
            ServiceRole::Alden
        } else if index == 1 {
            ServiceRole::Vault
        } else if index == 2 {
            ServiceRole::Core
        } else {
            ServiceRole::Synapse
        }
    }

    /// The role stopped at position `index`.
    pub fn stopped_at(index: usize) -> (role: ServiceRole)
        requires
            index < ROLE_COUNT,
        ensures
            role == shutdown_order()[index as int],
            role.shutdown_position() == index,
    {
        if index == 0 {
            ServiceRole::Synapse
        } else if index == 1 {
            ServiceRole::Core
        } else if index == 2 {
            ServiceRole::Vault
        } else {
            ServiceRole::Alden
        }
    }
}

/// No two roles share a name, so a role is found again by its name.
pub proof fn lemma_names_distinct(a: ServiceRole, b: ServiceRole)
    requires
        a.name_spec() == b.name_spec(),
    ensures
        a == b,
        ServiceRole::named(a.name_spec()) == Some(a),
{
    reveal_strlit("alden");
    reveal_strlit("vault");
    reveal_strlit("core");
    reveal_strlit("synapse");
    assert("alden"@.len() == 5 && "alden"@[0] == 'a');
    assert("vault"@.len() == 5 && "vault"@[0] == 'v');
    assert("core"@.len() == 4);
    assert("synapse"@.len() == 7);
}

/// Every role sits in the shutdown order exactly at its shutdown position,
/// and in the launch order exactly at its launch position.
pub proof fn lemma_order_positions(role: ServiceRole)
    ensures
        0 <= role.shutdown_position() < shutdown_order().len(),
        shutdown_order()[role.shutdown_position()] == role,
        0 <= role.launch_position() < launch_order().len(),
        launch_order()[role.launch_position()] == role,
        shutdown_order().len() == ROLE_COUNT,
        launch_order().len() == ROLE_COUNT,
{
}

/// A worker is stopped strictly before every worker it needs, and launched
/// strictly after it.
pub proof fn lemma_dependents_stop_first(dependent: ServiceRole, dependency: ServiceRole)
    requires
        dependent.needs(dependency),
    ensures
        dependent.shutdown_position() < dependency.shutdown_position(),
        dependency.launch_position() < dependent.launch_position(),
        shutdown_order()[dependent.shutdown_position()] == dependent,
        shutdown_order()[dependency.shutdown_position()] == dependency,
{
}

} // verus!
