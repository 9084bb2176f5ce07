//! Port profiles and launch descriptors: which TCP port each worker listens
//! on in each environment, and what is needed to launch and watch it.

use crate::role::{launch_order, ServiceRole};
use crate::status::{health_url, health_url_spec};
use crate::text::same_text;
use vstd::prelude::*;

verus! {

/// A named environment that fixes the four worker ports.
#[derive(Clone, Copy, Debug, PartialEq, Eq, Structural)]
pub enum PortProfile {
    Default,
    Qa,
    Dev,
}

impl PortProfile {
    /// The port that `role` is assigned under this profile.
    pub open spec fn port_spec(self, role: ServiceRole) -> u16 {
        match (self, role) {
            (PortProfile::Default, ServiceRole::Core) => 8000,
            (PortProfile::Default, ServiceRole::Vault) => 8001,
            (PortProfile::Default, ServiceRole::Synapse) => 8002,
            (PortProfile::Default, ServiceRole::Alden) => 8888,
            (PortProfile::Qa, ServiceRole::Core) => 8010,
            (PortProfile::Qa, ServiceRole::Vault) => 8011,
            (PortProfile::Qa, ServiceRole::Synapse) => 8012,
            (PortProfile::Qa, ServiceRole::Alden) => 8898,
            (PortProfile::Dev, ServiceRole::Core) => 8020,
            (PortProfile::Dev, ServiceRole::Vault) => 8021,
            (PortProfile::Dev, ServiceRole::Synapse) => 8022,
            (PortProfile::Dev, ServiceRole::Alden) => 8908,
        }
    }

    /// The profile selected by the configured name: `qa` and `dev` select
    /// their profiles, anything else the default.
    pub open spec fn named(name: Seq<char>) -> PortProfile {
        if name == "qa"@ {
            PortProfile::Qa
        } else if name == "dev"@ {
            PortProfile::Dev
        } else {
            PortProfile::Default
        }
    }

    /// The four ports of the profile, in the order core, vault, synapse, alden.
    pub fn get_ports(&self) -> (ports: (u16, u16, u16, u16))
        ensures
            ports.0 == self.port_spec(ServiceRole::Core),
            ports.1 == self.port_spec(ServiceRole::Vault),
            ports.2 == self.port_spec(ServiceRole::Synapse),
            ports.3 == self.port_spec(ServiceRole::Alden),
    {
        match self {
            PortProfile::Default => (8000, 8001, 8002, 8888),
            PortProfile::Qa => (8010, 8011, 8012, 8898),
            PortProfile::Dev => (8020, 8021, 8022, 8908),
        }
    }

    /// The port that `role` is assigned under this profile.
    pub fn port_for(&self, role: ServiceRole) -> (port: u16)
        ensures
            port == self.port_spec(role),
    {
        let ports = self.get_ports();
        match role {
            ServiceRole::Core => ports.0,
            ServiceRole::Vault => ports.1,
            ServiceRole::Synapse => ports.2,
            ServiceRole::Alden => ports.3,
        }
    }

    /// The profile selected by the configured name.
    pub fn from_name(name: &str) -> (profile: PortProfile)
        ensures
            profile == PortProfile::named(name@),
    {
        if same_text(name, "qa") {
            PortProfile::Qa
        } else if same_text(name, "dev") {
            PortProfile::Dev
        } else {
            PortProfile::Default
        }
    }
}

/// What is needed to launch and watch one worker.
#[derive(Debug, PartialEq, Eq)]
pub struct ServiceConfig {
    pub name: ServiceRole,
    /// The worker's entry point, relative to the resource directory.
    pub script_path: &'static str,
    pub port: u16,
    pub health_check_url: String,
}

/// What a [`ServiceConfig`] holds, with texts as character sequences.
pub struct ServiceConfigView {
    pub name: ServiceRole,
    pub script_path: Seq<char>,
    pub port: u16,
    pub health_check_url: Seq<char>,
}

impl View for ServiceConfig {
    type V = ServiceConfigView;

    open spec fn view(&self) -> ServiceConfigView {
        ServiceConfigView {
            name: self.name,
            script_path: self.script_path@,
            port: self.port,
            health_check_url: self.health_check_url@,
        }
    }
}

/// The descriptors of a list, with texts as character sequences.
pub open spec fn config_views(configs: Seq<ServiceConfig>) -> Seq<ServiceConfigView> {
    configs.map_values(|config: ServiceConfig| config@)
}

impl PortProfile {
    /// The descriptor of `role` under this profile.
    pub open spec fn descriptor_spec(self, role: ServiceRole) -> ServiceConfigView {
        ServiceConfigView {
            name: role,
            script_path: role.script_spec(),
            port: self.port_spec(role),
            health_check_url: health_url_spec(self.port_spec(role)),
        }
    }

    /// The descriptor of `role` under this profile.
    pub fn descriptor(&self, role: ServiceRole) -> (config: ServiceConfig)
        ensures
            config@ == self.descriptor_spec(role),
    {
        let port: u16 = self.port_for(role);
        ServiceConfig {
            name: role,
            script_path: role.script_path(),
            port,
            health_check_url: health_url(port),
        }
    }

    /// The descriptors of all workers under this profile, in launch order.
    pub fn descriptors(&self) -> (configs: Vec<ServiceConfig>)
        ensures
            config_views(configs@) == launch_order().map_values(
                |role: ServiceRole| self.descriptor_spec(role),
            ),
    {
        let mut configs: Vec<ServiceConfig> = Vec::new();
        configs.push(self.descriptor(ServiceRole::Alden));
        configs.push(self.descriptor(ServiceRole::Vault));
        configs.push(self.descriptor(ServiceRole::Core));
        configs.push(self.descriptor(ServiceRole::Synapse));
        assert(config_views(configs@) =~= launch_order().map_values(
            |role: ServiceRole| self.descriptor_spec(role),
        ));
        configs
    }
}

} // verus!
