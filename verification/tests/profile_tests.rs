use hearthlink_supervisor::profile::PortProfile;
use hearthlink_supervisor::role::ServiceRole;

#[test]
fn default_profile_ports() {
    assert_eq!(PortProfile::Default.get_ports(), (8000, 8001, 8002, 8888));
}

#[test]
fn qa_profile_ports() {
    assert_eq!(PortProfile::Qa.get_ports(), (8010, 8011, 8012, 8898));
}

#[test]
fn dev_profile_ports() {
    assert_eq!(PortProfile::Dev.get_ports(), (8020, 8021, 8022, 8908));
}

#[test]
fn port_for_follows_get_ports() {
    assert_eq!(PortProfile::Default.port_for(ServiceRole::Core), 8000);
    assert_eq!(PortProfile::Default.port_for(ServiceRole::Vault), 8001);
    assert_eq!(PortProfile::Default.port_for(ServiceRole::Synapse), 8002);
    assert_eq!(PortProfile::Default.port_for(ServiceRole::Alden), 8888);
    assert_eq!(PortProfile::Qa.port_for(ServiceRole::Core), 8010);
    assert_eq!(PortProfile::Qa.port_for(ServiceRole::Alden), 8898);
    assert_eq!(PortProfile::Dev.port_for(ServiceRole::Synapse), 8022);
    assert_eq!(PortProfile::Dev.port_for(ServiceRole::Vault), 8021);
}

#[test]
fn profile_is_selected_by_name() {
    assert_eq!(PortProfile::from_name("qa"), PortProfile::Qa);
    assert_eq!(PortProfile::from_name("dev"), PortProfile::Dev);
}

#[test]
fn unknown_profile_names_select_the_default() {
    assert_eq!(PortProfile::from_name(""), PortProfile::Default);
    assert_eq!(PortProfile::from_name("default"), PortProfile::Default);
    assert_eq!(PortProfile::from_name("QA"), PortProfile::Default);
    assert_eq!(PortProfile::from_name("qa "), PortProfile::Default);
    assert_eq!(PortProfile::from_name("production"), PortProfile::Default);
}

#[test]
fn descriptor_of_a_role() {
    let config = PortProfile::Qa.descriptor(ServiceRole::Vault);
    assert_eq!(config.name, ServiceRole::Vault);
    assert_eq!(config.script_path, "src/vault/vault_api_server.py");
    assert_eq!(config.port, 8011);
    assert_eq!(config.health_check_url, "http://127.0.0.1:8011/health");
}

#[test]
fn descriptors_come_in_launch_order() {
    let configs = PortProfile::Default.descriptors();
    let names: Vec<ServiceRole> = configs.iter().map(|c| c.name).collect();
    assert_eq!(
        names,
        vec![ServiceRole::Alden, ServiceRole::Vault, ServiceRole::Core, ServiceRole::Synapse]
    );
    let scripts: Vec<&str> = configs.iter().map(|c| c.script_path).collect();
    assert_eq!(
        scripts,
        vec![
            "src/api/alden_api.py",
            "src/vault/vault_api_server.py",
            "src/api/core_api.py",
            "src/api/synapse_api_server.py"
        ]
    );
    let ports: Vec<u16> = configs.iter().map(|c| c.port).collect();
    assert_eq!(ports, vec![8888, 8001, 8000, 8002]);
    let urls: Vec<&str> = configs.iter().map(|c| c.health_check_url.as_str()).collect();
    assert_eq!(
        urls,
        vec![
            "http://127.0.0.1:8888/health",
            "http://127.0.0.1:8001/health",
            "http://127.0.0.1:8000/health",
            "http://127.0.0.1:8002/health"
        ]
    );
}
