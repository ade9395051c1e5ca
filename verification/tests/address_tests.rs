use quickserve::address::{
    choose_bind_target, external_ip_or_wildcard, find_interface_ip, get_ip_from_interface_name,
    resolve_bind_target, BindSpec, BindTarget, Interface,
};
use quickserve::config::{bind, config_or_default, Config, LoadedConfig};
use quickserve::startup::StartupError;

fn interface(name: &str, addresses: &[&str]) -> Interface {
    Interface {
        name: name.to_string(),
        addresses: addresses.iter().map(|a| a.to_string()).collect(),
    }
}

fn host() -> Vec<Interface> {
    vec![
        interface("lo", &["127.0.0.1", "::1"]),
        interface("eth0", &["192.168.1.10"]),
        interface("tun0", &[]),
        interface("eth0", &["10.9.9.9"]),
    ]
}

fn names(list: &[&str]) -> Vec<String> {
    list.iter().map(|n| n.to_string()).collect()
}

#[test]
fn interface_is_found_by_name() {
    assert_eq!(find_interface_ip(&host(), "eth0"), Some("192.168.1.10".to_string()));
    assert_eq!(find_interface_ip(&host(), "lo"), Some("127.0.0.1".to_string()));
}

#[test]
fn unknown_interface_is_not_found() {
    assert_eq!(find_interface_ip(&host(), "wlan0"), None);
    assert_eq!(find_interface_ip(&host(), ""), None);
    assert_eq!(find_interface_ip(&vec![], "eth0"), None);
}

#[test]
fn interface_without_address_is_not_found() {
    assert_eq!(find_interface_ip(&host(), "tun0"), None);
}

#[test]
fn bind_argument_naming_an_interface_resolves_to_its_address() {
    let target = choose_bind_target(&Some("eth0".to_string()), &names(&["external"]), &host());
    assert_eq!(target, Some(BindTarget::Address("192.168.1.10".to_string())));
}

#[test]
fn bind_argument_naming_no_interface_is_taken_as_the_address() {
    let target = choose_bind_target(&Some("10.1.2.3".to_string()), &names(&["eth0"]), &host());
    assert_eq!(target, Some(BindTarget::Address("10.1.2.3".to_string())));
}

#[test]
fn empty_bind_list_selects_every_interface() {
    assert_eq!(choose_bind_target(&None, &vec![], &host()), Some(BindTarget::External));
}

#[test]
fn external_entry_selects_every_interface() {
    let target = choose_bind_target(&None, &names(&["external", "eth0"]), &host());
    assert_eq!(target, Some(BindTarget::External));
}

#[test]
fn first_usable_entry_of_the_bind_list_wins() {
    let target = choose_bind_target(&None, &names(&["wlan0", "eth0", "external"]), &host());
    assert_eq!(target, Some(BindTarget::Address("192.168.1.10".to_string())));
    let target = choose_bind_target(&None, &names(&["wlan0", "external", "eth0"]), &host());
    assert_eq!(target, Some(BindTarget::External));
}

#[test]
fn bind_list_without_usable_entry_gives_no_target() {
    assert_eq!(choose_bind_target(&None, &names(&["wlan0", "10.0.0.1"]), &host()), None);
}

#[test]
fn unconfigured_server_binds_the_wildcard_and_shows_the_external_address() {
    let (config, _) = config_or_default(LoadedConfig::Missing);
    let configured = bind(&config);
    assert!(configured.is_empty());
    let target = choose_bind_target(&None, &configured, &host()).unwrap();
    assert_eq!(target, BindTarget::External);
    assert!(target.needs_external_ip());
    let spec = BindSpec::new(None, configured, target, Some("203.0.113.7".to_string()));
    assert_eq!(spec.resolved_ip, "0.0.0.0");
    assert_eq!(spec.display_address, "203.0.113.7");
}

#[test]
fn unconfigured_server_starts_without_listing_interfaces() {
    let configured = bind(&Config::empty());
    assert_eq!(resolve_bind_target(&None, &configured), Ok(BindTarget::External));
    let spec = BindSpec::new(None, configured, BindTarget::External, None);
    assert_eq!(spec.resolved_ip, "0.0.0.0");
    assert_eq!(spec.display_address, "0.0.0.0");
}

#[test]
fn external_address_falls_back_to_the_wildcard() {
    assert_eq!(external_ip_or_wildcard(Some("203.0.113.7".to_string())), "203.0.113.7");
    assert_eq!(external_ip_or_wildcard(Some(String::new())), "");
    assert_eq!(external_ip_or_wildcard(None), "0.0.0.0");
}

#[test]
fn binding_of_an_address_shows_that_address() {
    let spec = BindSpec::new(
        Some("eth0".to_string()),
        names(&["external"]),
        BindTarget::Address("192.168.1.10".to_string()),
        Some("203.0.113.7".to_string()),
    );
    assert_eq!(spec.requested_interface, Some("eth0".to_string()));
    assert_eq!(spec.configured_binds, names(&["external"]));
    assert_eq!(spec.resolved_ip, "192.168.1.10");
    assert_eq!(spec.display_address, "192.168.1.10");
}

#[test]
fn external_binding_listens_on_the_wildcard_and_shows_the_external_address() {
    let spec = BindSpec::new(None, vec![], BindTarget::External, Some("203.0.113.7".to_string()));
    assert_eq!(spec.resolved_ip, "0.0.0.0");
    assert_eq!(spec.display_address, "203.0.113.7");
}

#[test]
fn external_binding_without_lookup_shows_the_wildcard() {
    let spec = BindSpec::new(None, vec![], BindTarget::External, None);
    assert_eq!(spec.resolved_ip, "0.0.0.0");
    assert_eq!(spec.display_address, "0.0.0.0");
}

#[test]
fn only_the_external_target_needs_the_lookup() {
    assert!(BindTarget::External.needs_external_ip());
    assert!(!BindTarget::Address("10.0.0.1".to_string()).needs_external_ip());
}

#[test]
fn resolution_without_need_of_interfaces() {
    assert_eq!(resolve_bind_target(&None, &vec![]), Ok(BindTarget::External));
    assert_eq!(resolve_bind_target(&None, &names(&["external", "eth0"])), Ok(BindTarget::External));
}

#[test]
fn resolution_of_an_address_on_this_host() {
    let name = "name-of-no-interface-203.0.113.250".to_string();
    match resolve_bind_target(&Some(name.clone()), &vec![]) {
        Ok(target) => assert_eq!(target, BindTarget::Address(name)),
        Err(error) => assert_eq!(error, StartupError::InterfacesUnavailable),
    }
}

#[test]
fn resolution_of_an_unusable_bind_list_on_this_host() {
    match resolve_bind_target(&None, &names(&["name-of-no-interface"])) {
        Ok(target) => panic!("unexpected target {:?}", target),
        Err(error) => assert!(
            error == StartupError::NoBindAddress || error == StartupError::InterfacesUnavailable
        ),
    }
}

#[test]
fn lookup_of_an_unknown_interface_on_this_host() {
    match get_ip_from_interface_name("name-of-no-interface") {
        Ok(ip) => assert_eq!(ip, None),
        Err(error) => assert_eq!(error, StartupError::InterfacesUnavailable),
    }
}
