//! The address resolver: which address the server binds, and which one it
//! shows to the user.

use crate::config::bind_entries;
use crate::startup::StartupError;
use crate::text::same_text;
use network_interface::NetworkInterfaceConfig;
use vstd::prelude::*;

verus! {

/// One network interface of the host: its name and the addresses it has, as
/// text, in the order in which the host lists them.
#[derive(Debug)]
pub struct Interface {
    pub name: String,
    pub addresses: Vec<String>,
}

/// The error of the interface listing.
#[verifier::external_type_specification]
#[verifier::external_body]
pub struct ExInterfaceError(network_interface::Error);

/// `network_interface::NetworkInterface::show`: the interfaces of this host
/// at this moment, each with its name and its addresses written as text.
/// Nothing is promised of the list.
#[verifier::external_body]
fn show_interfaces() -> (listed: Result<Vec<Interface>, network_interface::Error>) {
    let shown = network_interface::NetworkInterface::show()?;
    let mut interfaces = Vec::new();
    for item in shown {
        let addresses = item.addr.iter().map(|addr| addr.ip().to_string()).collect();
        interfaces.push(Interface { name: item.name, addresses });
    }
    Ok(interfaces)
}

/// The address of the interface called `name`: the first address of the
/// first interface of that name. Nothing where no interface has the name, or
/// where that interface has no address.
pub open spec fn interface_ip(interfaces: Seq<Interface>, name: Seq<char>) -> Option<Seq<char>>
    decreases interfaces.len(),
{
    if interfaces.len() == 0 {
        None
    } else if interfaces[0].name@ == name {
        if interfaces[0].addresses@.len() > 0 {
            Some(interfaces[0].addresses@[0]@)
        } else {
            None
        }
    } else {
        interface_ip(interfaces.skip(1), name)
    }
}

/// Looks the interface called `name` up in a list of interfaces.
pub fn find_interface_ip(interfaces: &Vec<Interface>, name: &str) -> (ip: Option<String>)
    ensures
        ip is Some == interface_ip(interfaces@, name@) is Some,
        ip matches Some(text) ==> Some(text@) == interface_ip(interfaces@, name@),
{
    let mut i: usize = 0;
    assert(interfaces@.skip(0) == interfaces@);
    while i < interfaces.len()
        invariant
            i <= interfaces.len(),
            interface_ip(interfaces@, name@) == interface_ip(interfaces@.skip(i as int), name@),
        decreases interfaces.len() - i,
    {
        let ghost rest = interfaces@.skip(i as int);
        assert(rest[0] == interfaces@[i as int]);
        assert(rest.skip(1) == interfaces@.skip(i + 1));
        if same_text(interfaces[i].name.as_str(), name) {
            if interfaces[i].addresses.len() > 0 {
                return Some(interfaces[i].addresses[0].clone());
            } else {
                return None;
            }
        }
        i += 1;
    }
    None
}

/// What the server binds.
#[derive(Debug, PartialEq, Eq)]
pub enum BindTarget {
    /// This address; it is also the one shown.
    Address(String),
    /// Every interface, through the wildcard address; the address shown is
    /// the one under which the host is seen from outside.
    External,
}

/// What a bind target holds.
pub enum BindTargetView {
    Address(Seq<char>),
    External,
}

impl View for BindTarget {
    type V = BindTargetView;

    open spec fn view(&self) -> BindTargetView {
        match self {
            BindTarget::Address(ip) => BindTargetView::Address(ip@),
            BindTarget::External => BindTargetView::External,
        }
    }
}

/// The word of the bind list that stands for the wildcard address.
pub open spec fn external_token() -> Seq<char> {
    "external"@
}

/// The target that a bind list selects: the first entry that is either the
/// word `external` or the name of an interface with an address.
pub open spec fn configured_target(
    configured: Seq<Seq<char>>,
    interfaces: Seq<Interface>,
) -> Option<BindTargetView>
    decreases configured.len(),
{
    if configured.len() == 0 {
        None
    } else if configured[0] == external_token() {
        Some(BindTargetView::External)
    } else {
        match interface_ip(interfaces, configured[0]) {
            Some(ip) => Some(BindTargetView::Address(ip)),
            None => configured_target(configured.skip(1), interfaces),
        }
    }
}

/// The target of the server. A bind argument wins: it is the name of an
/// interface, whose address is taken, or else the address itself. Without
/// one, an empty bind list selects every interface, and any other list the
/// target of its first usable entry.
pub open spec fn bind_target(
    requested: Option<Seq<char>>,
    configured: Seq<Seq<char>>,
    interfaces: Seq<Interface>,
) -> Option<BindTargetView> {
    match requested {
        Some(name) => Some(
            BindTargetView::Address(
                match interface_ip(interfaces, name) {
                    Some(ip) => ip,
                    None => name,
                },
            ),
        ),
        None => if configured.len() == 0 {
            Some(BindTargetView::External)
        } else {
            configured_target(configured, interfaces)
        },
    }
}

/// What `Option<String>` holds.
pub open spec fn text_of(value: Option<String>) -> Option<Seq<char>> {
    match value {
        Some(text) => Some(text@),
        None => None,
    }
}

/// What `Option<BindTarget>` holds.
pub open spec fn target_of(value: Option<BindTarget>) -> Option<BindTargetView> {
    match value {
        Some(target) => Some(target@),
        None => None,
    }
}

/// Resolves the bind argument and the configured bind list against the
/// interfaces of the host.
pub fn choose_bind_target(
    requested: &Option<String>,
    configured: &Vec<String>,
    interfaces: &Vec<Interface>,
) -> (target: Option<BindTarget>)
    ensures
        target_of(target) == bind_target(text_of(*requested), configured.deep_view(), interfaces@),
{
    match requested {
        Some(name) => {
            match find_interface_ip(interfaces, name.as_str()) {
                Some(ip) => Some(BindTarget::Address(ip)),
                None => Some(BindTarget::Address(name.clone())),
            }
        },
        None => {
            if configured.len() == 0 {
                return Some(BindTarget::External);
            }
            let ghost entries = configured.deep_view();
            let mut i: usize = 0;
            assert(entries.skip(0) == entries);
            while i < configured.len()
                invariant
                    i <= configured.len(),
                    configured.len() > 0,
                    *requested is None,
                    entries == configured.deep_view(),
                    configured_target(entries, interfaces@) == configured_target(
                        entries.skip(i as int),
                        interfaces@,
                    ),
                decreases configured.len() - i,
            {
                let ghost rest = entries.skip(i as int);
                assert(rest[0] == configured@[i as int]@);
                assert(rest.skip(1) == entries.skip(i + 1));
                if same_text(configured[i].as_str(), "external") {
                    return Some(BindTarget::External);
                }
                match find_interface_ip(interfaces, configured[i].as_str()) {
                    Some(ip) => {
                        return Some(BindTarget::Address(ip));
                    },
                    None => {},
                }
                i += 1;
            }
            None
        },
    }
}

/// The resolution needs the list of interfaces: there is a bind argument, or
/// the bind list starts with something else than the word `external`.
pub open spec fn needs_interfaces(requested: Option<Seq<char>>, configured: Seq<Seq<char>>) -> bool {
    requested is Some || (configured.len() > 0 && configured[0] != external_token())
}

/// Without the list of interfaces the target is every interface.
pub proof fn lemma_target_without_interfaces(
    requested: Option<Seq<char>>,
    configured: Seq<Seq<char>>,
    interfaces: Seq<Interface>,
)
    requires
        !needs_interfaces(requested, configured),
    ensures
        bind_target(requested, configured, interfaces) == Some(BindTargetView::External),
{
}

/// Where no bind argument is given and no bind address is configured, the
/// server binds the wildcard address and shows the external address; no
/// interface is looked up for that.
pub proof fn lemma_unconfigured_binds_wildcard(
    interfaces: Seq<Interface>,
    fetched: Option<Seq<char>>,
)
    ensures
        !needs_interfaces(None, bind_entries(Seq::empty())),
        bind_target(None, bind_entries(Seq::empty()), interfaces) == Some(
            BindTargetView::External,
        ),
        resolved_ip_of(BindTargetView::External) == wildcard_address(),
        display_address_of(BindTargetView::External, fetched) == external_display(fetched),
{
}

/// Resolves the bind argument and the configured bind list on this host. The
/// interfaces are listed only where the resolution needs them. It fails where
/// they cannot be listed, and where no entry of the bind list can be used.
pub fn resolve_bind_target(requested: &Option<String>, configured: &Vec<String>) -> (resolved:
    Result<BindTarget, StartupError>)
    ensures
        !needs_interfaces(text_of(*requested), configured.deep_view()) ==> (resolved matches Ok(
            target,
        ) && target@ == BindTargetView::External),
        resolved matches Ok(target) ==> exists|interfaces: Seq<Interface>|
            #[trigger] bind_target(text_of(*requested), configured.deep_view(), interfaces)
                == Some(target@),
        resolved matches Err(error) ==> error == StartupError::InterfacesUnavailable || (error
            == StartupError::NoBindAddress && exists|interfaces: Seq<Interface>|
            #[trigger] bind_target(text_of(*requested), configured.deep_view(), interfaces)
                is None),
{
    let needed = match requested {
        Some(_) => true,
        None => configured.len() > 0 && !same_text(configured[0].as_str(), "external"),
    };
    proof {
        if configured.len() > 0 {
            assert(configured.deep_view()[0] == configured@[0]@);
        }
    }
    let interfaces = if needed {
        match show_interfaces() {
            Ok(listed) => listed,
            Err(_) => {
                return Err(StartupError::InterfacesUnavailable);
            },
        }
    } else {
        Vec::new()
    };
    match choose_bind_target(requested, configured, &interfaces) {
        Some(target) => {
            assert(bind_target(text_of(*requested), configured.deep_view(), interfaces@) == Some(
                target@,
            ));
            Ok(target)
        },
        None => {
            assert(bind_target(text_of(*requested), configured.deep_view(), interfaces@) is None);
            Err(StartupError::NoBindAddress)
        },
    }
}

/// Looks an interface of this host up by its name.
pub fn get_ip_from_interface_name(name: &str) -> (found: Result<Option<String>, StartupError>)
    ensures
        found matches Ok(ip) ==> exists|interfaces: Seq<Interface>|
            #[trigger] interface_ip(interfaces, name@) == text_of(ip),
        found matches Err(error) ==> error == StartupError::InterfacesUnavailable,
{
    match show_interfaces() {
        Ok(listed) => {
            let ip = find_interface_ip(&listed, name);
            assert(interface_ip(listed@, name@) == text_of(ip));
            Ok(ip)
        },
        Err(_) => Err(StartupError::InterfacesUnavailable),
    }
}

/// The wildcard address, on which a server listens on every interface.
pub open spec fn wildcard_address() -> Seq<char> {
    "0.0.0.0"@
}

/// The address under which the host is seen from outside: what the lookup
/// returned, or the wildcard address where it failed.
pub open spec fn external_display(fetched: Option<Seq<char>>) -> Seq<char> {
    match fetched {
        Some(ip) => ip,
        None => wildcard_address(),
    }
}

/// Turns the outcome of the external address lookup into the address to
/// show. A failed lookup is no failure of the start.
pub fn external_ip_or_wildcard(fetched: Option<String>) -> (ip: String)
    ensures
        ip@ == external_display(text_of(fetched)),
{
    match fetched {
        Some(ip) => ip,
        None => "0.0.0.0".to_owned(),
    }
}

/// The resolved binding of the server.
#[derive(Debug)]
pub struct BindSpec {
    /// The bind argument, if one was given.
    pub requested_interface: Option<String>,
    /// The configured bind list.
    pub configured_binds: Vec<String>,
    /// The address that the server listens on.
    pub resolved_ip: String,
    /// The address that is shown to the user.
    pub display_address: String,
}

/// The address that is bound for a target.
pub open spec fn resolved_ip_of(target: BindTargetView) -> Seq<char> {
    match target {
        BindTargetView::Address(ip) => ip,
        BindTargetView::External => wildcard_address(),
    }
}

/// The address that is shown for a target; `fetched` is the outcome of the
/// external address lookup.
pub open spec fn display_address_of(target: BindTargetView, fetched: Option<Seq<char>>) -> Seq<
    char,
> {
    match target {
        BindTargetView::Address(ip) => ip,
        BindTargetView::External => external_display(fetched),
    }
}

impl BindTarget {
    /// The external address lookup is needed for this target only where the
    /// address shown is the external one.
    pub fn needs_external_ip(&self) -> (needed: bool)
        ensures
            needed == (self@ == BindTargetView::External),
    {
        match self {
            BindTarget::Address(_) => false,
            BindTarget::External => true,
        }
    }
}

impl BindSpec {
    /// The binding for a resolved target. `fetched` is the outcome of the
    /// external address lookup; it is read for the external target only.
    pub fn new(
        requested_interface: Option<String>,
        configured_binds: Vec<String>,
        target: BindTarget,
        fetched: Option<String>,
    ) -> (spec: BindSpec)
        ensures
            spec.requested_interface == requested_interface,
            spec.configured_binds == configured_binds,
            spec.resolved_ip@ == resolved_ip_of(target@),
            spec.display_address@ == display_address_of(target@, text_of(fetched)),
    {
        match target {
            BindTarget::Address(ip) => {
                let display_address = ip.clone();
                BindSpec { requested_interface, configured_binds, resolved_ip: ip, display_address }
            },
            BindTarget::External => BindSpec {
                requested_interface,
                configured_binds,
                resolved_ip: "0.0.0.0".to_owned(),
                display_address: external_ip_or_wildcard(fetched),
            },
        }
    }
}

} // verus!
