//! The network configuration model.
//!
//! A thin wrapper around the network state engine. The engine's state is
//! opaque here; what the library itself decides — which static routes a
//! default gateway needs — is written and proved over the library's own
//! route type, and handed to the engine through one trusted setter.

use vstd::prelude::*;
use vstd::string::StringExecFns;

verus! {

/// The failures of the network configuration layer.
#[derive(Debug)]
pub enum NetworkStateError {
    UnknownInterface(String),
    MissingIpv4Settings,
    InvalidIpAddr(String),
}

impl NetworkStateError {
    /// A short description of the failure.
    pub fn message(&self) -> (r: String)
        ensures
            *self matches NetworkStateError::UnknownInterface(n)
                ==> r@ == "Unknown network interface "@ + n@,
            *self is MissingIpv4Settings ==> r@ == "Missing IPv4 data"@,
            *self matches NetworkStateError::InvalidIpAddr(a)
                ==> r@ == "Invalid IP address "@ + a@,
    {
        match self {
            NetworkStateError::UnknownInterface(n) => "Unknown network interface ".to_string()
                .concat(n.as_str()),
            NetworkStateError::MissingIpv4Settings => "Missing IPv4 data".to_string(),
            NetworkStateError::InvalidIpAddr(a) => "Invalid IP address ".to_string().concat(
                a.as_str(),
            ),
        }
    }
}

/// One desired static route, as the library states it: the fields the
/// route logic reads and writes, held as plain values. `absent` marks an
/// entry that deletes matching routes instead of adding one.
#[derive(Debug, Clone)]
pub struct StaticRoute {
    pub destination: Option<String>,
    pub next_hop_iface: Option<String>,
    pub next_hop_addr: Option<String>,
    pub absent: bool,
}

/// The route entry that deletes a previously configured default gateway
/// through the given device: the whole-network destination, the device,
/// no next-hop address, marked absent.
pub open spec fn is_gateway_removal(e: StaticRoute, device: Seq<char>) -> bool {
    &&& e.destination matches Some(d) && d@ == "0.0.0.0/0"@
    &&& e.next_hop_iface matches Some(i) && i@ == device
    &&& e.next_hop_addr is None
    &&& e.absent
}

/// The route entry that makes `address` the default gateway through the
/// given device.
pub open spec fn is_gateway_route(e: StaticRoute, address: Seq<char>, device: Seq<char>) -> bool {
    &&& e.destination matches Some(d) && d@ == "0.0.0.0/0"@
    &&& e.next_hop_iface matches Some(i) && i@ == device
    &&& e.next_hop_addr matches Some(a) && a@ == address
    &&& !e.absent
}

#[verifier::external_type_specification]
#[verifier::external_body]
pub struct ExNetworkState(nmstate::NetworkState);

#[verifier::external_type_specification]
#[verifier::external_body]
pub struct ExInterfaces(nmstate::Interfaces);

#[verifier::external_type_specification]
#[verifier::external_body]
pub struct ExInterface(nmstate::Interface);

#[verifier::external_type_specification]
#[verifier::external_body]
pub struct ExDnsState(nmstate::DnsState);

#[verifier::external_type_specification]
#[verifier::external_body]
pub struct ExRoutes(nmstate::Routes);

/// The desired static route entries of an engine state, in order, as the
/// library's route type; what the trusted setter below writes.
pub uninterp spec fn config_routes(s: nmstate::NetworkState) -> Seq<StaticRoute>;

/// The names of the interfaces an engine state knows.
pub uninterp spec fn iface_names(s: nmstate::NetworkState) -> Set<Seq<char>>;

/// The name of one interface.
pub uninterp spec fn iface_name(i: nmstate::Interface) -> Seq<char>;

/// Network configuration, including interfaces, DNS settings and routes:
/// a wrapper around the state engine's own state type.
#[derive(Debug)]
pub struct NetworkConfig(pub nmstate::NetworkState);

impl NetworkConfig {
    /// Returns the known interfaces. Relies on the `interfaces` field of
    /// `nmstate::NetworkState`.
    #[verifier::external_body]
    pub fn interfaces(&self) -> &nmstate::Interfaces {
        &self.0.interfaces
    }

    /// Returns the DNS configuration. Relies on the `dns` field of
    /// `nmstate::NetworkState`.
    #[verifier::external_body]
    pub fn dns(&self) -> &Option<nmstate::DnsState> {
        &self.0.dns
    }

    /// Returns the DNS configuration as mutable. Relies on the `dns`
    /// field of `nmstate::NetworkState`.
    #[verifier::external_body]
    pub fn dns_mut(&mut self) -> &mut Option<nmstate::DnsState> {
        &mut self.0.dns
    }

    /// Returns the configured static routes. Relies on the `routes`
    /// field of `nmstate::NetworkState`.
    #[verifier::external_body]
    pub fn routes(&mut self) -> &mut nmstate::Routes {
        &mut self.0.routes
    }

    /// Returns the configured static routes as mutable. Relies on the
    /// `routes` field of `nmstate::NetworkState`.
    #[verifier::external_body]
    pub fn routes_mut(&mut self) -> &mut nmstate::Routes {
        &mut self.0.routes
    }

    /// Replaces the desired static routes with the given entries.
    /// Relies on assigning `config` in `nmstate::Routes`: the desired
    /// route entries become exactly the given ones, in order.
    #[verifier::external_body]
    fn set_config_routes(&mut self, entries: Vec<StaticRoute>)
        ensures
            config_routes(final(self).0) == entries@,
    {
        let converted = entries
            .into_iter()
            .map(|e| {
                let mut entry = nmstate::RouteEntry::new();
                entry.destination = e.destination;
                entry.next_hop_iface = e.next_hop_iface;
                entry.next_hop_addr = e.next_hop_addr;
                entry.state = if e.absent { Some(nmstate::RouteState::Absent) } else { None };
                entry
            })
            .collect();
        self.0.routes.config = Some(converted);
    }

    /// Makes `address` the default gateway through the device of the
    /// given name.
    ///
    /// The desired routes become exactly two entries: first one that
    /// deletes whatever default gateway the device had — the engine
    /// wants the old route marked absent before the new one — then the
    /// new gateway route.
    pub fn set_default_gateway(&mut self, address: &str, device_name: &str) -> (r: Result<
        (),
        NetworkStateError,
    >)
        ensures
            r is Ok,
            config_routes(final(self).0).len() == 2,
            is_gateway_removal(config_routes(final(self).0)[0], device_name@),
            is_gateway_route(config_routes(final(self).0)[1], address@, device_name@),
    {
        let removal = StaticRoute {
            destination: Some("0.0.0.0/0".to_string()),
            next_hop_iface: Some(device_name.to_string()),
            next_hop_addr: None,
            absent: true,
        };
        let gateway = StaticRoute {
            destination: Some("0.0.0.0/0".to_string()),
            next_hop_iface: Some(device_name.to_string()),
            next_hop_addr: Some(address.to_string()),
            absent: false,
        };
        let mut entries: Vec<StaticRoute> = Vec::new();
        entries.push(removal);
        entries.push(gateway);
        self.set_config_routes(entries);
        Ok(())
    }

    /// Updates a network device.
    ///
    /// If a device of the same name exists, both are merged into one;
    /// otherwise the given device is added. Relies on
    /// `nmstate::Interfaces::update`: the known names gain the device's
    /// name and keep all others.
    #[verifier::external_body]
    pub fn update_device(&mut self, device: nmstate::Interface) -> (r: Result<
        (),
        NetworkStateError,
    >)
        ensures
            r is Ok,
            iface_names(final(self).0) == iface_names(old(self).0).insert(iface_name(device)),
    {
        let mut devices = nmstate::Interfaces::new();
        devices.push(device.clone());
        self.0.interfaces.update(&devices);
        Ok(())
    }

    /// Returns the network interface with the given name, of whatever
    /// kind. Relies on `nmstate::Interfaces::get_iface`: it finds an
    /// interface exactly when one of that name is known, and the found
    /// one carries that name.
    #[verifier::external_body]
    pub fn get_iface(&self, name: &str) -> (r: Option<&nmstate::Interface>)
        ensures
            (r is Some) == iface_names(self.0).contains(name@),
            r matches Some(i) ==> iface_name(*i) == name@,
    {
        self.0.interfaces.get_iface(name, nmstate::InterfaceType::Unknown)
    }
}

} // verus!
