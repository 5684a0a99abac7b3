//! How the firmware follows the DHCP client: the interface address and the
//! default route it keeps, and the line it reports for each DHCP event.
use vstd::prelude::*;
use vstd::string::StringSliceAdditionalSpecFns;
use crate::bytes::append_bytes;
use crate::ipv4_text::{ipv4_text, lemma_ipv4_text_injective, write_ipv4};

verus! {

/// An IPv4 address with its prefix length.
#[derive(Clone, Copy, Debug, PartialEq, Eq)]
pub struct Ipv4Cidr {
    pub address: [u8; 4],
    pub prefix_len: u8,
}

/// A lease granted by the DHCP server.
#[derive(Clone, Copy, Debug, PartialEq, Eq)]
pub struct DhcpLease {
    pub address: Ipv4Cidr,
    pub router: Option<[u8; 4]>,
}

/// What the DHCP client reports.
#[derive(Clone, Copy, Debug, PartialEq, Eq)]
pub enum DhcpEvent {
    /// A lease was obtained or renewed.
    Configured(DhcpLease),
    /// The lease was lost.
    Deconfigured,
}

/// How the interface's default route changes.
#[derive(Clone, Copy, Debug, PartialEq, Eq)]
pub enum RouteChange {
    /// Leave the default route as it is.
    Keep,
    /// Make the given router the default route.
    Replace([u8; 4]),
    /// Remove the default route.
    Remove,
}

/// What the firmware does for one DHCP event.
pub struct DhcpReaction {
    /// The interface's address list afterwards: the lease's address, or none.
    pub address: Option<Ipv4Cidr>,
    /// The change to the default route.
    pub route: RouteChange,
    /// The line to print on the UART.
    pub report: Vec<u8>,
}

/// The addressing the firmware has given the interface.
#[derive(Clone, Copy, Debug, PartialEq, Eq)]
pub struct NetworkState {
    pub address: Option<Ipv4Cidr>,
    pub default_router: Option<[u8; 4]>,
}

/// Report line head for an obtained lease.
pub open spec fn dhcp_ok_head() -> Seq<u8> {
    "WIFI_DHCP_OK addr=".spec_bytes()
}

/// Report line for a lost lease.
pub open spec fn dhcp_down_line() -> Seq<u8> {
    "WIFI_DHCP_DOWN\r\n".spec_bytes()
}

/// Line terminator.
pub open spec fn crlf() -> Seq<u8> {
    "\r\n".spec_bytes()
}

/// The route change for an event: a lease with a router replaces the default
/// route, a lease without one leaves it, a lost lease removes it.
pub open spec fn route_change(event: DhcpEvent) -> RouteChange {
    match event {
        DhcpEvent::Configured(lease) => match lease.router {
            Some(router) => RouteChange::Replace(router),
            None => RouteChange::Keep,
        },
        DhcpEvent::Deconfigured => RouteChange::Remove,
    }
}

/// The interface address after an event.
pub open spec fn address_after(event: DhcpEvent) -> Option<Ipv4Cidr> {
    match event {
        DhcpEvent::Configured(lease) => Some(lease.address),
        DhcpEvent::Deconfigured => None,
    }
}

/// The report line of an event.
pub open spec fn report_line(event: DhcpEvent) -> Seq<u8> {
    match event {
        DhcpEvent::Configured(lease) => dhcp_ok_head() + ipv4_text(lease.address.address@) + crlf(),
        DhcpEvent::Deconfigured => dhcp_down_line(),
    }
}

/// The default route after applying a route change.
pub open spec fn router_after(router: Option<[u8; 4]>, change: RouteChange) -> Option<[u8; 4]> {
    match change {
        RouteChange::Keep => router,
        RouteChange::Replace(r) => Some(r),
        RouteChange::Remove => None,
    }
}

impl NetworkState {
    /// An interface with no address and no default route.
    pub fn new() -> (r: Self)
        ensures
            r.address is None,
            r.default_router is None,
    {
        NetworkState { address: None, default_router: None }
    }

    /// Follows one DHCP event: sets or clears the address, changes the default
    /// route, and returns what to do on the interface and what to report.
    pub fn on_dhcp_event(&mut self, event: DhcpEvent) -> (r: DhcpReaction)
        ensures
            r.address == address_after(event),
            r.route == route_change(event),
            r.report@ == report_line(event),
            final(self).address == address_after(event),
            final(self).default_router == router_after(old(self).default_router, route_change(event)),
    {
        let mut report: Vec<u8> = Vec::new();
        match event {
            DhcpEvent::Configured(lease) => {
                append_bytes(&mut report, "WIFI_DHCP_OK addr=".as_bytes());
                write_ipv4(&mut report, lease.address.address);
                append_bytes(&mut report, "\r\n".as_bytes());
                let route = match lease.router {
                    Some(router) => {
                        self.default_router = Some(router);
                        RouteChange::Replace(router)
                    },
                    None => RouteChange::Keep,
                };
                self.address = Some(lease.address);
                DhcpReaction { address: Some(lease.address), route, report }
            },
            DhcpEvent::Deconfigured => {
                append_bytes(&mut report, "WIFI_DHCP_DOWN\r\n".as_bytes());
                self.address = None;
                self.default_router = None;
                DhcpReaction { address: None, route: RouteChange::Remove, report }
            },
        }
    }
}

/// Law: the report line of an obtained lease identifies the leased address:
/// two leases whose report lines are equal lease the same address.
pub proof fn lemma_lease_report_identifies_address(first: DhcpLease, second: DhcpLease)
    requires
        report_line(DhcpEvent::Configured(first)) == report_line(DhcpEvent::Configured(second)),
    ensures
        first.address.address == second.address.address,
{
    let x = ipv4_text(first.address.address@);
    let y = ipv4_text(second.address.address@);
    let t = dhcp_ok_head() + x + crlf();
    let u = dhcp_ok_head() + y + crlf();
    assert(t.len() == u.len());
    assert(x.len() == y.len());
    let start = dhcp_ok_head().len() as int;
    assert(x =~= t.subrange(start, start + x.len()));
    assert(y =~= u.subrange(start, start + y.len()));
    lemma_ipv4_text_injective(first.address.address@, second.address.address@);
    assert(first.address.address@ =~= second.address.address@);
}


/// Law: a lease is installed as granted. After any `Configured(lease)` event
/// the interface address, in the reaction and in the state, is exactly the
/// leased CIDR, prefix length included; a lease with a router makes that
/// router the default route, a lease without one leaves the route as it was.
/// After a lost lease there is no address and no default route, whatever
/// came before.
pub proof fn lemma_lease_installed_as_granted(router: Option<[u8; 4]>, lease: DhcpLease)
    ensures
        address_after(DhcpEvent::Configured(lease)) == Some(lease.address),
        lease.router matches Some(r) ==> route_change(DhcpEvent::Configured(lease)) == RouteChange::Replace(r)
            && router_after(router, route_change(DhcpEvent::Configured(lease))) == Some(r),
        lease.router is None ==> route_change(DhcpEvent::Configured(lease)) == RouteChange::Keep
            && router_after(router, route_change(DhcpEvent::Configured(lease))) == router,
        address_after(DhcpEvent::Deconfigured) is None,
        route_change(DhcpEvent::Deconfigured) == RouteChange::Remove,
        router_after(router, route_change(DhcpEvent::Deconfigured)) is None,
{
}

/// Law: the report line of an obtained lease is `WIFI_DHCP_OK addr=`, the
/// leased address in dotted-decimal text, and a line end; the report of a
/// lost lease is `WIFI_DHCP_DOWN` and a line end.
pub proof fn lemma_dhcp_report_lines(lease: DhcpLease)
    ensures
        report_line(DhcpEvent::Configured(lease)) == "WIFI_DHCP_OK addr=".spec_bytes() + ipv4_text(
            lease.address.address@,
        ) + "\r\n".spec_bytes(),
        report_line(DhcpEvent::Deconfigured) == "WIFI_DHCP_DOWN\r\n".spec_bytes(),
{
}

} // verus!
