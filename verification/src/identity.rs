//! The one gateway daemon of a machine: a loopback port, and what is derived
//! from it.

use crate::text::{decimal, decimal_string, lemma_decimal_is_injective};
use vstd::prelude::*;

verus! {

/// The port on which the gateway daemon listens.
pub const GATEWAY_PORT: u16 = 18789;

/// Which daemon is meant. Probing, launching and every URL go through one
/// value of this type, and so through one port.
#[derive(Clone, Copy, Debug, PartialEq, Eq, Structural)]
pub struct DaemonIdentity {
    pub port: u16,
}

impl DaemonIdentity {
    /// The gateway daemon on its well-known port.
    pub fn gateway() -> (identity: DaemonIdentity)
        ensures
            identity.port == GATEWAY_PORT,
    {
        DaemonIdentity { port: GATEWAY_PORT }
    }

    /// The port as the daemon's command line and the URLs write it.
    pub open spec fn port_text(self) -> Seq<char> {
        decimal(self.port as nat)
    }

    /// The address of the daemon's HTTP surface: `http://127.0.0.1:<port>/`.
    pub open spec fn base_url_text(self) -> Seq<char> {
        "http://127.0.0.1:"@ + self.port_text() + "/"@
    }

    /// The socket address that a liveness probe connects to: `127.0.0.1:<port>`.
    pub open spec fn probe_address_text(self) -> Seq<char> {
        "127.0.0.1:"@ + self.port_text()
    }

    /// Writes the base URL.
    pub fn base_url(&self) -> (url: String)
        ensures
            url@ == self.base_url_text(),
    {
        let mut url = String::from_str("http://127.0.0.1:");
        let port = decimal_string(self.port);
        url.append(port.as_str());
        url.append("/");
        url
    }

    /// Writes the address to probe.
    pub fn probe_address(&self) -> (address: String)
        ensures
            address@ == self.probe_address_text(),
    {
        let mut address = String::from_str("127.0.0.1:");
        let port = decimal_string(self.port);
        address.append(port.as_str());
        address
    }
}

/// The address to probe and the base URL name the same port, and name it
/// fully: two daemons that share either text are one daemon.
pub proof fn law_one_port_everywhere(a: DaemonIdentity, b: DaemonIdentity)
    ensures
        a.base_url_text() == "http://"@ + a.probe_address_text() + "/"@,
        a.probe_address_text() == b.probe_address_text() ==> a == b,
        a.base_url_text() == b.base_url_text() ==> a == b,
{
    reveal_strlit("http://127.0.0.1:");
    reveal_strlit("http://");
    reveal_strlit("127.0.0.1:");
    reveal_strlit("/");
    let host = "127.0.0.1:"@;
    let scheme = "http://127.0.0.1:"@;
    assert(a.base_url_text() =~= "http://"@ + a.probe_address_text() + "/"@);
    if a.probe_address_text() == b.probe_address_text() {
        assert(a.port_text() =~= a.probe_address_text().subrange(
            host.len() as int,
            a.probe_address_text().len() as int,
        ));
        assert(b.port_text() =~= b.probe_address_text().subrange(
            host.len() as int,
            b.probe_address_text().len() as int,
        ));
        lemma_decimal_is_injective(a.port as nat, b.port as nat);
    }
    if a.base_url_text() == b.base_url_text() {
        assert(a.port_text() =~= a.base_url_text().subrange(
            scheme.len() as int,
            a.base_url_text().len() - 1,
        ));
        assert(b.port_text() =~= b.base_url_text().subrange(
            scheme.len() as int,
            b.base_url_text().len() - 1,
        ));
        lemma_decimal_is_injective(a.port as nat, b.port as nat);
    }
}

} // verus!
