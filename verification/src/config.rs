//! The server's network identity and link secrets.  Loading this from a
//! configuration file is the daemon's business; the library only reads
//! the plain values.

use vstd::prelude::*;

verus! {

/// The mathematical shape of the server configuration.
#[verifier::ext_equal]
pub ghost struct ServerInfoModel {
    pub ip: Seq<char>,
    pub port: u64,
    pub server_hostname: Seq<char>,
    pub network_name: Seq<char>,
    pub operators: Seq<Seq<char>>,
    pub server_incoming_passwords: Seq<Seq<char>>,
    pub server_outgoing_password: Seq<char>,
}

/// Network identity, operator list, and the link passwords: the outgoing
/// one this server presents, and the set it accepts from peers.
#[derive(Clone, Debug)]
pub struct ServerInfo {
    pub ip: String,
    pub port: u64,
    pub server_hostname: String,
    pub network_name: String,
    pub operators: Vec<String>,
    pub server_incoming_passwords: Vec<String>,
    pub server_outgoing_password: String,
}

impl View for ServerInfo {
    type V = ServerInfoModel;

    open spec fn view(&self) -> ServerInfoModel {
        ServerInfoModel {
            ip: self.ip@,
            port: self.port,
            server_hostname: self.server_hostname@,
            network_name: self.network_name@,
            operators: Seq::new(self.operators@.len(), |i: int| self.operators@[i]@),
            server_incoming_passwords: Seq::new(
                self.server_incoming_passwords@.len(),
                |i: int| self.server_incoming_passwords@[i]@,
            ),
            server_outgoing_password: self.server_outgoing_password@,
        }
    }
}

} // verus!
