//! Plain data carried across the library boundary: host records, probe
//! results and status values, plus the list operations the host store needs.
//!
//! The embedding application persists `Server` records and performs the
//! network probes; the functions here do the record-keeping arithmetic and
//! pin down every field of the values they build.

use vstd::prelude::*;
use vstd::string::*;
use crate::text::dec_digits;

verus! {

/// One registered remote host, as the host store keeps it.
#[derive(Debug)]
pub struct Server {
    pub id: String,
    pub name: String,
    pub ip: String,
    pub ssh_user: String,
    pub ssh_port: u16,
    pub auth_method: String,
    pub password: Option<String>,
    pub ssh_key_path: Option<String>,
    pub ssh_key: String,
    pub server_type: String,
    pub status: String,
    pub mac_address: Option<String>,
    pub wol_enabled: Option<bool>,
    pub shutdown_command: Option<String>,
}

/// Outcome of a reachability probe against one host.
#[derive(Debug)]
pub struct PingResult {
    pub is_online: bool,
    pub response_time_ms: Option<u64>,
    pub error_message: Option<String>,
}

/// Outcome of a power action (wake or shutdown) or of a network test.
#[derive(Debug)]
pub struct PowerResult {
    pub success: bool,
    pub message: String,
    pub details: Option<String>,
}

/// The probe succeeded within the connect timeout.
pub fn ping_success(elapsed_ms: u64) -> (r: PingResult)
    ensures
        r.is_online,
        r.response_time_ms == Some(elapsed_ms),
        r.error_message is None,
{
    PingResult { is_online: true, response_time_ms: Some(elapsed_ms), error_message: None }
}

/// The probe failed; the connection error is carried verbatim.
pub fn ping_failure(error: String) -> (r: PingResult)
    ensures
        !r.is_online,
        r.response_time_ms is None,
        r.error_message == Some(error),
{
    PingResult { is_online: false, response_time_ms: None, error_message: Some(error) }
}

/// The `host:port` form a connect probe dials.
pub open spec fn probe_address_view(host: Seq<char>, port: nat) -> Seq<char> {
    host + seq![':'] + dec_digits(port)
}

/// Builds the `host:port` address string for a reachability probe.
pub fn probe_address(host: &str, port: u16) -> (r: String)
    ensures
        r@ == probe_address_view(host@, port as nat),
{
    let mut s = String::from_str(host);
    s.append(":");
    s.append(crate::text::u64_to_string(port as u64).as_str());
    proof {
        reveal_strlit(":");
        assert(":"@ =~= seq![':']);
        assert(s@ =~= probe_address_view(host@, port as nat));
    }
    s
}

/// Appends a record to the host list, as saving a new host does.
pub fn add_server(servers: &mut Vec<Server>, server: Server)
    ensures
        final(servers)@ == old(servers)@.push(server),
{
    servers.push(server);
}

/// Keeping a record means its id differs from the one being deleted.
pub open spec fn keeps_id(id: Seq<char>) -> spec_fn(Server) -> bool {
    |s: Server| s.id@ != id
}

/// Removes every record whose id equals the given one, keeping the order of
/// the rest, as deleting a host does.
pub fn delete_server_from_list(servers: Vec<Server>, id: &String) -> (r: Vec<Server>)
    ensures
        r@ == servers@.filter(keeps_id(id@)),
{
    let mut kept: Vec<Server> = Vec::new();
    let mut i: usize = 0;
    proof {
        reveal(Seq::filter);
        assert(servers@.subrange(0, 0) =~= Seq::<Server>::empty());
    }
    while i < servers.len()
        invariant
            i <= servers.len(),
            kept@ == servers@.subrange(0, i as int).filter(keeps_id(id@)),
        decreases servers.len() - i,
    {
        let keep = {
            let entry = &servers[i];
            !entry.id.eq(id)
        };
        proof {
            reveal(Seq::filter);
            let prefix = servers@.subrange(0, i as int);
            let next = servers@.subrange(0, i + 1 as int);
            assert(next.drop_last() =~= prefix);
            assert(next.last() == servers@[i as int]);
        }
        if keep {
            let entry = clone_server(&servers[i]);
            kept.push(entry);
        }
        i = i + 1;
    }
    proof {
        assert(servers@.subrange(0, servers@.len() as int) =~= servers@);
    }
    kept
}

/// Copies one host record field by field.
pub fn clone_server(s: &Server) -> (r: Server)
    ensures
        r == *s,
{
    Server {
        id: s.id.clone(),
        name: s.name.clone(),
        ip: s.ip.clone(),
        ssh_user: s.ssh_user.clone(),
        ssh_port: s.ssh_port,
        auth_method: s.auth_method.clone(),
        password: clone_opt_string(&s.password),
        ssh_key_path: clone_opt_string(&s.ssh_key_path),
        ssh_key: s.ssh_key.clone(),
        server_type: s.server_type.clone(),
        status: s.status.clone(),
        mac_address: clone_opt_string(&s.mac_address),
        wol_enabled: s.wol_enabled,
        shutdown_command: clone_opt_string(&s.shutdown_command),
    }
}

/// Copies an optional string.
pub fn clone_opt_string(s: &Option<String>) -> (r: Option<String>)
    ensures
        r == *s,
{
    match s {
        Some(v) => Some(v.clone()),
        None => None,
    }
}

/// The file name an export is written under, from the day's date.
pub fn export_filename(date: &str) -> (r: String)
    ensures
        r@ == "devpulse-servers-"@ + date@ + ".json"@,
{
    let mut s = String::from_str("devpulse-servers-");
    s.append(date);
    s.append(".json");
    proof {
        assert(s@ =~= "devpulse-servers-"@ + date@ + ".json"@);
    }
    s
}

/// The file name the previous host list is backed up under before an
/// import replaces it, from a timestamp.
pub fn backup_filename(timestamp: &str) -> (r: String)
    ensures
        r@ == "servers-backup-"@ + timestamp@ + ".json"@,
{
    let mut s = String::from_str("servers-backup-");
    s.append(timestamp);
    s.append(".json");
    proof {
        assert(s@ =~= "servers-backup-"@ + timestamp@ + ".json"@);
    }
    s
}

/// How many records an imported list holds, as the import reports it.
pub fn imported_count(servers: &Vec<Server>) -> (r: u32)
    requires
        servers@.len() <= u32::MAX,
    ensures
        r == servers@.len(),
{
    servers.len() as u32
}

} // verus!
