//! The orchestration service: a closed command protocol over the global
//! configuration, the persisted node registry and the Live-Node Directory.
//!
//! Work only the runtime can do — constructing a protocol engine,
//! publishing an address, tearing tasks down, removing a directory tree,
//! persisting configuration — crosses this boundary as plain values: the
//! caller hands finished engine builds in through [`CallEnv`] and carries
//! the [`Action`]s a command decides on back out.

use vstd::prelude::*;
use vstd::string::*;

use crate::config::{Config, LightningNodeBackendConfig, LightningNodeConfig};
use crate::database::{
    AdminDatabase, Node, PaginationRequest, PaginationResponse, Role, Status, ROLE_ADMIN,
    ROLE_USER,
    STATUS_RUNNING, STATUS_STOPPED,
};
use crate::directory::{NodeDirectory, NodeHandle};
use crate::error::CoreError;
use crate::hex_utils::{hex_of, hex_str};

verus! {

/// The closed command set: the service's only API.
pub enum AdminRequest {
    GetConfig {},
    UpdateConfig { electrum_url: String },
    GetStatus { pubkey: String },
    CreateAdmin { username: String, alias: String, passphrase: String, electrum_url: String, start: bool },
    StartAdmin { passphrase: String },
    CreateNode { username: String, alias: String, passphrase: String, start: bool },
    ListNodes { pagination: PaginationRequest },
    DeleteNode { pubkey: String },
    StartNode { pubkey: String, passphrase: String },
    StopNode { pubkey: String },
}

/// One success response per command.
#[derive(Debug)]
pub enum AdminResponse {
    GetConfig { electrum_url: String },
    UpdateConfig {},
    GetStatus {
        alias: Option<String>,
        created: bool,
        running: bool,
        authenticated: bool,
        pubkey: Option<String>,
        username: Option<String>,
        role: Option<u8>,
    },
    CreateAdmin { pubkey: String, macaroon: String, external_id: String, role: u8 },
    StartAdmin { pubkey: String, macaroon: String },
    CreateNode { pubkey: String, macaroon: String },
    ListNodes { nodes: Vec<Node>, pagination: PaginationResponse },
    DeleteNode {},
    StartNode { macaroon: String },
    StopNode {},
    Error(Error),
}

/// The single externally visible failure shape: a message, not a code.
#[derive(Debug)]
pub enum Error {
    Generic(String),
}

/// Whether a result is the wire error carrying this internal kind's message.
pub open spec fn is_wire_err<T>(r: Result<T, Error>, e: CoreError) -> bool {
    r matches Err(Error::Generic(m)) && m@ == e.spec_message()
}

fn wire_error(e: CoreError) -> (r: Error)
    ensures
        r matches Error::Generic(m) && m@ == e.spec_message(),
{
    Error::Generic(e.message())
}

/// A finished protocol-engine build, as plain values: the public identity
/// the engine derived from its key material, its serialized capability
/// token, and the runtime's keys for the engine and its background tasks.
pub struct EngineBuild {
    pub pubkey: String,
    pub macaroon: Vec<u8>,
    pub engine_id: u64,
    pub task_ids: Vec<u64>,
}

/// What a command may ask the runtime to do after it returns.
pub enum Action {
    /// Disconnect the engine's peers, halt background processing, abort
    /// every owned task; fire-and-forget.
    StopEngine { handle: NodeHandle },
    /// Remove a node's on-disk data directory tree.
    RemoveDir { path: String },
    /// Persist the mutated global configuration.
    SaveConfig,
}

/// The runtime context of one command: the host's published listening
/// address, the engine builds the factory has delivered (consumed front to
/// back as the command needs engines), and the actions the command asks
/// the runtime to perform.
pub struct CallEnv {
    pub listen_addr: String,
    pub engines: Vec<EngineBuild>,
    pub actions: Vec<Action>,
}

/// The instruction an engine factory needs for one node: its full node
/// configuration, and — for a tenant — the key of the running admin engine
/// whose routing resource the new engine must borrow.
pub struct EngineSpec {
    pub config: LightningNodeConfig,
    pub routing: Option<u64>,
}

/// An engine the factory delivered, reduced to what the protocol answers
/// with: derived public identity and serialized capability token.
pub struct BuiltEngine {
    pub pubkey: String,
    pub macaroon: Vec<u8>,
}

/// The orchestration service.
pub struct AdminService {
    pub data_dir: String,
    pub config: Config,
    pub node_directory: NodeDirectory,
    pub database: AdminDatabase,
}

/// The bytes of an identifier, most significant first.
pub open spec fn spec_u64_bytes(x: u64) -> Seq<u8> {
    seq![
        ((x / 0x100000000000000) % 256) as u8,
        ((x / 0x1000000000000) % 256) as u8,
        ((x / 0x10000000000) % 256) as u8,
        ((x / 0x100000000) % 256) as u8,
        ((x / 0x1000000) % 256) as u8,
        ((x / 0x10000) % 256) as u8,
        ((x / 0x100) % 256) as u8,
        (x % 256) as u8,
    ]
}

/// The stable opaque directory key minted for a record identifier.
pub open spec fn spec_external_id(id: u64) -> Seq<char> {
    hex_of(spec_u64_bytes(id))
}

fn external_id_string(id: u64) -> (r: String)
    ensures
        r@ == spec_external_id(id),
{
    let mut bytes: Vec<u8> = Vec::new();
    bytes.push(((id / 0x100000000000000) % 256) as u8);
    bytes.push(((id / 0x1000000000000) % 256) as u8);
    bytes.push(((id / 0x10000000000) % 256) as u8);
    bytes.push(((id / 0x100000000) % 256) as u8);
    bytes.push(((id / 0x1000000) % 256) as u8);
    bytes.push(((id / 0x10000) % 256) as u8);
    bytes.push(((id / 0x100) % 256) as u8);
    bytes.push((id % 256) as u8);
    proof {
        assert(bytes@ =~= spec_u64_bytes(id));
    }
    hex_str(bytes.as_slice())
}

/// The path of a node's on-disk data directory.
pub open spec fn spec_data_dir_path(data_dir: Seq<char>, network: Seq<char>, external_id: Seq<char>) -> Seq<char> {
    data_dir + "/"@ + network + "/"@ + external_id
}

/// Relies on portpicker::pick_unused_port: a port the operating system
/// currently reports free, or nothing when none could be found. The draw
/// depends on machine state, so nothing more is assumed of it.
#[verifier::external_body]
fn pick_candidate_port() -> (r: Option<u16>) {
    portpicker::pick_unused_port()
}

/// Draw candidate ports until one is free of the registry's recorded
/// ports; after too many failed draws, report exhaustion rather than spin.
fn allocate_port(database: &AdminDatabase) -> (r: Result<u16, CoreError>)
    ensures
        r matches Ok(p) ==> !database.spec_port_in_use(p),
        r matches Err(e) ==> e == CoreError::PortsExhausted,
{
    let mut tries: u64 = 0;
    while tries < 1024
        invariant
            tries <= 1024,
        decreases 1024 - tries,
    {
        match pick_candidate_port() {
            Some(port) => {
                if !database.port_in_use(port) {
                    return Ok(port);
                }
            },
            None => {},
        }
        tries = tries + 1;
    }
    Err(CoreError::PortsExhausted)
}

/// Consume the next engine build the factory delivered, if any.
fn take_engine(env: &mut CallEnv) -> (r: Option<EngineBuild>)
    ensures
        final(env).listen_addr == old(env).listen_addr,
        final(env).actions == old(env).actions,
        old(env).engines@.len() == 0 ==> r is None && *final(env) == *old(env),
        old(env).engines@.len() > 0 ==> r == Some(old(env).engines@[0]) && final(env).engines@
            == old(env).engines@.skip(1),
{
    if env.engines.len() == 0 {
        return None;
    }
    let b = env.engines.remove(0);
    proof {
        assert(final(env).engines@ =~= old(env).engines@.skip(1));
    }
    Some(b)
}

fn clone_bytes(v: &Vec<u8>) -> (r: Vec<u8>)
    ensures
        r@ == v@,
{
    let mut out: Vec<u8> = Vec::new();
    let mut i: usize = 0;
    while i < v.len()
        invariant
            i <= v@.len(),
            out@ == v@.subrange(0, i as int),
        decreases v@.len() - i,
    {
        out.push(v[i]);
        proof {
            assert(out@ =~= v@.subrange(0, i + 1 as int));
        }
        i = i + 1;
    }
    proof {
        assert(out@ =~= v@);
    }
    out
}

/// The admin engine is currently running: the earliest admin record's
/// identity stands in the Live-Node Directory.
pub open spec fn spec_admin_running(s: AdminService) -> bool {
    exists|i: int|
        #[trigger] s.database.spec_is_first_admin(i) && s.node_directory.spec_contains(
            s.database.nodes@[i].pubkey@,
        )
}

/// Whether the routing resource a record's engine needs is available: an
/// admin engine never needs one; a tenant engine needs the admin engine
/// running.
pub open spec fn spec_routing_ok(s: AdminService, node: Node) -> bool {
    node.role != ROLE_USER || (s.database.spec_has_admin() && spec_admin_running(s))
}

/// `db1` is `db0` with the record carrying `n`'s identifier replaced by
/// `n`; a record with an unknown identifier leaves `db1 == db0`.
pub open spec fn spec_db_with_updated(db0: AdminDatabase, db1: AdminDatabase, n: Node) -> bool {
    &&& db1.next_id == db0.next_id
    &&& db1.nodes@.len() == db0.nodes@.len()
    &&& forall|i: int|
        0 <= i < db0.nodes@.len() && (#[trigger] db0.nodes@[i]).id == n.id ==> db1.nodes@[i] == n
    &&& forall|i: int|
        0 <= i < db0.nodes@.len() && (#[trigger] db0.nodes@[i]).id != n.id ==> db1.nodes@[i]
            == db0.nodes@[i]
}

/// `db1` is `db0` plus one freshly inserted record with exactly these
/// fields, under the identifier `db0` was about to assign.
pub open spec fn spec_created_at(db0: AdminDatabase, db1: AdminDatabase, username: Seq<char>, alias: Seq<char>, network: Seq<char>, addr: Seq<char>, role_int: u8, port: u16, pubkey: Seq<char>, status: u8) -> bool {
    &&& db1.next_id == db0.next_id + 1
    &&& db1.nodes@.len() == db0.nodes@.len() + 1
    &&& forall|i: int| 0 <= i < db0.nodes@.len() ==> #[trigger] db1.nodes@[i] == db0.nodes@[i]
    &&& ({
        let n = db1.nodes@[db0.nodes@.len() as int];
        &&& n.id == db0.next_id
        &&& n.external_id@ == spec_external_id(db0.next_id)
        &&& n.username@ == username
        &&& n.alias@ == alias
        &&& n.network@ == network
        &&& n.listen_addr@ == addr
        &&& n.listen_port == port
        &&& n.pubkey@ == pubkey
        &&& n.status == status
        &&& n.role == role_int
    })
}

/// Appending a non-admin record moves no admin facts: the admin lookup and
/// the earliest-admin indices read the same.
proof fn lemma_append_non_admin(db0: AdminDatabase, db1: AdminDatabase)
    requires
        db1.nodes@.len() == db0.nodes@.len() + 1,
        forall|i: int| 0 <= i < db0.nodes@.len() ==> #[trigger] db1.nodes@[i] == db0.nodes@[i],
        db1.nodes@[db0.nodes@.len() as int].role != ROLE_ADMIN,
    ensures
        db1.spec_has_admin() == db0.spec_has_admin(),
        forall|i: int| #[trigger] db1.spec_is_first_admin(i) <==> db0.spec_is_first_admin(i),
{
    let len0 = db0.nodes@.len() as int;
    if db1.spec_has_admin() {
        let i = choose|i: int|
            0 <= i < db1.nodes@.len() && (#[trigger] db1.nodes@[i]).role == ROLE_ADMIN;
        assert(i < len0);
        assert(db0.nodes@[i].role == ROLE_ADMIN);
    }
    if db0.spec_has_admin() {
        let i = choose|i: int|
            0 <= i < db0.nodes@.len() && (#[trigger] db0.nodes@[i]).role == ROLE_ADMIN;
        assert(db1.nodes@[i].role == ROLE_ADMIN);
    }
    assert forall|i: int| #[trigger] db1.spec_is_first_admin(i) implies db0.spec_is_first_admin(
        i,
    ) by {
        assert(i < len0);
        assert forall|j: int| 0 <= j < i implies (#[trigger] db0.nodes@[j]).role
            != ROLE_ADMIN by {
            assert(db1.nodes@[j] == db0.nodes@[j]);
            assert(db1.nodes@[j].role != ROLE_ADMIN);
        }
    }
    assert forall|i: int| #[trigger] db0.spec_is_first_admin(i) implies db1.spec_is_first_admin(
        i,
    ) by {
        assert(db1.nodes@[i] == db0.nodes@[i]);
        assert forall|j: int| 0 <= j < i implies (#[trigger] db1.nodes@[j]).role
            != ROLE_ADMIN by {
            assert(db1.nodes@[j] == db0.nodes@[j]);
            assert(db0.nodes@[j].role != ROLE_ADMIN);
        }
    }
}

/// The engine configuration `c` is the one this service derives for `node`.
pub open spec fn spec_node_config_for(s: AdminService, node: Node, passphrase: Seq<char>, c: LightningNodeConfig) -> bool {
    &&& c.backend == s.config.backend
    &&& c.data_dir@ == spec_data_dir_path(s.data_dir@, s.config.network@, node.external_id@)
    &&& c.ldk_peer_listening_port == node.listen_port
    &&& c.ldk_announced_listen_addr@.len() == 0
    &&& c.ldk_announced_node_name matches Some(n) && n@ == node.alias@
    &&& c.network == s.config.network
    &&& c.passphrase@ == passphrase
    &&& c.external_router == (node.role == ROLE_USER)
}

impl AdminService {
    /// Both shared structures are well-formed.
    pub open spec fn wf(self) -> bool {
        self.node_directory.wf() && self.database.wf()
    }

    pub fn new(data_dir: &str, config: Config, node_directory: NodeDirectory, database: AdminDatabase) -> (r: AdminService)
        ensures
            r.data_dir@ == data_dir@,
            r.config == config,
            r.node_directory == node_directory,
            r.database == database,
    {
        AdminService {
            data_dir: String::from_str(data_dir),
            config,
            node_directory,
            database,
        }
    }

    /// The record registered under a public identity, if any.
    pub fn get_node_details(&self, pubkey: String) -> (r: Result<Option<Node>, Error>)
        ensures
            r matches Ok(opt) && (opt is Some <==> self.database.spec_has_pubkey(pubkey@)),
            r matches Ok(opt) && (opt matches Some(n) ==> exists|i: int|
                #[trigger] self.database.spec_is_first_with_pubkey(i, pubkey@) && n
                    == self.database.nodes@[i]),
    {
        Ok(self.database.get_node_by_pubkey(&pubkey))
    }

    fn get_node_config(&self, node: &Node, passphrase: String) -> (c: LightningNodeConfig)
        ensures
            spec_node_config_for(*self, *node, passphrase@, c),
    {
        let external_router = node.is_user();
        let data_dir = self
            .data_dir
            .clone()
            .concat("/")
            .concat(self.config.network.as_str())
            .concat("/")
            .concat(node.external_id.as_str());
        proof {
            assert(data_dir@ =~= spec_data_dir_path(
                self.data_dir@,
                self.config.network@,
                node.external_id@,
            ));
        }
        LightningNodeConfig {
            backend: self.config.backend.clone(),
            data_dir,
            ldk_peer_listening_port: node.listen_port,
            ldk_announced_listen_addr: Vec::new(),
            ldk_announced_node_name: Some(node.alias.clone()),
            network: self.config.network.clone(),
            passphrase,
            external_router,
        }
    }

    /// Decide what the engine factory must be told for this record: its
    /// configuration, and for a tenant the borrowed routing source. A
    /// tenant's engine is refused distinctly when no admin record exists
    /// and when the admin engine is not running: it is never constructed
    /// without its routing resource.
    pub fn get_node(&self, node: &Node, passphrase: String) -> (r: Result<EngineSpec, Error>)
        requires
            self.wf(),
        ensures
            node.role != ROLE_USER ==> (r matches Ok(es) && es.routing is None
                && spec_node_config_for(*self, *node, passphrase@, es.config)),
            node.role == ROLE_USER && !self.database.spec_has_admin() ==> is_wire_err(
                r,
                CoreError::AdminNodeNotCreated,
            ),
            node.role == ROLE_USER && self.database.spec_has_admin() && !spec_admin_running(*self)
                ==> is_wire_err(r, CoreError::AdminNodeNotStarted),
            node.role == ROLE_USER && self.database.spec_has_admin() && spec_admin_running(*self)
                ==> (r matches Ok(es) && spec_node_config_for(*self, *node, passphrase@, es.config)
                && (es.routing matches Some(eid) && exists|k: int|
                    0 <= k < self.node_directory.handles@.len() && (
                    #[trigger] self.node_directory.handles@[k]).engine_id == eid && exists|i: int|
                        #[trigger] self.database.spec_is_first_admin(i)
                            && self.node_directory.handles@[k].pubkey@
                            == self.database.nodes@[i].pubkey@)),
    {
        let node_config = self.get_node_config(node, passphrase);
        if node.is_user() {
            match self.database.get_admin_node() {
                Some(admin_node) => {
                    match self.node_directory.get(&admin_node.pubkey) {
                        Some(handle) => {
                            proof {
                                let i = choose|i: int|
                                    #[trigger] self.database.spec_is_first_admin(i) && admin_node
                                        == self.database.nodes@[i];
                                if !spec_admin_running(*self) {
                                    assert(self.database.spec_is_first_admin(i));
                                }
                            }
                            Ok(EngineSpec { config: node_config, routing: Some(handle.engine_id) })
                        },
                        None => {
                            proof {
                                if spec_admin_running(*self) {
                                    let i = choose|i: int|
                                        #[trigger] self.database.spec_is_first_admin(i)
                                            && self.node_directory.spec_contains(
                                            self.database.nodes@[i].pubkey@,
                                        );
                                    let j = choose|j: int|
                                        #[trigger] self.database.spec_is_first_admin(j)
                                            && admin_node == self.database.nodes@[j];
                                    self.database.lemma_first_admin_unique(i, j);
                                }
                            }
                            Err(wire_error(CoreError::AdminNodeNotStarted))
                        },
                    }
                },
                None => Err(wire_error(CoreError::AdminNodeNotCreated)),
            }
        } else {
            Ok(EngineSpec { config: node_config, routing: None })
        }
    }

    /// Start a record's engine; idempotent. A running identity answers
    /// from its existing handle, with no second handle and no new tasks;
    /// otherwise the factory's next build is installed under one
    /// uninterrupted check-and-insert and the record is marked running at
    /// the published address.
    pub fn start_node(&mut self, node: Node, passphrase: String, env: &mut CallEnv) -> (r: Result<BuiltEngine, Error>)
        requires
            old(self).wf(),
        ensures
            final(self).wf(),
            final(self).data_dir == old(self).data_dir,
            final(self).config == old(self).config,
            final(env).listen_addr == old(env).listen_addr,
            final(env).actions == old(env).actions,
            old(self).node_directory.spec_contains(node.pubkey@) ==> (*final(self) == *old(self)
                && *final(env) == *old(env) && (r matches Ok(b) && b.pubkey@ == node.pubkey@
                && exists|i: int|
                0 <= i < old(self).node_directory.handles@.len() && (#[trigger] old(self).node_directory.handles@[i]).pubkey@ == node.pubkey@ && b.macaroon@ == old(self).node_directory.handles@[i].macaroon@)),
            !old(self).node_directory.spec_contains(node.pubkey@) && node.role == ROLE_USER && !old(self).database.spec_has_admin() ==> (*final(self) == *old(self) && *final(env) == *old(env)
                && is_wire_err(r, CoreError::AdminNodeNotCreated)),
            !old(self).node_directory.spec_contains(node.pubkey@) && node.role == ROLE_USER && old(self).database.spec_has_admin() && !spec_admin_running(*old(self)) ==> (*final(self)
                == *old(self) && *final(env) == *old(env) && is_wire_err(
                r,
                CoreError::AdminNodeNotStarted,
            )),
            !old(self).node_directory.spec_contains(node.pubkey@) && spec_routing_ok(
                *old(self),
                node,
            ) && old(env).engines@.len() == 0 ==> (*final(self) == *old(self) && *final(env)
                == *old(env) && is_wire_err(r, CoreError::EngineUnavailable)),
            !old(self).node_directory.spec_contains(node.pubkey@) && spec_routing_ok(
                *old(self),
                node,
            ) && old(env).engines@.len() > 0 ==> (r matches Ok(b) && b.pubkey@ == node.pubkey@
                && b.macaroon@ == old(env).engines@[0].macaroon@ && final(env).engines@ == old(env).engines@.skip(1) && final(self).node_directory.handles@ == old(self).node_directory.handles@ + seq![
                (NodeHandle {
                    pubkey: node.pubkey,
                    engine_id: old(env).engines@[0].engine_id,
                    macaroon: old(env).engines@[0].macaroon,
                    task_ids: old(env).engines@[0].task_ids,
                }),
            ] && spec_db_with_updated(
                old(self).database,
                final(self).database,
                (Node { status: STATUS_RUNNING, listen_addr: old(env).listen_addr, ..node }),
            )),
    {
        match self.node_directory.get(&node.pubkey) {
            Some(handle) => {
                let mac = clone_bytes(&handle.macaroon);
                return Ok(BuiltEngine { pubkey: node.pubkey.clone(), macaroon: mac });
            },
            None => {},
        }
        // The routing decision must pass before a delivered build is
        // accepted: a tenant is refused here without a running admin.
        match self.get_node(&node, passphrase) {
            Ok(_) => {},
            Err(e) => return Err(e),
        }
        let build = match take_engine(env) {
            Some(b) => b,
            None => return Err(wire_error(CoreError::EngineUnavailable)),
        };
        let result_pubkey = node.pubkey.clone();
        let result_mac = clone_bytes(&build.macaroon);
        let handle = NodeHandle {
            pubkey: node.pubkey.clone(),
            engine_id: build.engine_id,
            macaroon: build.macaroon,
            task_ids: build.task_ids,
        };
        let _inserted = self.node_directory.insert_if_absent(handle);
        let mut updated = node;
        updated.status = STATUS_RUNNING;
        updated.listen_addr = env.listen_addr.clone();
        self.database.update_node(updated);
        Ok(BuiltEngine { pubkey: result_pubkey, macaroon: result_mac })
    }

    /// Create a record: allocate a port no record claims, insert the
    /// record, decide the engine instruction, consume the factory's build
    /// and persist the engine-derived public identity onto the record. A
    /// failure after the insert deliberately leaves the record behind for
    /// external reconciliation.
    #[verifier::rlimit(80)]
    fn create_node(&mut self, username: String, alias: String, passphrase: String, role: Role, env: &mut CallEnv) -> (r: Result<(BuiltEngine, Node), Error>)
        requires
            old(self).wf(),
            old(self).database.next_id < u64::MAX,
        ensures
            final(self).wf(),
            final(self).data_dir == old(self).data_dir,
            final(self).config == old(self).config,
            final(self).node_directory == old(self).node_directory,
            final(env).listen_addr == old(env).listen_addr,
            final(env).actions == old(env).actions,
            final(self).database.nodes@.len() == old(self).database.nodes@.len() || final(self).database.nodes@.len() == old(self).database.nodes@.len() + 1,
            final(self).database.nodes@.len() != old(self).database.nodes@.len() ==> ({
                &&& final(self).database.next_id == old(self).database.next_id + 1
                &&& forall|k: int|
                    0 <= k < old(self).database.nodes@.len() ==> #[trigger] final(self).database.nodes@[k] == old(self).database.nodes@[k]
                &&& final(self).database.nodes@[old(self).database.nodes@.len() as int].id == old(self).database.next_id
                &&& final(self).database.nodes@[old(self).database.nodes@.len() as int].role
                    == role.spec_to_integer()
            }),
            r matches Ok((b, n)) ==> n.id == old(self).database.next_id && n.role
                == role.spec_to_integer() && n.pubkey@ == b.pubkey@,
            r is Err ==> *final(env) == *old(env),
            r is Err && final(self).database.nodes@.len() == old(self).database.nodes@.len() ==> (
            *final(self) == *old(self) && is_wire_err(r, CoreError::PortsExhausted)),
            r is Err && final(self).database.nodes@.len() != old(self).database.nodes@.len() ==> (
            exists|p: u16|
                !old(self).database.spec_port_in_use(p) && #[trigger] spec_created_at(
                    old(self).database,
                    final(self).database,
                    username@,
                    alias@,
                    old(self).config.network@,
                    old(env).listen_addr@,
                    role.spec_to_integer(),
                    p,
                    Seq::<char>::empty(),
                    crate::database::STATUS_CREATED,
                )),
            role is User && !old(self).database.spec_has_admin() ==> r is Err,
            role is User && !old(self).database.spec_has_admin() && final(self).database.nodes@.len()
                != old(self).database.nodes@.len() ==> is_wire_err(
                r,
                CoreError::AdminNodeNotCreated,
            ),
            role is User && old(self).database.spec_has_admin() && !spec_admin_running(*old(self))
                ==> r is Err,
            role is User && old(self).database.spec_has_admin() && !spec_admin_running(*old(self))
                && final(self).database.nodes@.len() != old(self).database.nodes@.len()
                ==> is_wire_err(r, CoreError::AdminNodeNotStarted),
            r matches Ok((b, n)) ==> (old(env).engines@.len() > 0 && b.pubkey@ == old(env).engines@[0].pubkey@ && b.macaroon@ == old(env).engines@[0].macaroon@ && final(env).engines@ == old(env).engines@.skip(1) && n == final(self).database.nodes@[old(self).database.nodes@.len() as int] && exists|p: u16|
                !old(self).database.spec_port_in_use(p) && #[trigger] spec_created_at(
                    old(self).database,
                    final(self).database,
                    username@,
                    alias@,
                    old(self).config.network@,
                    old(env).listen_addr@,
                    role.spec_to_integer(),
                    p,
                    old(env).engines@[0].pubkey@,
                    crate::database::STATUS_CREATED,
                )),
    {
        let ghost u0 = username@;
        let ghost a0 = alias@;
        let ghost net0 = self.config.network@;
        let ghost addr0 = env.listen_addr@;
        let ghost r0 = role;
        let network = self.config.network.clone();
        let listen_addr = env.listen_addr.clone();
        let port = match allocate_port(&self.database) {
            Ok(p) => p,
            Err(e) => return Err(wire_error(e)),
        };
        let ext_id = external_id_string(self.database.next_id);
        let mut node = match role {
            Role::Admin => Node::new_admin(username, alias, network, listen_addr, port),
            Role::User => Node::new(username, alias, network, listen_addr, port),
        };
        node.external_id = ext_id;
        let id = self.database.create_node(node.clone());
        node.id = id;
        proof {
            if node.role != ROLE_ADMIN {
                lemma_append_non_admin(old(self).database, self.database);
            }
        }
        proof {
            assert(spec_created_at(
                old(self).database,
                self.database,
                u0,
                a0,
                net0,
                addr0,
                r0.spec_to_integer(),
                port,
                Seq::<char>::empty(),
                crate::database::STATUS_CREATED,
            ));
        }
        match self.get_node(&node, passphrase) {
            Ok(_) => {},
            Err(e) => return Err(e),
        }
        let build = match take_engine(env) {
            Some(b) => b,
            None => return Err(wire_error(CoreError::EngineUnavailable)),
        };
        node.pubkey = build.pubkey.clone();
        self.database.update_node(node.clone());
        proof {
            let len0 = old(self).database.nodes@.len() as int;
            assert(self.database.nodes@[len0] == node);
            assert(spec_created_at(
                old(self).database,
                self.database,
                u0,
                a0,
                net0,
                addr0,
                r0.spec_to_integer(),
                port,
                old(env).engines@[0].pubkey@,
                crate::database::STATUS_CREATED,
            ));
        }
        Ok((BuiltEngine { pubkey: build.pubkey, macaroon: build.macaroon }, node))
    }

    /// Dispatch one command of the closed protocol: validate, look up
    /// state, drive the lifecycle helpers, and answer with one response or
    /// one generic error. Engine builds are consumed from `env` front to
    /// back; the actions the command decides on are appended to
    /// `env.actions` for the runtime to perform afterwards.
    ///
    /// An admin may be created only once: the protocol does not enforce it,
    /// so the caller must not issue a second admin creation.
    #[verifier::rlimit(100)]
    pub fn call(&mut self, request: AdminRequest, env: &mut CallEnv) -> (r: Result<AdminResponse, Error>)
        requires
            old(self).wf(),
            request matches AdminRequest::CreateAdmin { .. } ==> old(self).database.next_id
                < u64::MAX && !old(self).database.spec_has_admin(),
            request matches AdminRequest::CreateNode { .. } ==> old(self).database.next_id
                < u64::MAX,
            request matches AdminRequest::ListNodes { .. } ==> old(self).database.nodes@.len()
                < u64::MAX,
        ensures
            final(self).wf(),
            final(self).data_dir == old(self).data_dir,
            final(env).listen_addr == old(env).listen_addr,
            request matches AdminRequest::GetConfig {} ==> (*final(self) == *old(self) && *final(env) == *old(env) && (r matches Ok(AdminResponse::GetConfig { electrum_url })
                && electrum_url@ == old(self).config.backend.spec_url())),
            request matches AdminRequest::UpdateConfig { electrum_url } ==> ({
                &&& final(self).config.backend == (LightningNodeBackendConfig::Electrum {
                    url: electrum_url,
                })
                &&& final(self).config.network == old(self).config.network
                &&& final(self).node_directory == old(self).node_directory
                &&& final(self).database == old(self).database
                &&& final(env).engines == old(env).engines
                &&& final(env).actions@ == old(env).actions@ + seq![Action::SaveConfig]
                &&& r == Ok::<AdminResponse, Error>(AdminResponse::UpdateConfig {})
            }),
            request matches AdminRequest::GetStatus { pubkey } ==> (*final(self) == *old(self)
                && *final(env) == *old(env) && (r matches Ok(AdminResponse::GetStatus {
                alias,
                created,
                running,
                authenticated,
                pubkey: rpk,
                username,
                role,
            }) && ({
                &&& created == old(self).database.spec_has_admin()
                &&& rpk matches Some(p) && p@ == pubkey@
                &&& old(self).database.spec_has_pubkey(pubkey@) ==> (exists|i: int|
                    #[trigger] old(self).database.spec_is_first_with_pubkey(i, pubkey@) && ({
                        let n = old(self).database.nodes@[i];
                        &&& alias matches Some(a) && a@ == n.alias@
                        &&& running == old(self).node_directory.spec_contains(n.pubkey@)
                        &&& authenticated == (pubkey@ == n.pubkey@)
                        &&& username matches Some(u) && u@ == n.username@
                        &&& role == Some(n.role)
                    }))
                &&& !old(self).database.spec_has_pubkey(pubkey@) ==> alias is None && running
                    == false && authenticated == false && username is None && role is None
            }))),
            request matches AdminRequest::ListNodes { pagination } ==> (*final(self) == *old(self)
                && *final(env) == *old(env) && (r matches Ok(AdminResponse::ListNodes {
                nodes,
                pagination: pr,
            }) && nodes@ == old(self).database.nodes@.subrange(
                old(self).database.spec_page_start(pagination),
                old(self).database.spec_page_end(pagination),
            ) && pr.total == old(self).database.nodes@.len() && pr.has_more == (old(self).database.spec_page_end(pagination) < old(self).database.nodes@.len()))),
            request matches AdminRequest::DeleteNode { pubkey } ==> ({
                &&& !old(self).database.spec_has_pubkey(pubkey@) ==> (*final(self) == *old(self)
                    && *final(env) == *old(env) && is_wire_err(r, CoreError::NodeNotFound))
                &&& old(self).database.spec_has_pubkey(pubkey@) ==> (*final(self) == *old(self)
                    && final(env).engines == old(env).engines && r == Ok::<AdminResponse, Error>(
                    AdminResponse::DeleteNode {},
                ) && final(env).actions@.len() == old(env).actions@.len() + 1 && (forall|k: int|
                    0 <= k < old(env).actions@.len() ==> final(env).actions@[k] == old(env).actions@[k]) && exists|i: int|
                    #[trigger] old(self).database.spec_is_first_with_pubkey(i, pubkey@) && (final(env).actions@.last() matches Action::RemoveDir { path } && path@
                        == spec_data_dir_path(
                        old(self).data_dir@,
                        old(self).config.network@,
                        old(self).database.nodes@[i].external_id@,
                    )))
            }),
            request matches AdminRequest::StopNode { pubkey } ==> ({
                &&& !old(self).database.spec_has_pubkey(pubkey@) ==> (*final(self) == *old(self)
                    && *final(env) == *old(env) && r == Ok::<AdminResponse, Error>(
                    AdminResponse::StopNode {},
                ))
                &&& old(self).database.spec_has_pubkey(pubkey@) ==> ({
                    &&& r == Ok::<AdminResponse, Error>(AdminResponse::StopNode {})
                    &&& final(self).config == old(self).config
                    &&& final(env).engines == old(env).engines
                    &&& exists|i: int|
                        #[trigger] old(self).database.spec_is_first_with_pubkey(i, pubkey@)
                            && spec_db_with_updated(
                            old(self).database,
                            final(self).database,
                            (Node {
                                status: STATUS_STOPPED,
                                ..old(self).database.nodes@[i]
                            }),
                        )
                    &&& old(self).node_directory.spec_contains(pubkey@) ==> (exists|k: int|
                        0 <= k < old(self).node_directory.handles@.len() && (#[trigger] old(self).node_directory.handles@[k]).pubkey@ == pubkey@ && final(self).node_directory.handles@ == old(self).node_directory.handles@.remove(k)
                            && final(env).actions@ == old(env).actions@ + seq![
                            (Action::StopEngine { handle: old(self).node_directory.handles@[k] }),
                        ])
                    &&& !old(self).node_directory.spec_contains(pubkey@) ==> final(self).node_directory == old(self).node_directory && final(env).actions == old(env).actions
                })
            }),
            request matches AdminRequest::StartAdmin { passphrase } ==> ({
                &&& !old(self).database.spec_has_admin() ==> (*final(self) == *old(self) && *final(env) == *old(env) && is_wire_err(r, CoreError::AdminNodeNotFound))
                &&& old(self).database.spec_has_admin() ==> (exists|i: int|
                    #[trigger] old(self).database.spec_is_first_admin(i) && ({
                        let n = old(self).database.nodes@[i];
                        &&& old(self).node_directory.spec_contains(n.pubkey@) ==> (*final(self)
                            == *old(self) && *final(env) == *old(env) && (r matches Ok(
                        AdminResponse::StartAdmin { pubkey, macaroon }) && pubkey@ == n.pubkey@
                            && exists|k: int|
                            0 <= k < old(self).node_directory.handles@.len() && (#[trigger] old(self).node_directory.handles@[k]).pubkey@ == n.pubkey@ && macaroon@
                                == hex_of(old(self).node_directory.handles@[k].macaroon@)))
                        &&& !old(self).node_directory.spec_contains(n.pubkey@) && old(env).engines@.len() == 0 ==> (*final(self) == *old(self) && *final(env)
                            == *old(env) && is_wire_err(r, CoreError::EngineUnavailable))
                        &&& !old(self).node_directory.spec_contains(n.pubkey@) && old(env).engines@.len() > 0 ==> (r matches Ok(AdminResponse::StartAdmin {
                            pubkey,
                            macaroon,
                        }) && pubkey@ == n.pubkey@ && macaroon@ == hex_of(
                            old(env).engines@[0].macaroon@,
                        ) && final(env).engines@ == old(env).engines@.skip(1) && final(self).node_directory.handles@ == old(self).node_directory.handles@ + seq![
                            (NodeHandle {
                                pubkey: n.pubkey,
                                engine_id: old(env).engines@[0].engine_id,
                                macaroon: old(env).engines@[0].macaroon,
                                task_ids: old(env).engines@[0].task_ids,
                            }),
                        ] && spec_db_with_updated(
                            old(self).database,
                            final(self).database,
                            (Node {
                                status: STATUS_RUNNING,
                                listen_addr: old(env).listen_addr,
                                ..n
                            }),
                        ))
                    }))
            }),
            request matches AdminRequest::StartNode { pubkey, passphrase } ==> ({
                &&& !old(self).database.spec_has_pubkey(pubkey@) ==> (*final(self) == *old(self)
                    && *final(env) == *old(env) && is_wire_err(r, CoreError::NodeNotFound))
                &&& old(self).database.spec_has_pubkey(pubkey@) ==> (exists|i: int|
                    #[trigger] old(self).database.spec_is_first_with_pubkey(i, pubkey@) && ({
                        let n = old(self).database.nodes@[i];
                        &&& old(self).node_directory.spec_contains(pubkey@) ==> (*final(self)
                            == *old(self) && *final(env) == *old(env) && (r matches Ok(
                        AdminResponse::StartNode { macaroon }) && exists|k: int|
                            0 <= k < old(self).node_directory.handles@.len() && (#[trigger] old(self).node_directory.handles@[k]).pubkey@ == pubkey@ && macaroon@
                                == hex_of(old(self).node_directory.handles@[k].macaroon@)))
                        &&& !old(self).node_directory.spec_contains(pubkey@) && n.role
                            == ROLE_USER && !old(self).database.spec_has_admin() ==> (*final(self)
                            == *old(self) && *final(env) == *old(env) && is_wire_err(
                            r,
                            CoreError::AdminNodeNotCreated,
                        ))
                        &&& !old(self).node_directory.spec_contains(pubkey@) && n.role
                            == ROLE_USER && old(self).database.spec_has_admin()
                            && !spec_admin_running(*old(self)) ==> (*final(self) == *old(self)
                            && *final(env) == *old(env) && is_wire_err(
                            r,
                            CoreError::AdminNodeNotStarted,
                        ))
                        &&& !old(self).node_directory.spec_contains(pubkey@) && spec_routing_ok(
                            *old(self),
                            n,
                        ) && old(env).engines@.len() == 0 ==> (*final(self) == *old(self)
                            && *final(env) == *old(env) && is_wire_err(
                            r,
                            CoreError::EngineUnavailable,
                        ))
                        &&& !old(self).node_directory.spec_contains(pubkey@) && spec_routing_ok(
                            *old(self),
                            n,
                        ) && old(env).engines@.len() > 0 ==> (r matches Ok(
                        AdminResponse::StartNode { macaroon }) && macaroon@ == hex_of(
                            old(env).engines@[0].macaroon@,
                        ) && final(env).engines@ == old(env).engines@.skip(1) && final(self).node_directory.handles@ == old(self).node_directory.handles@ + seq![
                            (NodeHandle {
                                pubkey: n.pubkey,
                                engine_id: old(env).engines@[0].engine_id,
                                macaroon: old(env).engines@[0].macaroon,
                                task_ids: old(env).engines@[0].task_ids,
                            }),
                        ] && spec_db_with_updated(
                            old(self).database,
                            final(self).database,
                            (Node {
                                status: STATUS_RUNNING,
                                listen_addr: old(env).listen_addr,
                                ..n
                            }),
                        ))
                    }))
            }),
            request matches AdminRequest::CreateAdmin {
                username,
                alias,
                passphrase,
                electrum_url,
                start,
            } ==> ({
                &&& final(self).config.backend == (LightningNodeBackendConfig::Electrum {
                    url: electrum_url,
                })
                &&& final(self).config.network == old(self).config.network
                &&& final(env).actions@ == old(env).actions@ + seq![Action::SaveConfig]
                &&& final(self).database.nodes@.len() == old(self).database.nodes@.len() || final(self).database.nodes@.len() == old(self).database.nodes@.len() + 1
                &&& r is Err && final(self).database.nodes@.len() == old(self).database.nodes@.len() ==> (final(self).database == old(self).database && final(self).node_directory == old(self).node_directory && final(env).engines == old(env).engines && is_wire_err(r, CoreError::PortsExhausted))
                &&& final(self).database.nodes@.len() != old(self).database.nodes@.len() ==> ({
                    &&& final(self).database.nodes@[old(self).database.nodes@.len() as int].role
                        == ROLE_ADMIN
                    &&& forall|k: int|
                        0 <= k < old(self).database.nodes@.len() ==> final(self).database.nodes@[k]
                            == old(self).database.nodes@[k]
                })
                &&& r matches Ok(resp) ==> (resp matches AdminResponse::CreateAdmin {
                    pubkey,
                    macaroon,
                    external_id,
                    role,
                } && old(env).engines@.len() >= 1 && pubkey@ == old(env).engines@[0].pubkey@
                    && macaroon@ == hex_of(old(env).engines@[0].macaroon@) && external_id@
                    == spec_external_id(old(self).database.next_id) && role == ROLE_ADMIN && (
                !start ==> final(env).engines@ == old(env).engines@.skip(1) && final(self).node_directory == old(self).node_directory && exists|p: u16|
                    !old(self).database.spec_port_in_use(p) && #[trigger] spec_created_at(
                        old(self).database,
                        final(self).database,
                        username@,
                        alias@,
                        old(self).config.network@,
                        old(env).listen_addr@,
                        ROLE_ADMIN,
                        p,
                        old(env).engines@[0].pubkey@,
                        crate::database::STATUS_CREATED,
                    )) && (start ==> final(self).node_directory.spec_contains(
                    old(env).engines@[0].pubkey@,
                )) && (start && old(self).node_directory.spec_contains(old(env).engines@[0].pubkey@)
                    ==> final(env).engines@ == old(env).engines@.skip(1) && exists|p: u16|
                    !old(self).database.spec_port_in_use(p) && #[trigger] spec_created_at(
                        old(self).database,
                        final(self).database,
                        username@,
                        alias@,
                        old(self).config.network@,
                        old(env).listen_addr@,
                        ROLE_ADMIN,
                        p,
                        old(env).engines@[0].pubkey@,
                        crate::database::STATUS_CREATED,
                    )) && (start && !old(self).node_directory.spec_contains(
                    old(env).engines@[0].pubkey@,
                ) ==> old(env).engines@.len() >= 2 && final(env).engines@ == old(
                    env,
                ).engines@.skip(2) && exists|p: u16|
                    !old(self).database.spec_port_in_use(p) && #[trigger] spec_created_at(
                        old(self).database,
                        final(self).database,
                        username@,
                        alias@,
                        old(self).config.network@,
                        old(env).listen_addr@,
                        ROLE_ADMIN,
                        p,
                        old(env).engines@[0].pubkey@,
                        STATUS_RUNNING,
                    )))
            }),
            request matches AdminRequest::CreateNode { username, alias, passphrase, start } ==> ({
                &&& final(self).config == old(self).config
                &&& final(env).actions == old(env).actions
                &&& final(self).database.nodes@.len() == old(self).database.nodes@.len() || final(self).database.nodes@.len() == old(self).database.nodes@.len() + 1
                &&& r is Err && final(self).database.nodes@.len() == old(self).database.nodes@.len() ==> (final(self).database == old(self).database && final(self).node_directory == old(self).node_directory && final(env).engines == old(env).engines && is_wire_err(r, CoreError::PortsExhausted))
                &&& !old(self).database.spec_has_admin() ==> r is Err
                &&& !old(self).database.spec_has_admin() && final(self).database.nodes@.len()
                    != old(self).database.nodes@.len() ==> is_wire_err(
                    r,
                    CoreError::AdminNodeNotCreated,
                )
                &&& old(self).database.spec_has_admin() && !spec_admin_running(*old(self)) ==> r
                    is Err
                &&& old(self).database.spec_has_admin() && !spec_admin_running(*old(self))
                    && final(self).database.nodes@.len() != old(self).database.nodes@.len()
                    ==> is_wire_err(r, CoreError::AdminNodeNotStarted)
                &&& r matches Ok(resp) ==> (resp matches AdminResponse::CreateNode {
                    pubkey,
                    macaroon,
                } && old(env).engines@.len() >= 1 && pubkey@ == old(env).engines@[0].pubkey@
                    && macaroon@ == hex_of(old(env).engines@[0].macaroon@) && (!start ==> final(env).engines@ == old(env).engines@.skip(1) && final(self).node_directory == old(self).node_directory && exists|p: u16|
                    !old(self).database.spec_port_in_use(p) && #[trigger] spec_created_at(
                        old(self).database,
                        final(self).database,
                        username@,
                        alias@,
                        old(self).config.network@,
                        old(env).listen_addr@,
                        ROLE_USER,
                        p,
                        old(env).engines@[0].pubkey@,
                        crate::database::STATUS_CREATED,
                    )) && (start ==> final(self).node_directory.spec_contains(
                    old(env).engines@[0].pubkey@,
                )) && (start && old(self).node_directory.spec_contains(old(env).engines@[0].pubkey@)
                    ==> final(env).engines@ == old(env).engines@.skip(1) && exists|p: u16|
                    !old(self).database.spec_port_in_use(p) && #[trigger] spec_created_at(
                        old(self).database,
                        final(self).database,
                        username@,
                        alias@,
                        old(self).config.network@,
                        old(env).listen_addr@,
                        ROLE_USER,
                        p,
                        old(env).engines@[0].pubkey@,
                        crate::database::STATUS_CREATED,
                    )) && (start && !old(self).node_directory.spec_contains(
                    old(env).engines@[0].pubkey@,
                ) ==> old(env).engines@.len() >= 2 && final(env).engines@ == old(
                    env,
                ).engines@.skip(2) && exists|p: u16|
                    !old(self).database.spec_port_in_use(p) && #[trigger] spec_created_at(
                        old(self).database,
                        final(self).database,
                        username@,
                        alias@,
                        old(self).config.network@,
                        old(env).listen_addr@,
                        ROLE_USER,
                        p,
                        old(env).engines@[0].pubkey@,
                        STATUS_RUNNING,
                    )))
            }),
    {
        match request {
            AdminRequest::GetConfig {} => {
                let electrum_url = self.config.backend.url().clone();
                Ok(AdminResponse::GetConfig { electrum_url })
            },
            AdminRequest::UpdateConfig { electrum_url } => {
                let new_backend = self.config.backend.clone_with_new_url(electrum_url);
                self.config.set_backend(new_backend);
                env.actions.push(Action::SaveConfig);
                Ok(AdminResponse::UpdateConfig {})
            },
            AdminRequest::GetStatus { pubkey } => {
                let admin_node = self.database.get_admin_node();
                let created = admin_node.is_some();
                let db_node = self.database.get_node_by_pubkey(&pubkey);
                match db_node {
                    Some(node) => {
                        let node_running = self.node_directory.contains_key(&node.pubkey);
                        let authenticated = pubkey == node.pubkey;
                        Ok(AdminResponse::GetStatus {
                            alias: Some(node.alias),
                            created,
                            running: node_running,
                            authenticated,
                            pubkey: Some(pubkey),
                            username: Some(node.username),
                            role: Some(node.role),
                        })
                    },
                    None => Ok(AdminResponse::GetStatus {
                        alias: None,
                        pubkey: Some(pubkey),
                        created,
                        running: false,
                        authenticated: false,
                        username: None,
                        role: None,
                    }),
                }
            },
            AdminRequest::CreateAdmin { username, alias, passphrase, electrum_url, start } => {
                let new_backend = self.config.backend.clone_with_new_url(electrum_url);
                self.config.set_backend(new_backend);
                env.actions.push(Action::SaveConfig);
                let ghost u0 = username@;
                let ghost a0 = alias@;
                let ghost net0 = self.config.network@;
                let ghost addr0 = env.listen_addr@;
                let created = self.create_node(username, alias, passphrase.clone(), Role::Admin, env);
                match created {
                    Ok((built, node)) => {
                        let macaroon = hex_str(built.macaroon.as_slice());
                        let external_id = node.external_id.clone();
                        let role = node.role;
                        if start {
                            let ghost mid = *self;
                            let ghost mid_env = *env;
                            let ghost nid = node.id;
                            let ghost npk = node.pubkey@;
                            let started = self.start_node(node, passphrase, env);
                            proof {
                                let len0 = old(self).database.nodes@.len() as int;
                                assert forall|k: int|
                                    0 <= k < len0 implies self.database.nodes@[k] == old(self).database.nodes@[k] by {
                                    assert(mid.database.nodes@[k] == old(self).database.nodes@[k]);
                                    assert(old(self).database.nodes@[k].id < old(self).database.next_id);
                                    assert(mid.database.nodes@[k].id != nid);
                                }
                                assert(self.database.nodes@[len0].role == ROLE_ADMIN);
                                if started is Ok {
                                    let pw = choose|p: u16|
                                        !old(self).database.spec_port_in_use(p)
                                            && #[trigger] spec_created_at(
                                            old(self).database,
                                            mid.database,
                                            u0,
                                            a0,
                                            net0,
                                            addr0,
                                            ROLE_ADMIN,
                                            p,
                                            npk,
                                            crate::database::STATUS_CREATED,
                                        );
                                    if !mid.node_directory.spec_contains(npk) {
                                        assert(self.node_directory.handles@[mid.node_directory.handles@.len() as int].pubkey@
                                            == npk);
                                        assert(self.database.nodes@[len0] == (Node {
                                            status: STATUS_RUNNING,
                                            listen_addr: mid_env.listen_addr,
                                            ..mid.database.nodes@[len0]
                                        }));
                                        assert(spec_created_at(
                                            old(self).database,
                                            self.database,
                                            u0,
                                            a0,
                                            net0,
                                            addr0,
                                            ROLE_ADMIN,
                                            pw,
                                            npk,
                                            STATUS_RUNNING,
                                        ));
                                        assert(env.engines@ =~= old(env).engines@.skip(2));
                                    } else {
                                        assert(spec_created_at(
                                            old(self).database,
                                            self.database,
                                            u0,
                                            a0,
                                            net0,
                                            addr0,
                                            ROLE_ADMIN,
                                            pw,
                                            npk,
                                            crate::database::STATUS_CREATED,
                                        ));
                                    }
                                    assert(self.node_directory.spec_contains(npk));
                                }
                            }
                            match started {
                                Ok(_) => {},
                                Err(e) => return Err(e),
                            }
                        }
                        Ok(AdminResponse::CreateAdmin {
                            pubkey: built.pubkey,
                            macaroon,
                            external_id,
                            role,
                        })
                    },
                    Err(e) => Err(e),
                }
            },
            AdminRequest::StartAdmin { passphrase } => {
                let db_node = self.database.get_admin_node();
                match db_node {
                    Some(node) => {
                        let started = self.start_node(node, passphrase, env);
                        match started {
                            Ok(built) => {
                                let macaroon = hex_str(built.macaroon.as_slice());
                                Ok(AdminResponse::StartAdmin { pubkey: built.pubkey, macaroon })
                            },
                            Err(e) => Err(e),
                        }
                    },
                    None => Err(wire_error(CoreError::AdminNodeNotFound)),
                }
            },
            AdminRequest::StartNode { pubkey, passphrase } => {
                let db_node = self.database.get_node_by_pubkey(&pubkey);
                match db_node {
                    Some(node) => {
                        let started = self.start_node(node, passphrase, env);
                        match started {
                            Ok(built) => {
                                let macaroon = hex_str(built.macaroon.as_slice());
                                Ok(AdminResponse::StartNode { macaroon })
                            },
                            Err(e) => Err(e),
                        }
                    },
                    None => Err(wire_error(CoreError::NodeNotFound)),
                }
            },
            AdminRequest::StopNode { pubkey } => {
                let db_node = self.database.get_node_by_pubkey(&pubkey);
                match db_node {
                    Some(node) => {
                        let removed = self.node_directory.remove(&pubkey);
                        match removed {
                            Some(handle) => {
                                env.actions.push(Action::StopEngine { handle });
                            },
                            None => {},
                        }
                        let mut stopped = node;
                        stopped.status = Status::Stopped.to_integer();
                        self.database.update_node(stopped);
                        Ok(AdminResponse::StopNode {})
                    },
                    None => Ok(AdminResponse::StopNode {}),
                }
            },
            AdminRequest::CreateNode { username, alias, passphrase, start } => {
                let ghost u0 = username@;
                let ghost a0 = alias@;
                let ghost net0 = self.config.network@;
                let ghost addr0 = env.listen_addr@;
                let created = self.create_node(username, alias, passphrase.clone(), Role::User, env);
                match created {
                    Ok((built, node)) => {
                        let macaroon = hex_str(built.macaroon.as_slice());
                        if start {
                            let ghost mid = *self;
                            let ghost mid_env = *env;
                            let ghost nid = node.id;
                            let ghost npk = node.pubkey@;
                            let started = self.start_node(node, passphrase, env);
                            proof {
                                let len0 = old(self).database.nodes@.len() as int;
                                assert forall|k: int|
                                    0 <= k < len0 implies self.database.nodes@[k] == old(self).database.nodes@[k] by {
                                    assert(mid.database.nodes@[k] == old(self).database.nodes@[k]);
                                    assert(old(self).database.nodes@[k].id < old(self).database.next_id);
                                    assert(mid.database.nodes@[k].id != nid);
                                }
                                lemma_append_non_admin(old(self).database, mid.database);
                                assert(spec_admin_running(mid) == spec_admin_running(*old(self))) by {
                                    if spec_admin_running(*old(self)) {
                                        let i = choose|i: int|
                                            #[trigger] old(self).database.spec_is_first_admin(i)
                                                && old(self).node_directory.spec_contains(
                                                old(self).database.nodes@[i].pubkey@,
                                            );
                                        assert(mid.database.spec_is_first_admin(i));
                                        assert(mid.database.nodes@[i] == old(self).database.nodes@[i]);
                                    }
                                    if spec_admin_running(mid) {
                                        let i = choose|i: int|
                                            #[trigger] mid.database.spec_is_first_admin(i)
                                                && mid.node_directory.spec_contains(
                                                mid.database.nodes@[i].pubkey@,
                                            );
                                        assert(old(self).database.spec_is_first_admin(i));
                                        assert(mid.database.nodes@[i] == old(self).database.nodes@[i]);
                                    }
                                }
                                if started is Ok {
                                    let pw = choose|p: u16|
                                        !old(self).database.spec_port_in_use(p)
                                            && #[trigger] spec_created_at(
                                            old(self).database,
                                            mid.database,
                                            u0,
                                            a0,
                                            net0,
                                            addr0,
                                            ROLE_USER,
                                            p,
                                            npk,
                                            crate::database::STATUS_CREATED,
                                        );
                                    if !mid.node_directory.spec_contains(npk) {
                                        assert(self.node_directory.handles@[mid.node_directory.handles@.len() as int].pubkey@
                                            == npk);
                                        assert(self.database.nodes@[len0] == (Node {
                                            status: STATUS_RUNNING,
                                            listen_addr: mid_env.listen_addr,
                                            ..mid.database.nodes@[len0]
                                        }));
                                        assert(spec_created_at(
                                            old(self).database,
                                            self.database,
                                            u0,
                                            a0,
                                            net0,
                                            addr0,
                                            ROLE_USER,
                                            pw,
                                            npk,
                                            STATUS_RUNNING,
                                        ));
                                        assert(env.engines@ =~= old(env).engines@.skip(2));
                                    } else {
                                        assert(spec_created_at(
                                            old(self).database,
                                            self.database,
                                            u0,
                                            a0,
                                            net0,
                                            addr0,
                                            ROLE_USER,
                                            pw,
                                            npk,
                                            crate::database::STATUS_CREATED,
                                        ));
                                    }
                                    assert(self.node_directory.spec_contains(npk));
                                }
                            }
                            match started {
                                Ok(_) => {},
                                Err(e) => return Err(e),
                            }
                        }
                        Ok(AdminResponse::CreateNode { pubkey: built.pubkey, macaroon })
                    },
                    Err(e) => Err(e),
                }
            },
            AdminRequest::ListNodes { pagination } => {
                let listed = self.database.list_nodes(pagination);
                Ok(AdminResponse::ListNodes { nodes: listed.0, pagination: listed.1 })
            },
            AdminRequest::DeleteNode { pubkey } => {
                let db_node = self.database.get_node_by_pubkey(&pubkey);
                match db_node {
                    Some(node) => {
                        let node_config = self.get_node_config(&node, String::new());
                        env.actions.push(Action::RemoveDir { path: node_config.data_dir });
                        Ok(AdminResponse::DeleteNode {})
                    },
                    None => Err(wire_error(CoreError::NodeNotFound)),
                }
            },
        }
    }
}

} // verus!
