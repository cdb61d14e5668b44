//! In-memory node registry: the single source of truth for persisted node
//! records. The persistence engine behind it is outside this core; the
//! registry contract (lookup admin, lookup by public identity, paginated
//! list, insert, update, port-in-use) is stated and proved here.

use vstd::prelude::*;

verus! {

/// Role of a node record: one privileged admin, any number of tenants.
pub const ROLE_ADMIN: u8 = 0;

pub const ROLE_USER: u8 = 1;

/// Best-effort persisted mirror of runtime state; the Live-Node Directory,
/// not this field, is ground truth for "currently running".
pub const STATUS_CREATED: u8 = 0;

pub const STATUS_RUNNING: u8 = 1;

pub const STATUS_STOPPED: u8 = 2;

pub enum Role {
    Admin,
    User,
}

pub enum Status {
    Created,
    Running,
    Stopped,
}

impl Role {
    pub open spec fn spec_to_integer(self) -> u8 {
        match self {
            Role::Admin => ROLE_ADMIN,
            Role::User => ROLE_USER,
        }
    }

    pub fn to_integer(&self) -> (r: u8)
        ensures
            r == self.spec_to_integer(),
    {
        match self {
            Role::Admin => ROLE_ADMIN,
            Role::User => ROLE_USER,
        }
    }
}

impl Status {
    pub open spec fn spec_to_integer(self) -> u8 {
        match self {
            Status::Created => STATUS_CREATED,
            Status::Running => STATUS_RUNNING,
            Status::Stopped => STATUS_STOPPED,
        }
    }

    pub fn to_integer(&self) -> (r: u8)
        ensures
            r == self.spec_to_integer(),
    {
        match self {
            Status::Created => STATUS_CREATED,
            Status::Running => STATUS_RUNNING,
            Status::Stopped => STATUS_STOPPED,
        }
    }
}

/// A persisted node record. `pubkey` stays empty until the first successful
/// engine construction derives it; `external_id` is the stable opaque key of
/// the node's data directory.
#[derive(Debug)]
pub struct Node {
    pub id: u64,
    pub external_id: String,
    pub username: String,
    pub alias: String,
    pub network: String,
    pub listen_addr: String,
    pub listen_port: u16,
    pub pubkey: String,
    pub status: u8,
    pub role: u8,
}

impl Clone for Node {
    fn clone(&self) -> (r: Self)
        ensures
            r == *self,
    {
        Node {
            id: self.id,
            external_id: self.external_id.clone(),
            username: self.username.clone(),
            alias: self.alias.clone(),
            network: self.network.clone(),
            listen_addr: self.listen_addr.clone(),
            listen_port: self.listen_port,
            pubkey: self.pubkey.clone(),
            status: self.status,
            role: self.role,
        }
    }
}

impl Node {
    /// A fresh tenant record: no identifier, no public identity yet.
    pub fn new(username: String, alias: String, network: String, listen_addr: String, listen_port: u16) -> (r: Node)
        ensures
            r.id == 0,
            r.external_id@ == Seq::<char>::empty(),
            r.username == username,
            r.alias == alias,
            r.network == network,
            r.listen_addr == listen_addr,
            r.listen_port == listen_port,
            r.pubkey@ == Seq::<char>::empty(),
            r.status == STATUS_CREATED,
            r.role == ROLE_USER,
    {
        Node {
            id: 0,
            external_id: String::new(),
            username,
            alias,
            network,
            listen_addr,
            listen_port,
            pubkey: String::new(),
            status: STATUS_CREATED,
            role: ROLE_USER,
        }
    }

    /// A fresh admin record.
    pub fn new_admin(username: String, alias: String, network: String, listen_addr: String, listen_port: u16) -> (r: Node)
        ensures
            r.id == 0,
            r.external_id@ == Seq::<char>::empty(),
            r.username == username,
            r.alias == alias,
            r.network == network,
            r.listen_addr == listen_addr,
            r.listen_port == listen_port,
            r.pubkey@ == Seq::<char>::empty(),
            r.status == STATUS_CREATED,
            r.role == ROLE_ADMIN,
    {
        Node {
            id: 0,
            external_id: String::new(),
            username,
            alias,
            network,
            listen_addr,
            listen_port,
            pubkey: String::new(),
            status: STATUS_CREATED,
            role: ROLE_ADMIN,
        }
    }

    pub fn is_user(&self) -> (r: bool)
        ensures
            r == (self.role == ROLE_USER),
    {
        self.role == ROLE_USER
    }
}

/// Paginated list request: zero-based page number and page size.
#[derive(Clone, Copy, PartialEq, Eq, Structural, Debug)]
pub struct PaginationRequest {
    pub page: u32,
    pub take: u32,
}

/// Paginated list metadata: whether records follow the returned page, and
/// how many records the registry holds in all.
#[derive(Clone, Copy, PartialEq, Eq, Structural, Debug)]
pub struct PaginationResponse {
    pub has_more: bool,
    pub total: u64,
}

/// The node registry. `next_id` is the identifier the next inserted record
/// receives; well-formedness says every stored identifier is below it and
/// identifiers never repeat.
pub struct AdminDatabase {
    pub nodes: Vec<Node>,
    pub next_id: u64,
}

impl AdminDatabase {
    pub open spec fn wf(self) -> bool {
        &&& forall|i: int|
            0 <= i < self.nodes@.len() ==> (#[trigger] self.nodes@[i]).id < self.next_id
        &&& forall|i: int, j: int|
            0 <= i < self.nodes@.len() && 0 <= j < self.nodes@.len() && i != j
                ==> (#[trigger] self.nodes@[i]).id != (#[trigger] self.nodes@[j]).id
    }

    /// Whether some record already claims this listening port.
    pub open spec fn spec_port_in_use(self, port: u16) -> bool {
        exists|i: int| 0 <= i < self.nodes@.len() && (#[trigger] self.nodes@[i]).listen_port == port
    }

    pub open spec fn spec_has_admin(self) -> bool {
        exists|i: int| 0 <= i < self.nodes@.len() && (#[trigger] self.nodes@[i]).role == ROLE_ADMIN
    }

    /// `i` is the index of the earliest admin record.
    pub open spec fn spec_is_first_admin(self, i: int) -> bool {
        &&& 0 <= i < self.nodes@.len()
        &&& self.nodes@[i].role == ROLE_ADMIN
        &&& forall|j: int| 0 <= j < i ==> (#[trigger] self.nodes@[j]).role != ROLE_ADMIN
    }

    /// `i` is the index of the earliest record with this public identity.
    pub open spec fn spec_is_first_with_pubkey(self, i: int, pk: Seq<char>) -> bool {
        &&& 0 <= i < self.nodes@.len()
        &&& self.nodes@[i].pubkey@ == pk
        &&& forall|j: int| 0 <= j < i ==> (#[trigger] self.nodes@[j]).pubkey@ != pk
    }

    /// Two earliest-admin indices are one index.
    pub proof fn lemma_first_admin_unique(self, i: int, j: int)
        requires
            self.spec_is_first_admin(i),
            self.spec_is_first_admin(j),
        ensures
            i == j,
    {
    }

    pub fn new() -> (r: AdminDatabase)
        ensures
            r.wf(),
            r.nodes@.len() == 0,
            r.next_id == 1,
    {
        AdminDatabase { nodes: Vec::new(), next_id: 1 }
    }

    /// Lookup the admin record: the earliest record with the admin role.
    pub fn get_admin_node(&self) -> (r: Option<Node>)
        ensures
            r is None <==> !self.spec_has_admin(),
            r matches Some(n) ==> exists|i: int|
                #[trigger] self.spec_is_first_admin(i) && n == self.nodes@[i],
    {
        let mut i: usize = 0;
        while i < self.nodes.len()
            invariant
                i <= self.nodes@.len(),
                forall|j: int| 0 <= j < i ==> (#[trigger] self.nodes@[j]).role != ROLE_ADMIN,
            decreases self.nodes@.len() - i,
        {
            if self.nodes[i].role == ROLE_ADMIN {
                proof {
                    assert(self.spec_is_first_admin(i as int));
                }
                return Some(self.nodes[i].clone());
            }
            i = i + 1;
        }
        None
    }

    /// Lookup by public identity: the earliest record whose `pubkey` equals
    /// the argument.
    pub fn get_node_by_pubkey(&self, pubkey: &String) -> (r: Option<Node>)
        ensures
            r is None <==> !self.spec_has_pubkey(pubkey@),
            r matches Some(n) ==> exists|i: int|
                #[trigger] self.spec_is_first_with_pubkey(i, pubkey@) && n == self.nodes@[i],
    {
        let mut i: usize = 0;
        while i < self.nodes.len()
            invariant
                i <= self.nodes@.len(),
                forall|j: int| 0 <= j < i ==> (#[trigger] self.nodes@[j]).pubkey@ != pubkey@,
            decreases self.nodes@.len() - i,
        {
            if self.nodes[i].pubkey == *pubkey {
                proof {
                    assert(self.spec_is_first_with_pubkey(i as int, pubkey@));
                }
                return Some(self.nodes[i].clone());
            }
            i = i + 1;
        }
        None
    }

    pub open spec fn spec_has_pubkey(self, pk: Seq<char>) -> bool {
        exists|i: int| 0 <= i < self.nodes@.len() && (#[trigger] self.nodes@[i]).pubkey@ == pk
    }

    /// Insert a record; the registry assigns and returns its identifier.
    pub fn create_node(&mut self, node: Node) -> (r: u64)
        requires
            old(self).wf(),
            old(self).next_id < u64::MAX,
        ensures
            final(self).wf(),
            r == old(self).next_id,
            final(self).next_id == old(self).next_id + 1,
            final(self).nodes@.len() == old(self).nodes@.len() + 1,
            forall|i: int|
                0 <= i < old(self).nodes@.len() ==> final(self).nodes@[i] == old(self).nodes@[i],
            final(self).nodes@[old(self).nodes@.len() as int] == (Node {
                id: old(self).next_id,
                ..node
            }),
    {
        let id = self.next_id;
        let mut stored = node;
        stored.id = id;
        self.nodes.push(stored);
        self.next_id = id + 1;
        id
    }

    /// Replace the record that carries this record's identifier; a record
    /// with an unknown identifier changes nothing.
    pub fn update_node(&mut self, node: Node)
        requires
            old(self).wf(),
        ensures
            final(self).wf(),
            final(self).next_id == old(self).next_id,
            final(self).nodes@.len() == old(self).nodes@.len(),
            forall|i: int|
                0 <= i < old(self).nodes@.len() && (#[trigger] old(self).nodes@[i]).id == node.id
                    ==> final(self).nodes@[i] == node,
            forall|i: int|
                0 <= i < old(self).nodes@.len() && (#[trigger] old(self).nodes@[i]).id != node.id
                    ==> final(self).nodes@[i] == old(self).nodes@[i],
    {
        let mut i: usize = 0;
        while i < self.nodes.len()
            invariant
                old(self).wf(),
                i <= self.nodes@.len(),
                self.next_id == old(self).next_id,
                self.nodes@ == old(self).nodes@,
                forall|j: int| 0 <= j < i ==> (#[trigger] old(self).nodes@[j]).id != node.id,
            decreases self.nodes@.len() - i,
        {
            if self.nodes[i].id == node.id {
                self.nodes.set(i, node);
                proof {
                    assert forall|j: int|
                        0 <= j < self.nodes@.len() && j != i implies self.nodes@[j] == old(
                        self,
                    ).nodes@[j] by {}
                }
                return ;
            }
            i = i + 1;
        }
    }

    /// Whether some record already claims this listening port.
    pub fn port_in_use(&self, port: u16) -> (r: bool)
        ensures
            r == self.spec_port_in_use(port),
    {
        let mut i: usize = 0;
        while i < self.nodes.len()
            invariant
                i <= self.nodes@.len(),
                forall|j: int| 0 <= j < i ==> (#[trigger] self.nodes@[j]).listen_port != port,
            decreases self.nodes@.len() - i,
        {
            if self.nodes[i].listen_port == port {
                return true;
            }
            i = i + 1;
        }
        false
    }

    /// The page of records a list request asks for, with its metadata.
    pub fn list_nodes(&self, pagination: PaginationRequest) -> (r: (Vec<Node>, PaginationResponse))
        requires
            self.nodes@.len() < u64::MAX,
        ensures
            r.0@ == self.nodes@.subrange(
                self.spec_page_start(pagination),
                self.spec_page_end(pagination),
            ),
            r.1.total == self.nodes@.len(),
            r.1.has_more == (self.spec_page_end(pagination) < self.nodes@.len()),
    {
        let len: u64 = self.nodes.len() as u64;
        proof {
            assert((pagination.page as u64) * (pagination.take as u64) <= u64::MAX)
                by (nonlinear_arith)
                requires
                    pagination.page <= u32::MAX,
                    pagination.take <= u32::MAX,
            ;
        }
        let start: u64 = (pagination.page as u64) * (pagination.take as u64);
        let end: u64 = if start > len {
            start
        } else if len - start > pagination.take as u64 {
            start + pagination.take as u64
        } else {
            len
        };
        let mut out: Vec<Node> = Vec::new();
        if start >= len {
            proof {
                assert(out@ =~= self.nodes@.subrange(
                    self.spec_page_start(pagination),
                    self.spec_page_end(pagination),
                ));
            }
            return (out, PaginationResponse { has_more: false, total: len });
        }
        let mut i: usize = start as usize;
        while i < end as usize
            invariant
                start <= i <= end,
                end <= self.nodes@.len(),
                out@ == self.nodes@.subrange(start as int, i as int),
            decreases end - i,
        {
            out.push(self.nodes[i].clone());
            proof {
                assert(out@ =~= self.nodes@.subrange(start as int, i + 1 as int));
            }
            i = i + 1;
        }
        (out, PaginationResponse { has_more: end < len, total: len })
    }

    /// Where the requested page begins: clamped to the registry's length.
    pub open spec fn spec_page_start(self, p: PaginationRequest) -> int {
        if p.page * p.take > self.nodes@.len() {
            self.nodes@.len() as int
        } else {
            p.page * p.take
        }
    }

    /// Where the requested page ends (exclusive).
    pub open spec fn spec_page_end(self, p: PaginationRequest) -> int {
        if p.page * p.take + p.take > self.nodes@.len() {
            self.nodes@.len() as int
        } else {
            p.page * p.take + p.take
        }
    }
}

} // verus!
