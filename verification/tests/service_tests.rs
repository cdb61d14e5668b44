use node_host::admin::{
    Action, AdminRequest, AdminResponse, AdminService, CallEnv, EngineBuild, Error,
};
use node_host::config::{Config, LightningNodeBackendConfig};
use node_host::database::{AdminDatabase, Node, PaginationRequest};
use node_host::directory::NodeDirectory;

fn service() -> AdminService {
    AdminService::new(
        "data",
        Config {
            backend: LightningNodeBackendConfig::Electrum {
                url: String::from("http://localhost:50001"),
            },
            network: String::from("regtest"),
        },
        NodeDirectory::new(),
        AdminDatabase::new(),
    )
}

fn env_with(engines: Vec<EngineBuild>) -> CallEnv {
    CallEnv { listen_addr: String::from("203.0.113.7"), engines, actions: vec![] }
}

fn build(pubkey: &str, engine_id: u64) -> EngineBuild {
    EngineBuild {
        pubkey: String::from(pubkey),
        macaroon: vec![9, 8, 7, engine_id as u8],
        engine_id,
        task_ids: vec![engine_id * 10, engine_id * 10 + 1],
    }
}

fn message(e: Error) -> String {
    match e {
        Error::Generic(m) => m,
    }
}

fn create_admin(s: &mut AdminService, start: bool) -> (String, String) {
    let mut env = env_with(if start {
        vec![build("adminpk", 1), build("adminpk", 2)]
    } else {
        vec![build("adminpk", 1)]
    });
    let r = s
        .call(
            AdminRequest::CreateAdmin {
                username: String::from("admin"),
                alias: String::from("admin-alias"),
                passphrase: String::from("pw"),
                electrum_url: String::from("http://electrum:50001"),
                start,
            },
            &mut env,
        )
        .unwrap();
    match r {
        AdminResponse::CreateAdmin { pubkey, external_id, role, .. } => {
            assert_eq!(role, 0);
            (pubkey, external_id)
        },
        _ => panic!("unexpected response"),
    }
}

#[test]
fn start_admin_without_admin_record_fails_not_found() {
    let mut s = service();
    let mut env = env_with(vec![build("adminpk", 1)]);
    let r = s.call(AdminRequest::StartAdmin { passphrase: String::from("pw") }, &mut env);
    assert_eq!(message(r.unwrap_err()), "admin node not found, run create first");
    assert_eq!(s.node_directory.handles.len(), 0);
}

#[test]
fn create_then_start_admin_returns_a_token() {
    let mut s = service();
    let (pubkey, external_id) = create_admin(&mut s, false);
    assert_eq!(pubkey, "adminpk");
    assert_eq!(external_id.len(), 16);
    let mut env = env_with(vec![build("adminpk", 2)]);
    let r = s
        .call(AdminRequest::StartAdmin { passphrase: String::from("pw") }, &mut env)
        .unwrap();
    match r {
        AdminResponse::StartAdmin { pubkey, macaroon } => {
            assert_eq!(pubkey, "adminpk");
            assert!(!macaroon.is_empty());
            assert_eq!(macaroon, "09080702");
        },
        _ => panic!("unexpected response"),
    }
    assert_eq!(s.node_directory.handles.len(), 1);
}

#[test]
fn starting_a_running_identity_keeps_one_handle() {
    let mut s = service();
    create_admin(&mut s, true);
    assert_eq!(s.node_directory.handles.len(), 1);
    // No engine build is offered: an idempotent start must not need one.
    let mut env = env_with(vec![]);
    let r = s
        .call(AdminRequest::StartAdmin { passphrase: String::from("pw") }, &mut env)
        .unwrap();
    match r {
        AdminResponse::StartAdmin { pubkey, macaroon } => {
            assert_eq!(pubkey, "adminpk");
            // The existing handle's token answers, built from engine 2.
            assert_eq!(macaroon, "09080702");
        },
        _ => panic!("unexpected response"),
    }
    assert_eq!(s.node_directory.handles.len(), 1);
    assert_eq!(env.engines.len(), 0);
}

#[test]
fn stopping_a_non_running_identity_succeeds() {
    let mut s = service();
    let mut env = env_with(vec![]);
    let r = s
        .call(AdminRequest::StopNode { pubkey: String::from("nobody") }, &mut env)
        .unwrap();
    assert!(matches!(r, AdminResponse::StopNode {}));
    assert!(env.actions.is_empty());
}

#[test]
fn stopping_a_running_node_removes_the_handle_and_hands_back_its_tasks() {
    let mut s = service();
    create_admin(&mut s, true);
    assert_eq!(s.node_directory.handles.len(), 1);
    let mut env = env_with(vec![]);
    let r = s
        .call(AdminRequest::StopNode { pubkey: String::from("adminpk") }, &mut env)
        .unwrap();
    assert!(matches!(r, AdminResponse::StopNode {}));
    assert_eq!(s.node_directory.handles.len(), 0);
    match env.actions.last().unwrap() {
        Action::StopEngine { handle } => {
            assert_eq!(handle.pubkey, "adminpk");
            assert_eq!(handle.engine_id, 2);
            assert_eq!(handle.task_ids, vec![20, 21]);
        },
        _ => panic!("expected a stop action"),
    }
    // The record mirrors the stop.
    assert_eq!(s.database.nodes[0].status, 2);
    // Stopping again is still fine and changes nothing further.
    let mut env2 = env_with(vec![]);
    let r2 = s
        .call(AdminRequest::StopNode { pubkey: String::from("adminpk") }, &mut env2)
        .unwrap();
    assert!(matches!(r2, AdminResponse::StopNode {}));
    assert!(env2.actions.is_empty());
}

#[test]
fn tenant_engine_needs_a_created_and_running_admin() {
    let mut s = service();
    // No admin record at all.
    let mut env = env_with(vec![build("userpk", 5)]);
    let r = s.call(
        AdminRequest::CreateNode {
            username: String::from("alice"),
            alias: String::from("al"),
            passphrase: String::from("pw"),
            start: false,
        },
        &mut env,
    );
    assert_eq!(message(r.unwrap_err()), "admin node not created");

    // Admin record exists but its engine is not running.
    let mut s = service();
    create_admin(&mut s, false);
    let mut env = env_with(vec![build("userpk", 5)]);
    let r = s.call(
        AdminRequest::CreateNode {
            username: String::from("alice"),
            alias: String::from("al"),
            passphrase: String::from("pw"),
            start: false,
        },
        &mut env,
    );
    assert_eq!(message(r.unwrap_err()), "admin node not started");

    // Admin engine running: the tenant engine may borrow its routing.
    let mut s = service();
    create_admin(&mut s, true);
    let mut env = env_with(vec![build("userpk", 5)]);
    let r = s
        .call(
            AdminRequest::CreateNode {
                username: String::from("alice"),
                alias: String::from("al"),
                passphrase: String::from("pw"),
                start: false,
            },
            &mut env,
        )
        .unwrap();
    match r {
        AdminResponse::CreateNode { pubkey, macaroon } => {
            assert_eq!(pubkey, "userpk");
            assert_eq!(macaroon, "09080705");
        },
        _ => panic!("unexpected response"),
    }
}

#[test]
fn allocated_ports_avoid_recorded_ones() {
    let mut s = service();
    create_admin(&mut s, true);
    let mut env = env_with(vec![build("userpk1", 5), build("userpk2", 6)]);
    s.call(
        AdminRequest::CreateNode {
            username: String::from("a"),
            alias: String::from("a"),
            passphrase: String::from("pw"),
            start: false,
        },
        &mut env,
    )
    .unwrap();
    s.call(
        AdminRequest::CreateNode {
            username: String::from("b"),
            alias: String::from("b"),
            passphrase: String::from("pw"),
            start: false,
        },
        &mut env,
    )
    .unwrap();
    let ports: Vec<u16> = s.database.nodes.iter().map(|n| n.listen_port).collect();
    for i in 0..ports.len() {
        for j in 0..ports.len() {
            if i != j {
                assert_ne!(ports[i], ports[j]);
            }
        }
    }
}

#[test]
fn create_without_an_engine_leaves_the_record_behind() {
    let mut s = service();
    let mut env = env_with(vec![]);
    let r = s.call(
        AdminRequest::CreateAdmin {
            username: String::from("admin"),
            alias: String::from("admin-alias"),
            passphrase: String::from("pw"),
            electrum_url: String::from("http://electrum:50001"),
            start: false,
        },
        &mut env,
    );
    assert_eq!(message(r.unwrap_err()), "unable to construct node engine");
    // The insert is deliberately not rolled back.
    assert_eq!(s.database.nodes.len(), 1);
    assert_eq!(s.database.nodes[0].pubkey, "");
}

#[test]
fn delete_node_needs_a_registered_identity() {
    let mut s = service();
    let mut env = env_with(vec![]);
    let r = s.call(AdminRequest::DeleteNode { pubkey: String::from("ghost") }, &mut env);
    assert_eq!(message(r.unwrap_err()), "node not found");

    let (pubkey, external_id) = {
        let mut s2 = service();
        let pair = create_admin(&mut s2, false);
        let mut env2 = env_with(vec![]);
        let r2 = s2
            .call(AdminRequest::DeleteNode { pubkey: pair.0.clone() }, &mut env2)
            .unwrap();
        assert!(matches!(r2, AdminResponse::DeleteNode {}));
        match env2.actions.last().unwrap() {
            Action::RemoveDir { path } => {
                assert_eq!(path, &format!("data/regtest/{}", pair.1));
            },
            _ => panic!("expected a remove action"),
        }
        pair
    };
    assert_eq!(pubkey, "adminpk");
    assert_eq!(external_id.len(), 16);
}

#[test]
fn config_round_trip_and_save_action() {
    let mut s = service();
    let mut env = env_with(vec![]);
    let r = s
        .call(
            AdminRequest::UpdateConfig { electrum_url: String::from("http://other:50001") },
            &mut env,
        )
        .unwrap();
    assert!(matches!(r, AdminResponse::UpdateConfig {}));
    assert!(matches!(env.actions.last().unwrap(), Action::SaveConfig));
    let got = s.call(AdminRequest::GetConfig {}, &mut env).unwrap();
    match got {
        AdminResponse::GetConfig { electrum_url } => {
            assert_eq!(electrum_url, "http://other:50001");
        },
        _ => panic!("unexpected response"),
    }
}

#[test]
fn status_never_fails_on_unknown_identities() {
    let mut s = service();
    let mut env = env_with(vec![]);
    let r = s
        .call(AdminRequest::GetStatus { pubkey: String::from("ghost") }, &mut env)
        .unwrap();
    match r {
        AdminResponse::GetStatus { alias, created, running, authenticated, pubkey, username, role } => {
            assert_eq!(alias, None);
            assert!(!created);
            assert!(!running);
            assert!(!authenticated);
            assert_eq!(pubkey, Some(String::from("ghost")));
            assert_eq!(username, None);
            assert_eq!(role, None);
        },
        _ => panic!("unexpected response"),
    }
}

#[test]
fn status_reports_created_and_running() {
    let mut s = service();
    create_admin(&mut s, true);
    let mut env = env_with(vec![]);
    let r = s
        .call(AdminRequest::GetStatus { pubkey: String::from("adminpk") }, &mut env)
        .unwrap();
    match r {
        AdminResponse::GetStatus { alias, created, running, authenticated, username, role, .. } => {
            assert_eq!(alias, Some(String::from("admin-alias")));
            assert!(created);
            assert!(running);
            assert!(authenticated);
            assert_eq!(username, Some(String::from("admin")));
            assert_eq!(role, Some(0));
        },
        _ => panic!("unexpected response"),
    }
}

#[test]
fn list_nodes_pages_the_registry() {
    let mut s = service();
    for name in ["a", "b", "c", "d", "e"] {
        s.database.create_node(Node::new(
            String::from(name),
            String::from(name),
            String::from("regtest"),
            String::from("203.0.113.7"),
            9000,
        ));
    }
    let mut env = env_with(vec![]);
    let r = s
        .call(
            AdminRequest::ListNodes { pagination: PaginationRequest { page: 1, take: 2 } },
            &mut env,
        )
        .unwrap();
    match r {
        AdminResponse::ListNodes { nodes, pagination } => {
            assert_eq!(nodes.len(), 2);
            assert_eq!(nodes[0].username, "c");
            assert_eq!(nodes[1].username, "d");
            assert!(pagination.has_more);
            assert_eq!(pagination.total, 5);
        },
        _ => panic!("unexpected response"),
    }
    let r = s
        .call(
            AdminRequest::ListNodes { pagination: PaginationRequest { page: 2, take: 2 } },
            &mut env,
        )
        .unwrap();
    match r {
        AdminResponse::ListNodes { nodes, pagination } => {
            assert_eq!(nodes.len(), 1);
            assert_eq!(nodes[0].username, "e");
            assert!(!pagination.has_more);
            assert_eq!(pagination.total, 5);
        },
        _ => panic!("unexpected response"),
    }
}

#[test]
fn start_node_not_found() {
    let mut s = service();
    let mut env = env_with(vec![]);
    let r = s.call(
        AdminRequest::StartNode {
            pubkey: String::from("ghost"),
            passphrase: String::from("pw"),
        },
        &mut env,
    );
    assert_eq!(message(r.unwrap_err()), "node not found");
}

#[test]
fn create_with_start_marks_the_record_running() {
    let mut s = service();
    create_admin(&mut s, true);
    assert_eq!(s.database.nodes[0].status, 1);
    assert_eq!(s.database.nodes[0].listen_addr, "203.0.113.7");
    assert_eq!(s.database.nodes[0].pubkey, "adminpk");
    assert_eq!(s.node_directory.handles.len(), 1);
}
