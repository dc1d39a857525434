use collab_integrate::collab_builder::AppFlowyCollabBuilder;
use collab_integrate::config::CollabBuilderConfig;
use collab_integrate::connect_state::{CollabConnectReachability, CollabConnectState};
use collab_integrate::identity::{
    check_workspace, checked_identity, CollabObject, CollabType, FlowyError, IdentityError,
    WorkspaceCollabIntegrate,
};
use collab_integrate::ids::Uuid;
use std::cell::Cell;
use std::rc::Rc;

const WORKSPACE: u128 = 0x11111111_2222_3333_4444_555555555555;
const OTHER_WORKSPACE: u128 = 0x99999999_8888_7777_6666_555555555555;
const OBJECT: u128 = 0xaaaaaaaa_bbbb_cccc_dddd_eeeeeeeeeeee;

struct Host {
    workspace: Option<u128>,
    device: Option<&'static str>,
    device_calls: Rc<Cell<u32>>,
}

impl Host {
    fn new(workspace: Option<u128>, device: Option<&'static str>) -> (Host, Rc<Cell<u32>>) {
        let calls = Rc::new(Cell::new(0));
        (Host { workspace, device, device_calls: calls.clone() }, calls)
    }
}

impl WorkspaceCollabIntegrate for Host {
    fn workspace_id(&self) -> Result<Uuid, FlowyError> {
        match self.workspace {
            Some(value) => Ok(Uuid::from_u128(value)),
            None => Err(FlowyError { msg: "no workspace is open".to_string() }),
        }
    }

    fn device_id(&self) -> Result<String, FlowyError> {
        self.device_calls.set(self.device_calls.get() + 1);
        match self.device {
            Some(device) => Ok(device.to_string()),
            None => Err(FlowyError { msg: "no device".to_string() }),
        }
    }
}

#[test]
fn default_config_enables_sync() {
    assert!(CollabBuilderConfig::default().sync_enable);
}

#[test]
fn sync_enable_replaces_the_flag() {
    assert!(!CollabBuilderConfig::default().sync_enable(false).sync_enable);
    assert!(CollabBuilderConfig::default().sync_enable(false).sync_enable(true).sync_enable);
    assert_eq!(
        CollabBuilderConfig { sync_enable: false }.sync_enable(false),
        CollabBuilderConfig { sync_enable: false }
    );
}

#[test]
fn check_workspace_accepts_the_open_workspace() {
    let id = Uuid::from_u128(WORKSPACE);
    assert!(check_workspace(&id, &id).is_ok());
}

#[test]
fn check_workspace_refuses_another_workspace_with_both_ids() {
    let expected = Uuid::from_u128(WORKSPACE);
    let actual = Uuid::from_u128(OTHER_WORKSPACE);
    match check_workspace(&expected, &actual) {
        Err(IdentityError::IdentityMismatch { expected: e, actual: a }) => {
            assert_eq!(e, expected);
            assert_eq!(a, actual);
        },
        other => panic!("unexpected: {:?}", other),
    }
}

#[test]
fn checked_identity_holds_the_parts() {
    let workspace = Uuid::from_u128(WORKSPACE);
    let object = Uuid::from_u128(OBJECT);
    let made = checked_identity(
        &workspace,
        Ok(workspace),
        1,
        &object,
        CollabType::Document,
        Ok("device-1".to_string()),
    )
    .unwrap();
    assert_eq!(made.uid, 1);
    assert_eq!(made.object_id, "aaaaaaaa-bbbb-cccc-dddd-eeeeeeeeeeee");
    assert_eq!(made.workspace_id, "11111111-2222-3333-4444-555555555555");
    assert_eq!(made.collab_type, CollabType::Document);
    assert_eq!(made.device_id, "device-1");
}

#[test]
fn checked_identity_refuses_a_mismatch() {
    let workspace = Uuid::from_u128(WORKSPACE);
    let active = Uuid::from_u128(OTHER_WORKSPACE);
    let object = Uuid::from_u128(OBJECT);
    for device in [Ok("d".to_string()), Err(FlowyError { msg: "no device".to_string() })] {
        let made =
            checked_identity(&workspace, Ok(active), 1, &object, CollabType::Folder, device);
        assert!(matches!(
            made,
            Err(IdentityError::IdentityMismatch { expected, actual })
                if expected == workspace && actual == active
        ));
    }
}

#[test]
fn checked_identity_passes_on_errors() {
    let workspace = Uuid::from_u128(WORKSPACE);
    let object = Uuid::from_u128(OBJECT);
    let made = checked_identity(
        &workspace,
        Err(FlowyError { msg: "closed".to_string() }),
        1,
        &object,
        CollabType::Folder,
        Ok("d".to_string()),
    );
    assert!(matches!(made, Err(IdentityError::Integrate(err)) if err.msg == "closed"));
    let made = checked_identity(
        &workspace,
        Ok(workspace),
        1,
        &object,
        CollabType::Folder,
        Err(FlowyError { msg: "no device".to_string() }),
    );
    assert!(matches!(made, Err(IdentityError::Integrate(err)) if err.msg == "no device"));
}

#[test]
fn collab_object_of_the_open_workspace() {
    let (host, calls) = Host::new(Some(WORKSPACE), Some("device-7"));
    let builder = AppFlowyCollabBuilder::new(host);
    let made = builder
        .collab_object(
            &Uuid::from_u128(WORKSPACE),
            42,
            &Uuid::from_u128(OBJECT),
            CollabType::UserAwareness,
        )
        .unwrap();
    assert_eq!(made.uid, 42);
    assert_eq!(made.object_id, "aaaaaaaa-bbbb-cccc-dddd-eeeeeeeeeeee");
    assert_eq!(made.workspace_id, "11111111-2222-3333-4444-555555555555");
    assert_eq!(made.collab_type, CollabType::UserAwareness);
    assert_eq!(made.device_id, "device-7");
    assert_eq!(calls.get(), 1);
}

#[test]
fn collab_object_fails_fast_on_a_mismatch() {
    let (host, calls) = Host::new(Some(OTHER_WORKSPACE), Some("device-7"));
    let builder = AppFlowyCollabBuilder::new(host);
    let made = builder.collab_object(
        &Uuid::from_u128(WORKSPACE),
        42,
        &Uuid::from_u128(OBJECT),
        CollabType::Document,
    );
    match made {
        Err(IdentityError::IdentityMismatch { expected, actual }) => {
            assert_eq!(expected, Uuid::from_u128(WORKSPACE));
            assert_eq!(actual, Uuid::from_u128(OTHER_WORKSPACE));
        },
        other => panic!("unexpected: {:?}", other),
    }
    assert_eq!(calls.get(), 0);
}

#[test]
fn collab_object_passes_on_the_hosts_errors() {
    let (host, _) = Host::new(None, Some("device-7"));
    let builder = AppFlowyCollabBuilder::new(host);
    let made = builder.collab_object(
        &Uuid::from_u128(WORKSPACE),
        1,
        &Uuid::from_u128(OBJECT),
        CollabType::Document,
    );
    assert!(matches!(made, Err(IdentityError::Integrate(err)) if err.msg == "no workspace is open"));

    let (host, _) = Host::new(Some(WORKSPACE), None);
    let builder = AppFlowyCollabBuilder::new(host);
    let made = builder.collab_object(
        &Uuid::from_u128(WORKSPACE),
        1,
        &Uuid::from_u128(OBJECT),
        CollabType::Document,
    );
    assert!(matches!(made, Err(IdentityError::Integrate(err)) if err.msg == "no device"));
}

#[test]
fn builder_keeps_its_host() {
    let (host, calls) = Host::new(Some(WORKSPACE), Some("device-7"));
    let builder = AppFlowyCollabBuilder::new(host);
    assert_eq!(builder.workspace_integrate().device_id().unwrap(), "device-7");
    assert_eq!(calls.get(), 1);
    assert_eq!(
        builder.workspace_integrate().workspace_id().unwrap(),
        Uuid::from_u128(WORKSPACE)
    );
}

#[test]
fn distinct_identifiers_have_distinct_texts() {
    let values = [0u128, 1, 16, 1 << 64, 1 << 127, u128::MAX, u128::MAX - 1];
    for a in values {
        for b in values {
            let same_text = Uuid::from_u128(a).to_text() == Uuid::from_u128(b).to_text();
            assert_eq!(same_text, a == b);
        }
    }
}

#[test]
fn identity_can_be_cloned() {
    let object = CollabObject::new(
        3,
        "o".to_string(),
        CollabType::WorkspaceDatabase,
        "w".to_string(),
        "d".to_string(),
    );
    let copy = object.clone();
    assert_eq!(copy.uid, 3);
    assert_eq!(copy.object_id, "o");
    assert_eq!(copy.collab_type, CollabType::WorkspaceDatabase);
    assert_eq!(copy.workspace_id, "w");
    assert_eq!(copy.device_id, "d");
}

#[test]
fn network_is_reachable_at_first() {
    let (host, _) = Host::new(Some(WORKSPACE), Some("d"));
    let builder = AppFlowyCollabBuilder::new(host);
    assert_eq!(builder.network_state(), CollabConnectState::Connected);
    assert_eq!(CollabConnectReachability::new().state(), CollabConnectState::Connected);
}

#[test]
fn update_network_sets_the_state() {
    let (host, _) = Host::new(Some(WORKSPACE), Some("d"));
    let mut builder = AppFlowyCollabBuilder::new(host);
    builder.update_network(false);
    assert_eq!(builder.network_state(), CollabConnectState::Disconnected);
    builder.update_network(false);
    assert_eq!(builder.network_state(), CollabConnectState::Disconnected);
    builder.update_network(true);
    assert_eq!(builder.network_state(), CollabConnectState::Connected);
}

#[test]
fn set_state_reports_a_change() {
    let mut flag = CollabConnectReachability::new();
    assert!(!flag.set_state(CollabConnectState::Connected));
    assert!(flag.set_state(CollabConnectState::Disconnected));
    assert!(!flag.set_state(CollabConnectState::Disconnected));
    assert_eq!(flag.state(), CollabConnectState::Disconnected);
}
