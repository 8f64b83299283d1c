use kprobe_manager::error::Error;
use kprobe_manager::handle::{OpenSkelStorage, SkelStorage, Stage};
use kprobe_manager::release::Release;
use kprobe_manager::storage::PinnedStorage;

fn slot() -> PinnedStorage {
    PinnedStorage::allocate(64, 8, 0x7f00_0000).unwrap()
}

fn names(list: &[&str]) -> Vec<String> {
    list.iter().map(|name| name.to_string()).collect()
}

#[test]
fn an_opened_handle_is_open_and_keeps_its_storage() {
    let open = OpenSkelStorage::new(slot(), Some(3)).unwrap();
    assert_eq!(open.stage(), Stage::Open);
    assert_eq!(open.log_level(), 3);
    assert_eq!(open.storage().base(), 0x7f00_0000);
    assert_eq!(open.storage().size(), 64);
    assert_eq!(open.storage().align(), 8);
}

#[test]
fn a_rejected_open_releases_the_storage_only() {
    let failure = OpenSkelStorage::new(slot(), None).unwrap_err();
    assert_eq!(failure.error, Error::OpenFailure);
    assert_eq!(failure.releases, vec![Release::Storage]);
}

#[test]
fn an_open_handle_can_be_configured() {
    let mut open = OpenSkelStorage::new(slot(), Some(3)).unwrap();
    open.set_log_level(7);
    assert_eq!(open.log_level(), 7);
    assert_eq!(open.stage(), Stage::Open);
    assert_eq!(open.storage().base(), 0x7f00_0000);
    open.set_log_level(0);
    assert_eq!(open.log_level(), 0);
}

#[test]
fn loading_keeps_storage_and_configuration() {
    let mut open = OpenSkelStorage::new(slot(), Some(3)).unwrap();
    open.set_log_level(5);
    let loaded = SkelStorage::load(open, Some(names(&["first", "second"]))).unwrap();
    assert_eq!(loaded.stage(), Stage::Loaded);
    assert_eq!(loaded.log_level(), 5);
    assert_eq!(loaded.storage().base(), 0x7f00_0000);
    assert_eq!(loaded.storage().size(), 64);
    assert_eq!(loaded.storage().align(), 8);
    assert_eq!(loaded.programs(), &names(&["first", "second"]));
}

#[test]
fn a_rejected_load_releases_resource_then_storage() {
    let open = OpenSkelStorage::new(slot(), Some(3)).unwrap();
    let failure = SkelStorage::load(open, None).unwrap_err();
    assert_eq!(failure.error, Error::LoadFailure);
    assert_eq!(failure.releases, vec![Release::Resource, Release::Storage]);
}

#[test]
fn an_open_handle_is_torn_down_resource_first() {
    let open = OpenSkelStorage::new(slot(), Some(0)).unwrap();
    assert_eq!(open.teardown(), vec![Release::Resource, Release::Storage]);
}

#[test]
fn a_loaded_handle_is_torn_down_resource_first() {
    let open = OpenSkelStorage::new(slot(), Some(0)).unwrap();
    let loaded = SkelStorage::load(open, Some(Vec::new())).unwrap();
    assert!(loaded.programs().is_empty());
    assert_eq!(loaded.teardown(), vec![Release::Resource, Release::Storage]);
}
