use std::cell::RefCell;
use std::rc::Rc;

use kprobe_manager::handle::OpenSkelStorage;
use kprobe_manager::manager::KprobeManager;
use kprobe_manager::release::Release;
use kprobe_manager::storage::PinnedStorage;

type Log = Rc<RefCell<Vec<String>>>;

/// Stands for a native value: writes its name into the log when it is dropped.
struct Traced {
    name: String,
    log: Log,
}

impl Traced {
    fn new(name: &str, log: &Log) -> Option<Traced> {
        Some(Traced { name: name.to_string(), log: Rc::clone(log) })
    }
}

impl Drop for Traced {
    fn drop(&mut self) {
        self.log.borrow_mut().push(self.name.clone());
    }
}

/// The native values of one manager, each dropped when its release comes.
struct Native {
    links: Vec<Option<Traced>>,
    skel: Option<Traced>,
    storage: Option<Traced>,
}

impl Native {
    fn perform(&mut self, plan: Vec<Release>) {
        for release in plan {
            match release {
                Release::Attachment(id) => drop(self.links[id].take()),
                Release::Resource => drop(self.skel.take()),
                Release::Storage => drop(self.storage.take()),
            }
        }
    }

    fn is_empty(&self) -> bool {
        self.links.iter().all(|link| link.is_none()) && self.skel.is_none() && self.storage.is_none()
    }
}

fn slot() -> PinnedStorage {
    PinnedStorage::allocate(32, 8, 0x10_0000).unwrap()
}

fn logged(log: &Log) -> Vec<String> {
    log.borrow().clone()
}

#[test]
fn a_drop_tracer_sees_attachments_then_resource_then_storage() {
    let log: Log = Rc::new(RefCell::new(Vec::new()));
    let mut native =
        Native { links: Vec::new(), skel: Traced::new("skel", &log), storage: Traced::new("storage", &log) };
    let open = OpenSkelStorage::new(slot(), Some(1)).unwrap();
    let mut manager =
        KprobeManager::new(open, Some(vec!["kprobe_placeholder".to_string()])).unwrap();
    for probe in ["probe_a", "probe_b"] {
        assert_eq!(manager.attach(probe, true), Ok(()));
        native.links.push(Traced::new(probe, &log));
    }
    assert!(logged(&log).is_empty());
    native.perform(manager.teardown());
    assert_eq!(logged(&log), vec!["probe_a", "probe_b", "skel", "storage"]);
    assert!(native.is_empty());
}

#[test]
fn a_drop_tracer_sees_the_storage_go_last_when_the_load_is_rejected() {
    let log: Log = Rc::new(RefCell::new(Vec::new()));
    let mut native =
        Native { links: Vec::new(), skel: Traced::new("skel", &log), storage: Traced::new("storage", &log) };
    let open = OpenSkelStorage::new(slot(), Some(1)).unwrap();
    let failure = KprobeManager::new(open, None).unwrap_err();
    native.perform(failure.releases);
    assert_eq!(logged(&log), vec!["skel", "storage"]);
    assert!(native.is_empty());
}

#[test]
fn a_drop_tracer_sees_only_the_storage_go_when_the_open_is_rejected() {
    let log: Log = Rc::new(RefCell::new(Vec::new()));
    let mut native = Native { links: Vec::new(), skel: None, storage: Traced::new("storage", &log) };
    let failure = OpenSkelStorage::new(slot(), None).unwrap_err();
    native.perform(failure.releases);
    assert_eq!(logged(&log), vec!["storage"]);
    assert!(native.is_empty());
}

#[test]
fn a_drop_tracer_sees_an_open_handle_go_resource_first() {
    let log: Log = Rc::new(RefCell::new(Vec::new()));
    let mut native =
        Native { links: Vec::new(), skel: Traced::new("skel", &log), storage: Traced::new("storage", &log) };
    let open = OpenSkelStorage::new(slot(), Some(1)).unwrap();
    native.perform(open.teardown());
    assert_eq!(logged(&log), vec!["skel", "storage"]);
    assert!(native.is_empty());
}
