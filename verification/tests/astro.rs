use matter::error::{Error, ErrorCode};
use matter::mdns::astro::{Mdns, Registration};
use matter::mdns::service::{Service, ServiceMode};
use std::cell::RefCell;
use std::rc::Rc;

const MDNS_ERROR: Error = Error { code: ErrorCode::MdnsError };
const NO_SPACE: Error = Error { code: ErrorCode::NoSpace };

fn strings(items: &[&str]) -> Vec<String> {
    items.iter().map(|item| item.to_string()).collect()
}

fn service(name: &str, subtypes: &[&str]) -> Service {
    Service {
        name: name.to_string(),
        service: "_matterc".to_string(),
        protocol: "_udp".to_string(),
        port: 5540,
        service_subtypes: strings(subtypes),
        txt_kvs: vec![
            ("D".to_string(), "250".to_string()),
            ("CM".to_string(), "1".to_string()),
        ],
    }
}

/// A registration that tells when it ends.
struct Handle(&'static str, Rc<RefCell<Vec<&'static str>>>);

impl Drop for Handle {
    fn drop(&mut self) {
        self.1.borrow_mut().push(self.0);
    }
}

#[test]
fn type_without_subtypes() {
    assert_eq!(Registration::new(&service("a", &[])).service_type, "_matterc._udp");
}

#[test]
fn type_with_subtypes() {
    assert_eq!(
        Registration::new(&service("a", &["_L250"])).service_type,
        "_matterc._udp,_L250"
    );
    assert_eq!(
        Registration::new(&service("a", &["_L250", "", "_S0"])).service_type,
        "_matterc._udp,_L250,,_S0"
    );
}

#[test]
fn registration_asks_for_the_service() {
    let registration = Registration::new(&service("a", &[]));
    assert_eq!(registration.name, "a");
    assert_eq!(registration.port, 5540);
    assert_eq!(
        registration.txt_kvs,
        vec![("D".to_string(), "250".to_string()), ("CM".to_string(), "1".to_string())]
    );
}

#[test]
fn registering_again_replaces() {
    let ended = Rc::new(RefCell::new(vec![]));
    let mut m: Mdns<'_, u32, Handle> = Mdns::new(1, "host", [0; 4], None, &8, 5540);
    for handle in ["first", "second"] {
        let added = m.add(
            "a",
            ServiceMode::Commissionable(250),
            |mode: &ServiceMode, dev_det: &u32, port, name: &str| {
                assert_eq!((*mode, *dev_det, port), (ServiceMode::Commissionable(250), 8, 5540));
                Ok(service(name, &[]))
            },
            |_: &Mdns<'_, u32, Handle>, _: &Registration| Ok::<Handle, ()>(Handle(handle, ended.clone())),
        );
        assert_eq!(added, Ok(()));
    }
    assert_eq!(*ended.borrow(), vec!["first"]);
    assert!(m.is_registered("a") && !m.is_registered("b"));
    assert_eq!(m.remove("b"), Ok(()));
    assert_eq!(*ended.borrow(), vec!["first"]);
    assert_eq!(m.remove("a"), Ok(()));
    assert_eq!(*ended.borrow(), vec!["first", "second"]);
    assert!(!m.is_registered("a"));
}

#[test]
fn earlier_registration_ends_before_the_next_begins() {
    let ended = Rc::new(RefCell::new(vec![]));
    let mut m: Mdns<'_, u32, Handle> = Mdns::native_new(&8, 5540);
    m.add(
        "a",
        ServiceMode::Commissioned,
        |_: &ServiceMode, _: &u32, _, name: &str| Ok(service(name, &[])),
        |_: &Mdns<'_, u32, Handle>, _: &Registration| Ok::<Handle, ()>(Handle("first", ended.clone())),
    )
    .unwrap();
    let added = m.add(
        "a",
        ServiceMode::Commissioned,
        |_: &ServiceMode, _: &u32, _, name: &str| {
            assert_eq!(*ended.borrow(), vec!["first"]);
            Ok(service(name, &[]))
        },
        |left: &Mdns<'_, u32, Handle>, _: &Registration| {
            assert!(!left.is_registered("a"));
            assert_eq!(*ended.borrow(), vec!["first"]);
            Err::<Handle, &str>("refused")
        },
    );
    assert_eq!(added, Err(MDNS_ERROR));
}

#[test]
fn failed_description_is_returned() {
    let ended = Rc::new(RefCell::new(vec![]));
    let mut m: Mdns<'_, u32, Handle> = Mdns::native_new(&8, 5540);
    m.add(
        "a",
        ServiceMode::Commissioned,
        |_: &ServiceMode, _: &u32, _, name: &str| Ok(service(name, &[])),
        |_: &Mdns<'_, u32, Handle>, _: &Registration| Ok::<Handle, ()>(Handle("first", ended.clone())),
    )
    .unwrap();
    let added = m.add(
        "a",
        ServiceMode::Commissioned,
        |_: &ServiceMode, _: &u32, _, _: &str| Err(NO_SPACE),
        |_: &Mdns<'_, u32, Handle>, _: &Registration| -> Result<Handle, ()> { panic!("there is no description") },
    );
    assert_eq!(added, Err(NO_SPACE));
    assert_eq!(*ended.borrow(), vec!["first"]);
}

#[test]
fn registration_is_kept_under_the_described_name() {
    let ended = Rc::new(RefCell::new(vec![]));
    let mut m: Mdns<'_, u32, Handle> = Mdns::native_new(&8, 5540);
    m.add(
        "a",
        ServiceMode::Commissioned,
        |_: &ServiceMode, _: &u32, _, _: &str| Ok(service("other", &[])),
        |_: &Mdns<'_, u32, Handle>, _: &Registration| Ok::<Handle, ()>(Handle("first", ended.clone())),
    )
    .unwrap();
    m.remove("a").unwrap();
    assert!(ended.borrow().is_empty());
    m.remove("other").unwrap();
    assert_eq!(*ended.borrow(), vec!["first"]);
}

#[test]
fn registering_in_two_steps() {
    let ended = Rc::new(RefCell::new(vec![]));
    let mut m: Mdns<'_, u32, Handle> = Mdns::native_new(&8, 5540);
    m.finish("b".to_string(), Ok::<Handle, ()>(Handle("other", ended.clone()))).unwrap();
    for handle in ["first", "second"] {
        let asked = m
            .begin(
                "a",
                ServiceMode::Commissioned,
                |mode: &ServiceMode, dev_det: &u32, port, name: &str| {
                    assert_eq!((*mode, *dev_det, port), (ServiceMode::Commissioned, 8, 5540));
                    Ok(service(name, &["_S0"]))
                },
            )
            .unwrap();
        assert_eq!(asked.name, "a");
        assert_eq!(asked.service_type, "_matterc._udp,_S0");
        assert!(!m.is_registered("a") && m.is_registered("b"));
        let handle = Handle(handle, ended.clone());
        assert_eq!(m.finish(asked.name, Ok::<Handle, ()>(handle)), Ok(()));
        assert!(m.is_registered("a") && m.is_registered("b"));
    }
    assert_eq!(*ended.borrow(), vec!["first"]);
}

#[test]
fn refusal_of_the_daemon_changes_nothing() {
    let ended = Rc::new(RefCell::new(vec![]));
    let mut m: Mdns<'_, u32, Handle> = Mdns::native_new(&8, 5540);
    m.finish("a".to_string(), Ok::<Handle, ()>(Handle("first", ended.clone()))).unwrap();
    assert_eq!(m.finish("a".to_string(), Err::<Handle, u8>(3)), Err(MDNS_ERROR));
    assert!(m.is_registered("a") && ended.borrow().is_empty());
}

#[test]
fn failed_description_begins_nothing() {
    let ended = Rc::new(RefCell::new(vec![]));
    let mut m: Mdns<'_, u32, Handle> = Mdns::native_new(&8, 5540);
    m.finish("a".to_string(), Ok::<Handle, ()>(Handle("first", ended.clone()))).unwrap();
    let asked = m.begin(
        "a",
        ServiceMode::Commissioned,
        |_: &ServiceMode, _: &u32, _, _: &str| Err(NO_SPACE),
    );
    assert!(matches!(asked, Err(e) if e == NO_SPACE));
    assert_eq!(*ended.borrow(), vec!["first"]);
}
