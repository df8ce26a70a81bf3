//! The backend that registers services with the DNS-SD daemon of the system.
use crate::error::{Error, ErrorCode};
use crate::mdns::service::{Service, ServiceMode};
use vstd::hash_map::StringHashMap;
use vstd::prelude::*;

verus! {

/// The items, with a comma between each two of them.
pub open spec fn joined(items: Seq<String>) -> Seq<char>
    decreases items.len(),
{
    if items.len() == 0 {
        Seq::empty()
    } else if items.len() == 1 {
        items[0]@
    } else {
        joined(items.drop_last()) + seq![','] + items.last()@
    }
}

/// The type under which a service is registered: the type of the service and its
/// protocol, with a dot between them, and behind a comma its subtypes, if it has any.
pub open spec fn composite_type(service: Service) -> Seq<char> {
    let base = service.service@ + seq!['.'] + service.protocol@;
    if service.service_subtypes@.len() > 0 {
        base + seq![','] + joined(service.service_subtypes@)
    } else {
        base
    }
}

/// What is asked of the DNS-SD daemon.
#[derive(Debug)]
pub struct Registration {
    /// The type of the service, its protocol and its subtypes.
    pub service_type: String,
    pub port: u16,
    /// The name of the instance.
    pub name: String,
    /// The keys and values of the TXT record, in the order in which they are set.
    pub txt_kvs: Vec<(String, String)>,
}

impl Registration {
    /// Whether this asks for `service`.
    pub open spec fn is_for(self, service: Service) -> bool {
        &&& self.service_type@ == composite_type(service)
        &&& self.port == service.port
        &&& self.name@ == service.name@
        &&& self.txt_kvs@.len() == service.txt_kvs@.len()
        &&& forall|i: int|
            0 <= i < self.txt_kvs@.len() ==> {
                &&& (#[trigger] self.txt_kvs@[i]).0@ == service.txt_kvs@[i].0@
                &&& self.txt_kvs@[i].1@ == service.txt_kvs@[i].1@
            }
    }

    /// What is asked of the daemon to have `service` advertised.
    pub fn new(service: &Service) -> (registration: Registration)
        ensures
            registration.is_for(*service),
    {
        let mut txt_kvs: Vec<(String, String)> = Vec::new();
        for i in 0..service.txt_kvs.len()
            invariant
                txt_kvs@.len() == i,
                forall|j: int|
                    0 <= j < i ==> {
                        &&& (#[trigger] txt_kvs@[j]).0@ == service.txt_kvs@[j].0@
                        &&& txt_kvs@[j].1@ == service.txt_kvs@[j].1@
                    },
        {
            let kv = &service.txt_kvs[i];
            txt_kvs.push((kv.0.clone(), kv.1.clone()));
        }
        Registration {
            service_type: service_type(service),
            port: service.port,
            name: service.name.clone(),
            txt_kvs,
        }
    }
}

/// The type under which `service` is registered.
fn service_type(service: &Service) -> (composite: String)
    ensures
        composite@ == composite_type(*service),
{
    proof {
        reveal_strlit(".");
        reveal_strlit(",");
    }
    let mut composite = service.service.clone();
    composite.append(".");
    composite.append(service.protocol.as_str());
    let ghost base = composite@;
    for i in 0..service.service_subtypes.len()
        invariant
            composite@ == if i == 0 {
                base
            } else {
                base + seq![','] + joined(service.service_subtypes@.take(i as int))
            },
            ","@ == seq![','],
    {
        let ghost before = service.service_subtypes@.take(i as int);
        let ghost after = service.service_subtypes@.take(i + 1);
        composite.append(",");
        composite.append(service.service_subtypes[i].as_str());
        assert(after.drop_last() == before);
        assert(after.last() == service.service_subtypes@[i as int]);
    }
    assert(service.service_subtypes@.take(service.service_subtypes@.len() as int)
        == service.service_subtypes@);
    composite
}

/// The registered services.
///
/// `D` holds the details of the device; they are handed on to whatever describes a
/// service. `S` stands for a registration with the daemon, which ends when the value
/// is dropped.
#[verifier::reject_recursive_types(S)]
pub struct Mdns<'a, D, S> {
    dev_det: &'a D,
    matter_port: u16,
    services: StringHashMap<S>,
}

impl<'a, D, S> View for Mdns<'a, D, S> {
    type V = Map<Seq<char>, S>;

    /// The registrations, by the name of the service.
    closed spec fn view(&self) -> Map<Seq<char>, S> {
        self.services@
    }
}

impl<'a, D, S> Mdns<'a, D, S> {
    /// The details of the device.
    pub closed spec fn device(&self) -> &'a D {
        self.dev_det
    }

    /// The port that Matter listens on.
    pub closed spec fn port(&self) -> u16 {
        self.matter_port
    }

    /// No service is registered yet. The daemon knows the host, so what is said of it
    /// is not used.
    pub fn new(
        _id: u16,
        _hostname: &str,
        _ip: [u8; 4],
        _ipv6: Option<[u8; 16]>,
        dev_det: &'a D,
        matter_port: u16,
    ) -> (mdns: Mdns<'a, D, S>)
        ensures
            mdns.device() == dev_det,
            mdns.port() == matter_port,
            mdns@ == Map::<Seq<char>, S>::empty(),
    {
        Mdns::native_new(dev_det, matter_port)
    }

    /// No service is registered yet.
    pub fn native_new(dev_det: &'a D, matter_port: u16) -> (mdns: Mdns<'a, D, S>)
        ensures
            mdns.device() == dev_det,
            mdns.port() == matter_port,
            mdns@ == Map::<Seq<char>, S>::empty(),
    {
        Mdns { dev_det, matter_port, services: StringHashMap::new() }
    }

    /// Whether a service is registered under `name`.
    pub fn is_registered(&self, name: &str) -> (registered: bool)
        ensures
            registered == self@.contains_key(name@),
    {
        self.services.contains_key(name)
    }

    /// Begins to register the service `name`: ends an earlier registration under that
    /// name, and returns what the daemon has to be asked for, the outcome of which goes
    /// to [`Mdns::finish`].
    ///
    /// `resolve` describes the service; it gets its mode, the details of the device, the
    /// Matter port and its name. What it fails with is returned.
    pub fn begin<R>(&mut self, name: &str, mode: ServiceMode, resolve: R) -> (asked: Result<
        Registration,
        Error,
    >) where R: FnOnce(&ServiceMode, &D, u16, &str) -> Result<Service, Error>
        requires
            call_requires(resolve, (&mode, old(self).device(), old(self).port(), name)),
        ensures
            final(self).device() == old(self).device(),
            final(self).port() == old(self).port(),
            final(self)@ == old(self)@.remove(name@),
            exists|resolved: Result<Service, Error>|
                {
                    &&& #[trigger] call_ensures(
                        resolve,
                        (&mode, old(self).device(), old(self).port(), name),
                        resolved,
                    )
                    &&& match resolved {
                        Ok(service) => asked matches Ok(registration) && registration.is_for(
                            service,
                        ),
                        Err(e) => asked == Err::<Registration, Error>(e),
                    }
                },
    {
        let _ = self.remove(name);
        match resolve(&mode, self.dev_det, self.matter_port, name) {
            Ok(service) => Ok(Registration::new(&service)),
            Err(e) => Err(e),
        }
    }

    /// Finishes to register a service, with what the daemon answered: keeps the
    /// registration under `name`, in place of an earlier one. A refusal is an mDNS error,
    /// and changes nothing.
    pub fn finish<E>(&mut self, name: String, registered: Result<S, E>) -> (result: Result<
        (),
        Error,
    >)
        ensures
            final(self).device() == old(self).device(),
            final(self).port() == old(self).port(),
            match registered {
                Ok(svc) => {
                    &&& result == Ok::<(), Error>(())
                    &&& final(self)@ == old(self)@.insert(name@, svc)
                },
                Err(_) => {
                    &&& result == Err::<(), Error>(Error { code: ErrorCode::MdnsError })
                    &&& final(self)@ == old(self)@
                },
            },
    {
        match registered {
            Ok(svc) => {
                self.services.insert(name, svc);
                Ok(())
            },
            Err(_) => Err(Error::new(ErrorCode::MdnsError)),
        }
    }

    /// Registers the service `name`.
    ///
    /// An earlier registration under that name ends first. `resolve` describes the
    /// service; it gets its mode, the details of the device, the Matter port and its
    /// name. `register` asks the daemon for it; it sees the registrations that are left
    /// by then. The registration is kept under the name in the description. What
    /// `resolve` fails with is returned; a failure of `register` is an mDNS error.
    pub fn add<R, G, E>(&mut self, name: &str, mode: ServiceMode, resolve: R, register: G) -> (result:
        Result<(), Error>) where
        R: FnOnce(&ServiceMode, &D, u16, &str) -> Result<Service, Error>,
        G: FnOnce(&Mdns<'a, D, S>, &Registration) -> Result<S, E>,

        requires
            call_requires(resolve, (&mode, old(self).device(), old(self).port(), name)),
            forall|service: Service, left: &Mdns<'a, D, S>, registration: Registration|
                {
                    &&& #[trigger] call_ensures(
                        resolve,
                        (&mode, old(self).device(), old(self).port(), name),
                        Ok::<Service, Error>(service),
                    )
                    &&& left@ == old(self)@.remove(name@)
                    &&& registration.is_for(service)
                } ==> #[trigger] call_requires(register, (left, &registration)),
        ensures
            final(self).device() == old(self).device(),
            final(self).port() == old(self).port(),
            exists|resolved: Result<Service, Error>|
                {
                    &&& #[trigger] call_ensures(
                        resolve,
                        (&mode, old(self).device(), old(self).port(), name),
                        resolved,
                    )
                    &&& match resolved {
                        Err(e) => {
                            &&& result == Err::<(), Error>(e)
                            &&& final(self)@ == old(self)@.remove(name@)
                        },
                        Ok(service) => exists|
                            left: &Mdns<'a, D, S>,
                            registration: Registration,
                            registered: Result<S, E>,
                        |
                            {
                                &&& left@ == old(self)@.remove(name@)
                                &&& registration.is_for(service)
                                &&& #[trigger] call_ensures(
                                    register,
                                    (left, &registration),
                                    registered,
                                )
                                &&& match registered {
                                    Ok(svc) => {
                                        &&& result == Ok::<(), Error>(())
                                        &&& final(self)@ == old(self)@.remove(name@).insert(
                                            service.name@,
                                            svc,
                                        )
                                    },
                                    Err(_) => {
                                        &&& result == Err::<(), Error>(
                                            Error { code: ErrorCode::MdnsError },
                                        )
                                        &&& final(self)@ == old(self)@.remove(name@)
                                    },
                                }
                            },
                    }
                },
    {
        match self.begin(name, mode, resolve) {
            Ok(registration) => {
                let registered = register(&*self, &registration);
                self.finish(registration.name, registered)
            },
            Err(e) => Err(e),
        }
    }

    /// Ends the registration of the service `name`, if there is one.
    pub fn remove(&mut self, name: &str) -> (result: Result<(), Error>)
        ensures
            result == Ok::<(), Error>(()),
            final(self).device() == old(self).device(),
            final(self).port() == old(self).port(),
            final(self)@ == old(self)@.remove(name@),
    {
        self.services.remove(name);
        Ok(())
    }
}

} // verus!
