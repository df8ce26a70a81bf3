//! What holds of the advertised services over several steps.
use crate::error::Error;
use crate::mdns::astro::Registration;
use crate::mdns::builtin::{Config, Group, PORT};
use crate::mdns::service::{Service, ServiceMode};
use crate::mdns::table::MAX_SERVICES;
use crate::transport::network::{Address, IpAddr, SocketAddr};
use crate::transport::pipe::PipeView;
use vstd::prelude::*;

verus! {

/// No two services have the same name, and there are no more than fit the table.
pub open spec fn proper(services: Seq<(Seq<char>, ServiceMode)>) -> bool {
    &&& services.len() <= MAX_SERVICES
    &&& forall|i: int, j: int|
        0 <= i < j < services.len() ==> (#[trigger] services[i]).0 != (#[trigger] services[j]).0
}

/// Whether a service of the given name is advertised.
pub open spec fn advertises(services: Seq<(Seq<char>, ServiceMode)>, name: Seq<char>) -> bool {
    exists|i: int| 0 <= i < services.len() && (#[trigger] services[i]).0 == name
}

/// Whether there is room for a service of the given name, which takes the place of
/// one that has it already.
pub open spec fn has_room(services: Seq<(Seq<char>, ServiceMode)>, name: Seq<char>) -> bool {
    crate::mdns::table::without(services, name).len() < MAX_SERVICES
}

/// The services after `name` was added.
pub open spec fn added(
    services: Seq<(Seq<char>, ServiceMode)>,
    name: Seq<char>,
    mode: ServiceMode,
) -> Seq<(Seq<char>, ServiceMode)> {
    crate::mdns::table::without(services, name).push((name, mode))
}

/// Which entries stay, how many, and that they keep apart.
pub(crate) proof fn lemma_without(services: Seq<(Seq<char>, ServiceMode)>, name: Seq<char>)
    ensures
        ({
            let rest = crate::mdns::table::without(services, name);
            &&& rest.len() <= services.len()
            &&& advertises(services, name) ==> rest.len() < services.len()
            &&& !advertises(services, name) ==> rest == services
            &&& forall|entry: (Seq<char>, ServiceMode)| #[trigger]
                rest.contains(entry) <==> services.contains(entry) && entry.0 != name
            &&& proper(services) ==> proper(rest)
        }),
    decreases services.len(),
{
    reveal(Seq::filter);
    let pred = |entry: (Seq<char>, ServiceMode)| entry.0 != name;
    let rest = crate::mdns::table::without(services, name);
    if services.len() > 0 {
        let shorter = services.drop_last();
        let last = services.last();
        lemma_without(shorter, name);
        let kept = crate::mdns::table::without(shorter, name);
        assert(rest == if last.0 != name { kept.push(last) } else { kept });
        assert forall|entry: (Seq<char>, ServiceMode)| #[trigger]
            rest.contains(entry) implies services.contains(entry) && entry.0 != name by {
            let i = choose|i: int| 0 <= i < rest.len() && rest[i] == entry;
            if i < kept.len() {
                assert(kept[i] == entry);
                assert(kept.contains(entry));
                let j = choose|j: int| 0 <= j < shorter.len() && shorter[j] == entry;
                assert(services[j] == entry);
            } else {
                assert(services[services.len() - 1] == entry);
            }
        }
        assert forall|entry: (Seq<char>, ServiceMode)|
            services.contains(entry) && entry.0 != name implies #[trigger] rest.contains(
            entry,
        ) by {
            let j = choose|j: int| 0 <= j < services.len() && services[j] == entry;
            if j < shorter.len() {
                assert(shorter[j] == entry);
                assert(kept.contains(entry));
                let i = choose|i: int| 0 <= i < kept.len() && kept[i] == entry;
                assert(rest[i] == entry);
            } else {
                assert(rest[rest.len() - 1] == entry);
            }
        }
        if advertises(services, name) {
            let i = choose|i: int| 0 <= i < services.len() && (#[trigger] services[i]).0 == name;
            if i < shorter.len() {
                assert(shorter[i].0 == name);
            }
        } else {
            assert(last == services[services.len() - 1]);
            assert forall|i: int| 0 <= i < shorter.len() implies (#[trigger] shorter[i]).0
                != name by {
                assert(services[i].0 != name);
            }
            assert(rest =~= services);
        }
        if proper(services) {
            assert forall|i: int, j: int| 0 <= i < j < shorter.len() implies (
            #[trigger] shorter[i]).0 != (#[trigger] shorter[j]).0 by {
                assert(services[i].0 != services[j].0);
            }
            assert(proper(kept));
            assert forall|i: int, j: int| 0 <= i < j < rest.len() implies (#[trigger] rest[i]).0
                != (#[trigger] rest[j]).0 by {
                if j < kept.len() {
                    assert(kept[i].0 != kept[j].0);
                } else {
                    assert(kept.contains(kept[i]));
                    let k = choose|k: int| 0 <= k < shorter.len() && shorter[k] == kept[i];
                    assert(services[k].0 != services[services.len() - 1].0);
                }
            }
        }
    } else {
        assert(rest =~= services);
    }
}

/// Removing a service keeps the table proper.
pub proof fn removal_keeps_the_table_proper(
    services: Seq<(Seq<char>, ServiceMode)>,
    name: Seq<char>,
)
    requires
        proper(services),
    ensures
        proper(crate::mdns::table::without(services, name)),
{
    lemma_without(services, name);
}

/// Adding a service keeps the table proper, whether there is room for it or not: no two
/// services have the same name, and there are never more than fit.
pub proof fn addition_keeps_the_table_proper(
    services: Seq<(Seq<char>, ServiceMode)>,
    name: Seq<char>,
    mode: ServiceMode,
)
    requires
        proper(services),
    ensures
        proper(crate::mdns::table::without(services, name)),
        has_room(services, name) ==> proper(added(services, name, mode)),
{
    lemma_without(services, name);
    let rest = crate::mdns::table::without(services, name);
    let after = added(services, name, mode);
    assert forall|i: int, j: int|
        has_room(services, name) && 0 <= i < j < after.len() implies (#[trigger] after[i]).0 != (
    #[trigger] after[j]).0 by {
        if j < rest.len() {
            assert(rest[i].0 != rest[j].0);
        } else {
            assert(rest.contains(rest[i]));
        }
    }
}

/// Adding a service fails only while the table is full of other services, and then
/// nothing has changed.
pub proof fn refused_service_changes_nothing(
    services: Seq<(Seq<char>, ServiceMode)>,
    name: Seq<char>,
)
    requires
        proper(services),
    ensures
        has_room(services, name) <==> services.len() < MAX_SERVICES || advertises(services, name),
        !has_room(services, name) ==> crate::mdns::table::without(services, name) == services,
{
    lemma_without(services, name);
}

/// A service that was added is advertised once, with the mode it was added with, and
/// behind all others. The others are those from before, as they were.
pub proof fn added_service_is_advertised(
    services: Seq<(Seq<char>, ServiceMode)>,
    name: Seq<char>,
    mode: ServiceMode,
    entry: (Seq<char>, ServiceMode),
)
    ensures
        added(services, name, mode).last() == (name, mode),
        entry.0 == name ==> (added(services, name, mode).contains(entry) <==> entry.1 == mode),
        entry.0 != name ==> (added(services, name, mode).contains(entry) <==> services.contains(
            entry,
        )),
        added(services, name, mode).drop_last() == crate::mdns::table::without(services, name),
{
    lemma_without(services, name);
    let rest = crate::mdns::table::without(services, name);
    let after = added(services, name, mode);
    assert(after.drop_last() =~= rest);
    assert(after[rest.len() as int] == (name, mode));
    if after.contains(entry) {
        let i = choose|i: int| 0 <= i < after.len() && after[i] == entry;
        if i < rest.len() {
            assert(rest[i] == entry);
            assert(rest.contains(entry));
        }
    }
    if rest.contains(entry) {
        let i = choose|i: int| 0 <= i < rest.len() && rest[i] == entry;
        assert(after[i] == entry);
    }
}

/// A service that was removed is not advertised. The others stay, as they were.
pub proof fn removed_service_is_not_advertised(
    services: Seq<(Seq<char>, ServiceMode)>,
    name: Seq<char>,
    entry: (Seq<char>, ServiceMode),
)
    ensures
        !advertises(crate::mdns::table::without(services, name), name),
        entry.0 != name ==> (crate::mdns::table::without(services, name).contains(entry)
            <==> services.contains(entry)),
{
    lemma_without(services, name);
    let rest = crate::mdns::table::without(services, name);
    if advertises(rest, name) {
        let i = choose|i: int| 0 <= i < rest.len() && (#[trigger] rest[i]).0 == name;
        assert(rest.contains(rest[i]));
    }
}

/// Removing what is not advertised changes nothing.
pub proof fn removing_an_absent_service_changes_nothing(
    services: Seq<(Seq<char>, ServiceMode)>,
    name: Seq<char>,
)
    requires
        !advertises(services, name),
    ensures
        crate::mdns::table::without(services, name) == services,
{
    lemma_without(services, name);
}

/// Removing a service undoes adding it: what is left are the other services.
pub proof fn removing_undoes_adding(
    services: Seq<(Seq<char>, ServiceMode)>,
    name: Seq<char>,
    mode: ServiceMode,
)
    ensures
        crate::mdns::table::without(added(services, name, mode), name)
            == crate::mdns::table::without(services, name),
        !advertises(services, name) ==> crate::mdns::table::without(
            added(services, name, mode),
            name,
        ) == services,
{
    reveal(Seq::filter);
    let rest = crate::mdns::table::without(services, name);
    let after = added(services, name, mode);
    assert(after.drop_last() =~= rest);
    removed_service_is_not_advertised(services, name, (name, mode));
    removing_an_absent_service_changes_nothing(rest, name);
    lemma_without(services, name);
}

/// Adding a service again replaces it: only the last mode counts.
pub proof fn adding_again_replaces(
    services: Seq<(Seq<char>, ServiceMode)>,
    name: Seq<char>,
    first: ServiceMode,
    second: ServiceMode,
)
    requires
        has_room(services, name),
    ensures
        has_room(added(services, name, first), name),
        added(added(services, name, first), name, second) == added(services, name, second),
{
    removing_undoes_adding(services, name, first);
}

/// Where a round of announcements goes that has come to `group`.
pub open spec fn destinations(group: Option<Group>) -> Seq<SocketAddr>
    decreases
            match group {
                Some(Group::V4) => 2nat,
                Some(Group::V6) => 1nat,
                None => 0nat,
            },
{
    match group {
        Some(g) => seq![g.dest()] + destinations(g.successor()),
        None => Seq::empty(),
    }
}

/// A round of announcements goes to the IPv4 group, then to the IPv6 group, each at
/// the mDNS port, and then it is over.
pub proof fn round_goes_to_both_groups()
    ensures
        destinations(Some(Group::V4)) == seq![
            SocketAddr { ip: IpAddr::V4(crate::mdns::builtin::ipv4_group()), port: PORT },
            SocketAddr { ip: IpAddr::V6(crate::mdns::builtin::ipv6_group()), port: PORT },
        ],
{
    reveal_with_fuel(destinations, 3);
    assert(destinations(Some(Group::V4)) =~= seq![Group::V4.dest(), Group::V6.dest()]);
}

/// A reply goes to whoever sent the query, and the query that is answered is what was
/// received from there.
pub proof fn reply_goes_to_whoever_asked(
    received: Seq<u8>,
    len: usize,
    peer: SocketAddr,
    written: Seq<u8>,
    reply: usize,
)
    requires
        len <= received.len(),
        0 < reply <= written.len(),
    ensures
        ({
            let rx = PipeView::filled(received, len, Address::Udp(peer));
            let tx = PipeView::offered(written, Ok::<usize, Error>(reply), rx.chunk->0.addr);
            &&& rx.payload() == received.take(len as int)
            &&& tx.chunk->0.addr == Address::Udp(peer)
            &&& tx.payload() == written.take(reply as int)
        }),
{
}

/// Registering a service again under its name replaces the registration, and removing
/// it leaves the other registrations.
pub proof fn registering_again_replaces<S>(
    registered: Map<Seq<char>, S>,
    name: Seq<char>,
    first: S,
    second: S,
)
    ensures
        registered.remove(name).insert(name, first).remove(name).insert(name, second)
            == registered.remove(name).insert(name, second),
        registered.remove(name).insert(name, first).remove(name) == registered.remove(name),
        registered.remove(name).insert(name, first)[name] == first,
{
    assert(registered.remove(name).insert(name, first).remove(name) =~= registered.remove(name));
}

/// A step of a visit that succeeds has handed a description of the service to
/// `callback`: one that `resolve` gave for the mode, the device, the port and the name of
/// this service. `callback` succeeded, and took the visit from the one state to the other.
pub proof fn step_that_succeeds_calls_back<D, R, S, F>(
    resolve: R,
    callback: F,
    config: Config<'_, D>,
    entry: (Seq<char>, ServiceMode),
    before: S,
    after: S,
) where
    R: Fn(&ServiceMode, &D, u16, &str) -> Result<Service, Error>,
    F: Fn(S, &Service) -> (S, Result<(), Error>),

    requires
        crate::mdns::builtin::stepped(
            resolve,
            callback,
            config,
            entry,
            before,
            after,
            Ok::<(), Error>(()),
        ),
    ensures
        exists|name: &str, service: Service|
            {
                &&& name@ == entry.0
                &&& #[trigger] call_ensures(
                    resolve,
                    (&entry.1, config.dev_det, config.matter_port, name),
                    Ok::<Service, Error>(service),
                )
                &&& call_ensures(
                    callback,
                    (before, &service),
                    (after, Ok::<(), Error>(())),
                )
            },
{
}

/// A step of a visit that fails failed because `resolve` did, and then the state stays,
/// or because `callback` did, with a description of the service that `resolve` gave. The
/// error is that of whichever failed.
pub proof fn step_that_fails_tells_why<D, R, S, F>(
    resolve: R,
    callback: F,
    config: Config<'_, D>,
    entry: (Seq<char>, ServiceMode),
    before: S,
    after: S,
    e: Error,
) where
    R: Fn(&ServiceMode, &D, u16, &str) -> Result<Service, Error>,
    F: Fn(S, &Service) -> (S, Result<(), Error>),

    requires
        crate::mdns::builtin::stepped(
            resolve,
            callback,
            config,
            entry,
            before,
            after,
            Err::<(), Error>(e),
        ),
    ensures
        exists|name: &str, resolved: Result<Service, Error>|
            {
                &&& name@ == entry.0
                &&& #[trigger] call_ensures(
                    resolve,
                    (&entry.1, config.dev_det, config.matter_port, name),
                    resolved,
                )
                &&& resolved is Err ==> resolved->Err_0 == e && after == before
                &&& resolved is Ok ==> call_ensures(
                    callback,
                    (before, &resolved->Ok_0),
                    (after, Err::<(), Error>(e)),
                )
            },
{
}

/// Removing a service looks at each entry by itself: one of the name goes, any other
/// stays, in its place behind those that stay before it.
pub proof fn removal_goes_entry_by_entry(
    services: Seq<(Seq<char>, ServiceMode)>,
    entry: (Seq<char>, ServiceMode),
    name: Seq<char>,
)
    ensures
        crate::mdns::table::without(Seq::empty(), name) == Seq::<
            (Seq<char>, ServiceMode),
        >::empty(),
        entry.0 == name ==> crate::mdns::table::without(services.push(entry), name)
            == crate::mdns::table::without(services, name),
        entry.0 != name ==> crate::mdns::table::without(services.push(entry), name)
            == crate::mdns::table::without(services, name).push(entry),
{
    reveal(Seq::filter);
    assert(services.push(entry).drop_last() =~= services);
}

/// A table is proper exactly if it has four entries at most and no name stands in two of
/// them.
pub proof fn proper_table_has_each_name_once(services: Seq<(Seq<char>, ServiceMode)>)
    ensures
        proper(services) <==> services.len() <= 4 && (forall|i: int, j: int|
            0 <= i < services.len() && 0 <= j < services.len() && (#[trigger] services[i]).0 == (
            #[trigger] services[j]).0 ==> i == j),
{
    if proper(services) {
        assert forall|i: int, j: int|
            0 <= i < services.len() && 0 <= j < services.len() && (#[trigger] services[i]).0 == (
            #[trigger] services[j]).0 implies i == j by {
            if i < j {
                assert(services[i].0 != services[j].0);
            } else if j < i {
                assert(services[j].0 != services[i].0);
            }
        }
    }
}

/// The type under which a service is registered starts with the type of the service, a
/// dot and its protocol. Without subtypes that is all of it; otherwise a comma follows.
pub proof fn registered_type_starts_with_type_and_protocol(service: Service)
    ensures
        ({
            let start = service.service@ + seq!['.'] + service.protocol@;
            let whole = crate::mdns::astro::composite_type(service);
            &&& whole.len() >= start.len()
            &&& whole.take((service.service@.len() + 1 + service.protocol@.len()) as int) == start
            &&& service.service_subtypes@.len() == 0 ==> whole == start
            &&& service.service_subtypes@.len() > 0 ==> whole.len() > start.len()
                && whole[start.len() as int] == ','
        }),
{
    let start = service.service@ + seq!['.'] + service.protocol@;
    let whole = crate::mdns::astro::composite_type(service);
    assert(whole.take((service.service@.len() + 1 + service.protocol@.len()) as int) =~= start);
}

/// One more subtype adds a comma and this subtype to the type under which a service is
/// registered, however many there are already.
pub proof fn each_subtype_is_added_behind_a_comma(
    fewer: Service,
    more: Service,
    subtype: String,
)
    requires
        more.service@ == fewer.service@,
        more.protocol@ == fewer.protocol@,
        more.service_subtypes@ == fewer.service_subtypes@.push(subtype),
    ensures
        crate::mdns::astro::composite_type(more) == crate::mdns::astro::composite_type(fewer)
            + seq![','] + subtype@,
{
    assert(more.service_subtypes@.drop_last() =~= fewer.service_subtypes@);
    assert(more.service_subtypes@.last() == subtype);
    assert(crate::mdns::astro::composite_type(more) =~= crate::mdns::astro::composite_type(fewer)
        + seq![','] + subtype@);
}

/// What is asked of the daemon for a service has its type, its port, its name and its
/// TXT record, and whatever has these asks for that service.
pub proof fn registration_has_all_of_the_service(registration: Registration, service: Service)
    ensures
        registration.is_for(service) <==> {
            &&& registration.service_type@ == crate::mdns::astro::composite_type(service)
            &&& registration.port == service.port
            &&& registration.name@ == service.name@
            &&& registration.txt_kvs@.map_values(|kv: (String, String)| (kv.0@, kv.1@))
                == service.txt_kvs@.map_values(|kv: (String, String)| (kv.0@, kv.1@))
        },
{
    let asked = registration.txt_kvs@.map_values(|kv: (String, String)| (kv.0@, kv.1@));
    let wanted = service.txt_kvs@.map_values(|kv: (String, String)| (kv.0@, kv.1@));
    if registration.is_for(service) {
        assert(asked =~= wanted);
    }
    if asked == wanted {
        assert(asked.len() == wanted.len());
        assert forall|i: int| 0 <= i < registration.txt_kvs@.len() implies {
            &&& (#[trigger] registration.txt_kvs@[i]).0@ == service.txt_kvs@[i].0@
            &&& registration.txt_kvs@[i].1@ == service.txt_kvs@[i].1@
        } by {
            assert(asked[i] == wanted[i]);
        }
    }
}

} // verus!
