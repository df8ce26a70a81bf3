//! The table of advertised services: a vector of fixed capacity from `heapless`.
use crate::mdns::service::ServiceMode;
use vstd::prelude::*;

verus! {

/// How many services can be advertised at a time.
pub const MAX_SERVICES: usize = 4;

/// How many bytes the name of a service may have.
pub const MAX_SERVICE_NAME: usize = 40;

/// `heapless::Vec`: a vector that holds a fixed number of items at most. Opaque
/// here; see [`entries`].
#[verifier::external_type_specification]
#[verifier::external_body]
#[verifier::reject_recursive_types(T)]
pub struct ExFixedVec<T, const N: usize>(heapless::Vec<T, N>);

/// `heapless::String`: a string that holds a fixed number of bytes at most. Opaque
/// here; see [`chars`].
#[verifier::external_type_specification]
#[verifier::external_body]
pub struct ExFixedString<const N: usize>(heapless::String<N>);

/// The characters of a name.
pub uninterp spec fn chars(name: heapless::String<40>) -> Seq<char>;

/// The services of the table, in the order in which they were added: the name and
/// the mode of each.
pub uninterp spec fn entries(
    table: heapless::Vec<(heapless::String<40>, ServiceMode), 4>,
) -> Seq<(Seq<char>, ServiceMode)>;

/// `<heapless::String as From<&str>>::from`: the string with the same characters.
/// It panics where the bytes do not fit, which the precondition excludes.
#[verifier::external_body]
pub(crate) fn name_from(service: &str) -> (name: heapless::String<40>)
    requires
        vstd::utf8::encode_utf8(service@).len() <= MAX_SERVICE_NAME,
    ensures
        chars(name) == service@,
{
    heapless::String::from(service)
}

/// `heapless::String::as_str`: the same characters.
#[verifier::external_body]
pub(crate) fn name_as_str(name: &heapless::String<40>) -> (service: &str)
    ensures
        service@ == chars(*name),
{
    name.as_str()
}

/// `<heapless::String as PartialEq<str>>::eq`: whether both have the same
/// characters.
#[verifier::external_body]
fn name_is(name: &heapless::String<40>, service: &str) -> (same: bool)
    ensures
        same == (chars(*name) == service@),
{
    name == service
}

/// `heapless::Vec::new`: an empty vector.
#[verifier::external_body]
pub(crate) fn table_new() -> (table: heapless::Vec<(heapless::String<40>, ServiceMode), 4>)
    ensures
        entries(table) == Seq::<(Seq<char>, ServiceMode)>::empty(),
{
    heapless::Vec::new()
}

/// `heapless::Vec::push`: puts the item behind the others, or hands it back where
/// the vector holds as many items as it can.
#[verifier::external_body]
pub(crate) fn table_push(
    table: &mut heapless::Vec<(heapless::String<40>, ServiceMode), 4>,
    item: (heapless::String<40>, ServiceMode),
) -> (pushed: Result<(), (heapless::String<40>, ServiceMode)>)
    ensures
        entries(*old(table)).len() < MAX_SERVICES ==> {
            &&& pushed is Ok
            &&& entries(*final(table)) == entries(*old(table)).push((chars(item.0), item.1))
        },
        entries(*old(table)).len() >= MAX_SERVICES ==> {
            &&& pushed == Err::<(), (heapless::String<40>, ServiceMode)>(item)
            &&& entries(*final(table)) == entries(*old(table))
        },
{
    table.push(item)
}

/// Whether the item has another name than `service`.
fn is_other(item: &(heapless::String<40>, ServiceMode), service: &str) -> (other: bool)
    ensures
        other == (chars(item.0) != service@),
{
    !name_is(&item.0, service)
}

/// The entries with another name than `service`, in their order.
pub open spec fn without(
    services: Seq<(Seq<char>, ServiceMode)>,
    service: Seq<char>,
) -> Seq<(Seq<char>, ServiceMode)> {
    services.filter(|entry: (Seq<char>, ServiceMode)| entry.0 != service)
}

/// Whether an entry stays where others are kept goes by its name alone: it stays exactly
/// if that is another name, whatever its mode.
proof fn entries_stay_by_their_name(
    item: &(heapless::String<40>, ServiceMode),
    service: &str,
    other: bool,
)
    requires
        call_ensures(is_other, (item, service), other),
    ensures
        other <==> chars(item.0) != service@,
        other <==> without(seq![(chars(item.0), item.1)], service@).len() == 1,
        !other <==> without(seq![(chars(item.0), item.1)], service@).len() == 0,
{
    reveal(Seq::filter);
    let entries = seq![(chars(item.0), item.1)];
    assert(entries.drop_last() =~= Seq::empty());
    assert(entries.last() == (chars(item.0), item.1));
    assert(without(Seq::empty(), service@) =~= Seq::empty());
}

/// `heapless::Vec::retain`, with [`is_other`] as the predicate: the items that meet
/// it stay, in their order, and the others leave.
#[verifier::external_body]
pub(crate) fn table_retain_others(
    table: &mut heapless::Vec<(heapless::String<40>, ServiceMode), 4>,
    service: &str,
)
    ensures
        entries(*final(table)) == without(entries(*old(table)), service@),
{
    table.retain(|item| is_other(item, service))
}

/// `heapless::Vec::as_slice`: the items, in their order.
#[verifier::external_body]
pub(crate) fn table_as_slice(
    table: &heapless::Vec<(heapless::String<40>, ServiceMode), 4>,
) -> (items: &[(heapless::String<40>, ServiceMode)])
    ensures
        items@.len() == entries(*table).len(),
        forall|i: int|
            0 <= i < items@.len() ==> #[trigger] entries(*table)[i] == (
                chars(items@[i].0),
                items@[i].1,
            ),
{
    table.as_slice()
}

} // verus!
