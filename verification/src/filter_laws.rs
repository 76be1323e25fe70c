//! What holds of every packet filter.
use vstd::prelude::*;

use crate::filter::FilterView;

verus! {

/// Whether a packet goes by a name, in whatever case the name is written.
pub open spec fn is_named(packet: Seq<char>, name: Seq<char>) -> bool {
    crate::text::lowercase(crate::filter::packet_name(packet)) == crate::text::lowercase(name)
}

/// A whitelist logs the packets that it lists and no others; a blacklist logs the packets that
/// it does not list and no others.
pub proof fn law_modes(filter: FilterView, packet: Seq<char>)
    requires
        !filter.disabled,
    ensures
        filter.is_whitelist ==> filter.logs(packet) == filter.packets.contains(
            crate::text::lowercase(crate::filter::packet_name(packet)),
        ),
        !filter.is_whitelist ==> filter.logs(packet) == !filter.packets.contains(
            crate::text::lowercase(crate::filter::packet_name(packet)),
        ),
{
}

/// In either mode, packets of a name are logged once the name is allowed, and are not once it is
/// denied. Other packets are treated as before.
pub proof fn law_update_decides(filter: FilterView, name: Seq<char>, deny: bool, packet: Seq<char>)
    requires
        !filter.disabled,
    ensures
        is_named(packet, name) ==> filter.updated(crate::text::lowercase(name), deny).logs(packet)
            == !deny,
        !is_named(packet, name) ==> filter.updated(crate::text::lowercase(name), deny).logs(packet)
            == filter.logs(packet),
{
}

/// Of two updates for a name, the last one counts. So to repeat an update changes nothing, and to
/// deny takes back what to allow has done, and the other way round.
pub proof fn law_last_update_counts(filter: FilterView, name: Seq<char>, first: bool, last: bool)
    ensures
        filter.updated(name, first).updated(name, last) == filter.updated(name, last),
{
    assert(filter.updated(name, first).updated(name, last).packets =~= filter.updated(
        name,
        last,
    ).packets);
}

/// Updates for different names can be made in either order.
pub proof fn law_updates_commute(
    filter: FilterView,
    left: Seq<char>,
    deny_left: bool,
    right: Seq<char>,
    deny_right: bool,
)
    requires
        left != right,
    ensures
        filter.updated(left, deny_left).updated(right, deny_right) == filter.updated(
            right,
            deny_right,
        ).updated(left, deny_left),
{
    assert(filter.updated(left, deny_left).updated(right, deny_right).packets =~= filter.updated(
        right,
        deny_right,
    ).updated(left, deny_left).packets);
}

/// A filter does not tell apart packets whose names differ in case alone, nor does it look beyond
/// the name.
pub proof fn law_only_the_name_counts(filter: FilterView, left: Seq<char>, right: Seq<char>)
    requires
        is_named(left, crate::filter::packet_name(right)),
    ensures
        filter.logs(left) == filter.logs(right),
{
}

/// A name is the same in whatever case it is listed.
pub proof fn law_names_ignore_case(filter: FilterView, left: Seq<char>, right: Seq<char>, deny: bool)
    requires
        crate::text::lowercase(left) == crate::text::lowercase(right),
    ensures
        filter.updated(crate::text::lowercase(left), deny) == filter.updated(
            crate::text::lowercase(right),
            deny,
        ),
        crate::text::lowercase(crate::text::lowercase(left)) == crate::text::lowercase(left),
{
    assert(crate::text::lowercase(crate::text::lowercase(left)) =~= crate::text::lowercase(left));
}

/// A filter that was just reset logs nothing as a whitelist and everything as a blacklist, and
/// keeps its mode unless it is given one.
pub proof fn law_reset(filter: FilterView, packet: Seq<char>)
    requires
        !filter.disabled,
    ensures
        !filter.as_list(true).logs(packet),
        filter.as_list(false).logs(packet),
        filter.cleared() == filter.as_list(filter.is_whitelist),
{
}

/// A filter that is switched off lets every packet be logged and holds back every warning.
pub proof fn law_disabled(filter: FilterView, packet: Seq<char>, id: u32)
    ensures
        filter.switched(true).logs(packet),
        filter.switched(true).suppresses(id),
{
}

/// Switching a filter off and on again leaves it as it was, and so do updates in between apart
/// from their own effect.
pub proof fn law_switching_keeps_entries(filter: FilterView, name: Seq<char>, deny: bool)
    ensures
        filter.switched(true).switched(filter.disabled) == filter,
        filter.switched(true).updated(name, deny).switched(filter.disabled) == filter.updated(
            name,
            deny,
        ),
{
}

/// Warnings about a packet ID are held back once they are suppressed, and are not once they are
/// allowed. Other IDs are treated as before, and of two updates the last one counts.
pub proof fn law_suppression_decides(
    filter: FilterView,
    id: u32,
    other: u32,
    first: bool,
    last: bool,
)
    requires
        !filter.disabled,
        other != id,
    ensures
        filter.with_suppression(id, last).suppresses(id) == last,
        filter.with_suppression(id, last).suppresses(other) == filter.suppresses(other),
        filter.with_suppression(id, first).with_suppression(id, last) == filter.with_suppression(
            id,
            last,
        ),
{
    assert(filter.with_suppression(id, first).with_suppression(id, last).suppressed
        =~= filter.with_suppression(id, last).suppressed);
}

/// Packets and warnings are filtered apart from each other.
pub proof fn law_packets_and_warnings_are_apart(
    filter: FilterView,
    name: Seq<char>,
    deny: bool,
    id: u32,
    suppress: bool,
    packet: Seq<char>,
    other: u32,
)
    ensures
        filter.updated(name, deny).suppresses(other) == filter.suppresses(other),
        filter.cleared().suppresses(other) == filter.suppresses(other),
        filter.with_suppression(id, suppress).logs(packet) == filter.logs(packet),
{
}

} // verus!
