//! The packet filter: which packets are logged, and for which packets warnings are held back.
use std::collections::HashSet;
use vstd::prelude::*;

use crate::order::text_precedes;
use crate::text::find_char;
use crate::text::join_text;
use crate::text::same_text;
use crate::text::slice_text;
use crate::text::to_chars;
use crate::text::to_lowercase;

verus! {

broadcast use vstd::std_specs::hash::group_hash_axioms;

/// The packet filter.
///
/// Packets are known by their names in small letters.
pub struct PacketFilter {
    /// The names that the filter lists, in ascending order and each once.
    pub filter: Vec<String>,
    /// The packet IDs for which warnings are held back.
    pub suppress_warnings: HashSet<u32>,
    /// Whether the listed packets are the ones logged, rather than the ones left out.
    pub is_whitelist: bool,
    /// Whether the filter is switched off.
    pub disabled: bool,
}

/// What a packet filter holds.
#[verifier::ext_equal]
pub struct FilterView {
    pub packets: Set<Seq<char>>,
    pub suppressed: Set<u32>,
    pub is_whitelist: bool,
    pub disabled: bool,
}

/// The name of a packet in its textual form: what stands before the first space.
pub open spec fn packet_name(packet: Seq<char>) -> Seq<char> {
    packet.take(crate::text::run_length(packet, ' ') as int)
}

/// The texts of a set, in ascending order.
pub open spec fn in_order(texts: Set<Seq<char>>) -> Seq<Seq<char>> {
    choose|list: Seq<Seq<char>>|
        crate::order::ascending(list) && #[trigger] list.to_set() == texts
}

impl FilterView {
    /// Whether packets of this name, in small letters, are let through while the filter is on.
    pub open spec fn lets_through(self, name: Seq<char>) -> bool {
        self.packets.contains(name) == self.is_whitelist
    }

    /// Whether the packet with this textual form is logged.
    pub open spec fn logs(self, packet: Seq<char>) -> bool {
        self.disabled || self.lets_through(crate::text::lowercase(packet_name(packet)))
    }

    /// Whether warnings about the packet ID are held back.
    pub open spec fn suppresses(self, id: u32) -> bool {
        self.disabled || self.suppressed.contains(id)
    }

    /// The filter after packets of a name are denied or allowed.
    pub open spec fn updated(self, name: Seq<char>, deny: bool) -> FilterView {
        FilterView {
            packets: if self.is_whitelist != deny {
                self.packets.insert(name)
            } else {
                self.packets.remove(name)
            },
            ..self
        }
    }

    /// The filter after warnings about a packet ID are held back or allowed.
    pub open spec fn with_suppression(self, id: u32, suppress: bool) -> FilterView {
        FilterView {
            suppressed: if suppress {
                self.suppressed.insert(id)
            } else {
                self.suppressed.remove(id)
            },
            ..self
        }
    }

    /// The filter without listed packets.
    pub open spec fn cleared(self) -> FilterView {
        FilterView { packets: Set::empty(), ..self }
    }

    /// The filter without listed packets, as a whitelist or as a blacklist.
    pub open spec fn as_list(self, whitelist: bool) -> FilterView {
        FilterView { is_whitelist: whitelist, ..self.cleared() }
    }

    /// The filter switched off or on.
    pub open spec fn switched(self, disabled: bool) -> FilterView {
        FilterView { disabled, ..self }
    }

    /// The mode and the listed packets in one line.
    pub open spec fn listing(self) -> Seq<char> {
        "["@ + (if self.is_whitelist {
            "whitelist"@
        } else {
            "blacklist"@
        }) + "] "@ + (if self.packets.is_empty() {
            "<empty>"@
        } else {
            crate::text::join(in_order(self.packets), ", "@)
        })
    }
}

impl View for PacketFilter {
    type V = FilterView;

    open spec fn view(&self) -> FilterView {
        FilterView {
            packets: self.names().to_set(),
            suppressed: self.suppress_warnings@,
            is_whitelist: self.is_whitelist,
            disabled: self.disabled,
        }
    }
}

impl PacketFilter {
    /// The listed names.
    pub open spec fn names(&self) -> Seq<Seq<char>> {
        crate::text::views(self.filter@)
    }

    /// The listed names ascend, so none is listed twice.
    pub open spec fn wf(&self) -> bool {
        crate::order::ascending(self.names())
    }

    /// A whitelist without entries, switched on.
    pub fn new() -> (filter: Self)
        ensures
            filter.wf(),
            filter@ == (FilterView {
                packets: Set::empty(),
                suppressed: Set::empty(),
                is_whitelist: true,
                disabled: false,
            }),
    {
        let filter = PacketFilter {
            filter: Vec::new(),
            suppress_warnings: HashSet::new(),
            is_whitelist: true,
            disabled: false,
        };
        assert(filter@.packets =~= Set::empty());
        filter
    }

    /// Where `name` is listed, or where it would be inserted.
    fn position(&self, name: &str) -> (result: (usize, bool))
        requires
            self.wf(),
        ensures
            result.0 <= self.filter@.len(),
            result.1 ==> result.0 < self.filter@.len() && self.names()[result.0 as int] == name@,
            result.1 == self@.packets.contains(name@),
            forall|i: int|
                0 <= i < result.0 ==> crate::order::precedes(#[trigger] self.names()[i], name@),
            !result.1 ==> forall|i: int|
                result.0 <= i < self.filter@.len() ==> crate::order::precedes(
                    name@,
                    #[trigger] self.names()[i],
                ),
    {
        let mut at: usize = 0;
        while at < self.filter.len() && text_precedes(self.filter[at].as_str(), name)
            invariant
                at <= self.filter@.len(),
                forall|i: int|
                    0 <= i < at ==> crate::order::precedes(#[trigger] self.names()[i], name@),
            decreases self.filter@.len() - at,
        {
            assert(self.names()[at as int] == self.filter@[at as int]@);
            at = at + 1;
        }
        let found = at < self.filter.len() && same_text(self.filter[at].as_str(), name);
        proof {
            let names = self.names();
            crate::order::lemma_precedes_irreflexive(name@);
            if at < names.len() {
                assert(names[at as int] == self.filter@[at as int]@);
                crate::order::lemma_precedes_total(names[at as int], name@);
                if found {
                    assert(names.contains(name@));
                } else {
                    assert forall|i: int| at <= i < names.len() implies crate::order::precedes(
                        name@,
                        #[trigger] names[i],
                    ) by {
                        if at < i {
                            assert(crate::order::precedes(names[at as int], names[i]));
                            crate::order::lemma_precedes_transitive(
                                name@,
                                names[at as int],
                                names[i],
                            );
                        }
                    }
                }
            }
        }
        (at, found)
    }

    /// Denies or allows packets of a name, given in small letters. Tells whether that changed the
    /// filter.
    pub fn update(&mut self, packet: String, deny: bool) -> (changed: bool)
        requires
            old(self).wf(),
        ensures
            final(self).wf(),
            final(self)@ == old(self)@.updated(packet@, deny),
            changed == (old(self)@.lets_through(packet@) == deny),
            changed == (final(self)@ != old(self)@),
    {
        let (at, listed) = self.position(packet.as_str());
        let ghost before = self.names();
        let ghost name = packet@;
        if self.is_whitelist != deny {
            if !listed {
                self.filter.insert(at, packet);
                proof {
                    let after = self.names();
                    assert(after =~= before.insert(at as int, name));
                    assert(after[at as int] == name);
                    assert forall|i: int, j: int| 0 <= i < j < after.len() implies
                        crate::order::precedes(#[trigger] after[i], #[trigger] after[j]) by {
                        let before_i = if i < at { i } else { i - 1 };
                        let before_j = if j < at { j } else { j - 1 };
                        assert(i != at ==> after[i] == before[before_i]);
                        assert(j != at ==> after[j] == before[before_j]);
                    }
                    assert forall|text: Seq<char>| after.contains(text) <==> (before.contains(text)
                        || text == name) by {
                        if before.contains(text) {
                            let i = choose|i: int| 0 <= i < before.len() && before[i] == text;
                            assert(after[if i < at { i } else { i + 1 }] == text);
                        }
                        if after.contains(text) && text != name {
                            let i = choose|i: int| 0 <= i < after.len() && after[i] == text;
                            assert(before[if i < at { i } else { i - 1 }] == text);
                        }
                    }
                }
            }
        } else {
            if listed {
                let _ = self.filter.remove(at);
                proof {
                    let after = self.names();
                    assert(after =~= before.remove(at as int));
                    assert forall|i: int, j: int| 0 <= i < j < after.len() implies
                        crate::order::precedes(#[trigger] after[i], #[trigger] after[j]) by {
                        assert(after[i] == before[if i < at { i } else { i + 1 }]);
                        assert(after[j] == before[if j < at { j } else { j + 1 }]);
                    }
                    assert forall|text: Seq<char>| after.contains(text) <==> (before.contains(text)
                        && text != name) by {
                        crate::order::lemma_precedes_irreflexive(name);
                        if before.contains(text) && text != name {
                            let i = choose|i: int| 0 <= i < before.len() && before[i] == text;
                            assert(after[if i < at { i } else { i - 1 }] == text);
                        }
                        if after.contains(text) {
                            let i = choose|i: int| 0 <= i < after.len() && after[i] == text;
                            let k = if i < at { i } else { i + 1 };
                            assert(before[k] == text);
                            if k < at {
                                assert(crate::order::precedes(before[k], before[at as int]));
                            } else {
                                assert(crate::order::precedes(before[at as int], before[k]));
                            }
                        }
                    }
                }
            }
        }
        assert(self@.packets =~= old(self)@.updated(name, deny).packets);
        let changed = (self.is_whitelist != deny) != listed;
        assert(changed == (self@.packets.contains(name) != old(self)@.packets.contains(name)));
        changed
    }

    /// Holds back or allows warnings about a packet ID. Tells whether that changed the filter.
    pub fn update_warning_suppression(&mut self, id: u32, suppress: bool) -> (changed: bool)
        requires
            old(self).wf(),
        ensures
            final(self).wf(),
            final(self)@ == old(self)@.with_suppression(id, suppress),
            changed == (old(self)@.suppressed.contains(id) != suppress),
            changed == (final(self)@ != old(self)@),
    {
        let changed = if suppress {
            self.suppress_warnings.insert(id)
        } else {
            self.suppress_warnings.remove(&id)
        };
        assert(self@ =~= old(self)@.with_suppression(id, suppress));
        assert(changed == (self@.suppressed.contains(id) != old(self)@.suppressed.contains(id)));
        if !changed {
            assert(self@ =~= old(self)@);
        }
        changed
    }

    /// Removes the listed packets.
    pub fn clear(&mut self)
        ensures
            final(self).wf(),
            final(self)@ == old(self)@.cleared(),
    {
        self.filter.clear();
        assert(self@ =~= old(self)@.cleared());
    }

    /// Removes the listed packets and makes the filter a whitelist or a blacklist.
    pub fn reset_as(&mut self, whitelist: bool)
        ensures
            final(self).wf(),
            final(self)@ == old(self)@.as_list(whitelist),
    {
        self.is_whitelist = whitelist;
        self.clear();
    }

    /// Switches the filter off or on. Tells whether that changed the filter.
    pub fn set_disabled(&mut self, disabled: bool) -> (success: bool)
        ensures
            old(self).wf() ==> final(self).wf(),
            final(self)@ == old(self)@.switched(disabled),
            success == (old(self)@.disabled != disabled),
            success == (final(self)@ != old(self)@),
    {
        let success = self.disabled != disabled;
        if success {
            self.disabled = disabled;
        }
        success
    }

    /// Tells whether the packet with this textual form is to be logged.
    pub fn test(&self, packet: &str) -> (logged: bool)
        requires
            self.wf(),
        ensures
            logged == self@.logs(packet@),
    {
        if self.disabled {
            return true;
        }
        let chars = to_chars(packet);
        let end = find_char(&chars, 0, ' ');
        assert(chars@.skip(0) =~= packet@);
        let name = slice_text(&chars, 0, end);
        assert(name@ =~= packet_name(packet@));
        let (_, listed) = self.position(to_lowercase(name.as_str()).as_str());
        listed == self.is_whitelist
    }

    /// Tells whether warnings about the packet ID are held back.
    pub fn should_suppress_warning(&self, id: u32) -> (suppressed: bool)
        ensures
            suppressed == self@.suppresses(id),
    {
        if self.disabled {
            return true;
        }
        self.suppress_warnings.contains(&id)
    }

    /// Writes the mode and the listed packets in one line.
    pub fn listing(&self) -> (text: String)
        requires
            self.wf(),
        ensures
            text@ == self@.listing(),
    {
        let mut text = "[".to_owned();
        text.append(if self.is_whitelist { "whitelist" } else { "blacklist" });
        text.append("] ");
        if self.filter.len() == 0 {
            assert(self@.packets =~= Set::empty());
            text.append("<empty>");
        } else {
            proof {
                assert(self.names().contains(self.names()[0]));
                assert(self@.packets.contains(self.names()[0]));
                law_listing_ascends(self);
            }
            text.append(join_text(&self.filter, ", ").as_str());
        }
        text
    }
}

/// A listing shows each listed name once, in ascending order.
pub proof fn law_listing_ascends(filter: &PacketFilter)
    requires
        filter.wf(),
    ensures
        crate::order::ascending(in_order(filter@.packets)),
        in_order(filter@.packets).to_set() == filter@.packets,
        in_order(filter@.packets) == filter.names(),
{
    let names = filter.names();
    let list = in_order(filter@.packets);
    assert(crate::order::ascending(names) && names.to_set() == filter@.packets);
    assert forall|text: Seq<char>| names.contains(text) <==> list.contains(text) by {
        assert(names.contains(text) == names.to_set().contains(text));
        assert(list.contains(text) == list.to_set().contains(text));
    }
    crate::order::lemma_ascending_unique(names, list);
}

} // verus!
