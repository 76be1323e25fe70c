//! What each command sets, and what it leaves alone.
use vstd::prelude::*;

use crate::console::ReplyView;
use crate::filter::FilterView;
use crate::filter::PacketFilter;
use crate::grammar::Command;
use crate::grammar::CommandView;
use crate::message::Message;
use crate::message::Span;
use crate::number::NumberError;
use crate::proxy::Proxy;
use crate::proxy::ProxyView;

verus! {

/// Whether two settings differ in their filters alone.
pub open spec fn same_but_filter(left: ProxyView, right: ProxyView) -> bool {
    &&& left.log_packets == right.log_packets
    &&& left.log_warnings == right.log_warnings
    &&& left.max_buffer_display_length == right.max_buffer_display_length
}

/// Whether two filters differ in their listed packets alone.
pub open spec fn same_but_packets(left: FilterView, right: FilterView) -> bool {
    &&& left.is_whitelist == right.is_whitelist
    &&& left.disabled == right.disabled
    &&& left.suppressed == right.suppressed
}

/// Pausing and resuming say whether packets are logged, turning warnings on and off whether
/// warnings are, and `mbdl` how much of a buffer is shown. None of them touches anything else,
/// whatever was set before.
pub proof fn law_switches(proxy: ProxyView, length: usize)
    ensures
        crate::console::settings_after(proxy, CommandView::Pause) == (ProxyView {
            log_packets: false,
            ..proxy
        }),
        crate::console::settings_after(proxy, CommandView::Resume) == (ProxyView {
            log_packets: true,
            ..proxy
        }),
        crate::console::settings_after(proxy, CommandView::WarningsOn) == (ProxyView {
            log_warnings: true,
            ..proxy
        }),
        crate::console::settings_after(proxy, CommandView::WarningsOff) == (ProxyView {
            log_warnings: false,
            ..proxy
        }),
        crate::console::settings_after(proxy, CommandView::LimitBuffer(length)) == (ProxyView {
            max_buffer_display_length: length,
            ..proxy
        }),
        crate::console::settings_after(proxy, CommandView::RemoveBufferLimit) == (ProxyView {
            max_buffer_display_length: usize::MAX,
            ..proxy
        }),
{
}

/// Resetting the filter clears what it lists and nothing else: it stays the whitelist or the
/// blacklist that it was, so that an enabled whitelist logs no packet then and a blacklist every
/// packet.
pub proof fn law_filter_reset(proxy: ProxyView, gap: Seq<char>, packet: Seq<char>)
    requires
        crate::line_laws::is_gap(gap),
    ensures
        ({
            let after = crate::console::settings_after(proxy, CommandView::ResetFilter);
            &&& after.filter.packets == Set::<Seq<char>>::empty()
            &&& same_but_packets(after.filter, proxy.filter)
            &&& same_but_filter(after, proxy)
            &&& !proxy.filter.disabled ==> after.filter.logs(packet) == !proxy.filter.is_whitelist
            &&& proxy.filter.disabled ==> after.filter.logs(packet)
            &&& crate::console::settings_after_line(proxy, "filter"@ + gap + "reset"@) == after
        }),
{
    crate::line_laws::law_filter_actions(gap);
}

/// Resetting the filter to a mode clears what it lists, gives it that mode and changes nothing
/// else, so that an enabled whitelist logs no packet then and a blacklist every packet.
pub proof fn law_filter_reset_as(
    proxy: ProxyView,
    gap: Seq<char>,
    second_gap: Seq<char>,
    whitelist: bool,
    packet: Seq<char>,
)
    requires
        crate::line_laws::is_gap(gap),
        crate::line_laws::is_gap(second_gap),
    ensures
        ({
            let command = if whitelist {
                CommandView::ResetAsWhitelist
            } else {
                CommandView::ResetAsBlacklist
            };
            let mode = if whitelist {
                "whitelist"@
            } else {
                "blacklist"@
            };
            let after = crate::console::settings_after(proxy, command);
            &&& after.filter.packets == Set::<Seq<char>>::empty()
            &&& after.filter.is_whitelist == whitelist
            &&& after.filter.disabled == proxy.filter.disabled
            &&& after.filter.suppressed == proxy.filter.suppressed
            &&& same_but_filter(after, proxy)
            &&& !proxy.filter.disabled ==> after.filter.logs(packet) == !whitelist
            &&& crate::console::settings_after_line(
                proxy,
                "filter"@ + gap + "reset-as"@ + second_gap + mode,
            ) == after
        }),
{
    reveal_strlit("a");
    assert(crate::arguments::is_word("a"@));
    crate::line_laws::law_filter_actions_on(gap, second_gap, "a"@);
}

/// Switching the filter off and on changes nothing that it holds. While it is off every packet is
/// logged and every warning held back, and while it is on its entries decide.
pub proof fn law_filter_switch(proxy: ProxyView, gap: Seq<char>, packet: Seq<char>, id: u32)
    requires
        crate::line_laws::is_gap(gap),
    ensures
        ({
            let off = crate::console::settings_after(proxy, CommandView::DisableFilter);
            let on = crate::console::settings_after(proxy, CommandView::EnableFilter);
            &&& off.filter == (FilterView { disabled: true, ..proxy.filter })
            &&& on.filter == (FilterView { disabled: false, ..proxy.filter })
            &&& same_but_filter(off, proxy)
            &&& same_but_filter(on, proxy)
            &&& off.filter.logs(packet)
            &&& off.filter.suppresses(id)
            &&& on.filter.suppresses(id) == proxy.filter.suppressed.contains(id)
            &&& on.filter.logs(packet) == (proxy.filter.packets.contains(
                crate::text::lowercase(crate::filter::packet_name(packet)),
            ) == proxy.filter.is_whitelist)
            &&& crate::console::settings_after_line(proxy, "filter"@ + gap + "disable"@) == off
            &&& crate::console::settings_after_line(proxy, "filter"@ + gap + "enable"@) == on
        }),
{
    crate::line_laws::law_filter_actions(gap);
}

/// Allowing a packet has packets of that name let through, denying it has them held back, in
/// either mode, in whatever case the name is written, and also while the filter is off. Packets of
/// other names, and all else that is set, are left alone.
pub proof fn law_filter_update(
    proxy: ProxyView,
    gap: Seq<char>,
    second_gap: Seq<char>,
    name: Seq<char>,
    deny: bool,
    other: Seq<char>,
)
    requires
        crate::line_laws::is_gap(gap),
        crate::line_laws::is_gap(second_gap),
    ensures
        ({
            let command = if deny {
                CommandView::DenyPacket(name)
            } else {
                CommandView::AllowPacket(name)
            };
            let action = if deny {
                "deny"@
            } else {
                "allow"@
            };
            let after = crate::console::settings_after(proxy, command);
            &&& (after.filter.packets.contains(crate::text::lowercase(name))
                == proxy.filter.is_whitelist) == !deny
            &&& other != crate::text::lowercase(name) ==> after.filter.packets.contains(other)
                == proxy.filter.packets.contains(other)
            &&& same_but_packets(after.filter, proxy.filter)
            &&& same_but_filter(after, proxy)
            &&& crate::arguments::is_word(name) ==> crate::console::settings_after_line(
                proxy,
                "filter"@ + gap + action + second_gap + name,
            ) == after
        }),
{
    if crate::arguments::is_word(name) {
        crate::line_laws::law_filter_actions_on(gap, second_gap, name);
    }
}

/// Suppressing the warnings about a packet ID has the ID listed, allowing them has it not, also
/// while the filter is off. Other IDs, and all else that is set, are left alone.
pub proof fn law_warnings_update(
    proxy: ProxyView,
    name: Seq<char>,
    gap: Seq<char>,
    second_gap: Seq<char>,
    text: Seq<char>,
    id: u32,
    suppress: bool,
    other: u32,
)
    requires
        name == "warnings"@ || name == "warning"@,
        crate::line_laws::is_gap(gap),
        crate::line_laws::is_gap(second_gap),
        crate::number::number(text, 16, u32::MAX as nat) == Ok::<nat, NumberError>(id as nat),
    ensures
        ({
            let command = if suppress {
                CommandView::SuppressWarnings(text)
            } else {
                CommandView::AllowWarnings(text)
            };
            let action = if suppress {
                "suppress"@
            } else {
                "allow"@
            };
            let after = crate::console::settings_after(proxy, command);
            &&& after.filter.suppressed.contains(id) == suppress
            &&& other != id ==> after.filter.suppressed.contains(other)
                == proxy.filter.suppressed.contains(other)
            &&& after.filter.packets == proxy.filter.packets
            &&& after.filter.is_whitelist == proxy.filter.is_whitelist
            &&& after.filter.disabled == proxy.filter.disabled
            &&& same_but_filter(after, proxy)
            &&& crate::console::settings_after_line(
                proxy,
                name + gap + action + second_gap + text,
            ) == after
        }),
{
    crate::number::lemma_number_characters(text, 16, u32::MAX as nat);
    assert(crate::arguments::is_word(text));
    crate::line_laws::law_warnings_actions(name, gap, second_gap, text);
}

/// The commands that only ask leave every setting alone, and no other command sets two things at
/// once: where logging, warnings or the limit change, the filter does not.
pub proof fn law_one_thing_at_a_time(proxy: ProxyView, command: CommandView)
    ensures
        ({
            let after = crate::console::settings_after(proxy, command);
            &&& after.filter != proxy.filter ==> same_but_filter(after, proxy)
            &&& after.log_packets != proxy.log_packets ==> command is Pause || command is Resume
            &&& after.log_warnings != proxy.log_warnings ==> command is WarningsOn
                || command is WarningsOff
            &&& after.max_buffer_display_length != proxy.max_buffer_display_length
                ==> command is LimitBuffer || command is RemoveBufferLimit
            &&& after.filter.is_whitelist != proxy.filter.is_whitelist
                ==> command is ResetAsWhitelist || command is ResetAsBlacklist
            &&& after.filter.disabled != proxy.filter.disabled ==> command is EnableFilter
                || command is DisableFilter
        }),
{
}

/// The operations on a filter by themselves do what the commands do: they change what they are
/// about, and leave the rest alone, on or off.
pub proof fn law_filter_operations(
    filter: FilterView,
    name: Seq<char>,
    other: Seq<char>,
    deny: bool,
    id: u32,
    other_id: u32,
    suppress: bool,
    whitelist: bool,
    disabled: bool,
)
    requires
        other != name,
        other_id != id,
    ensures
        filter.updated(name, deny).packets.contains(name) == (filter.is_whitelist == !deny),
        filter.updated(name, deny).packets.contains(other) == filter.packets.contains(other),
        same_but_packets(filter.updated(name, deny), filter),
        filter.updated(name, deny).lets_through(name) == !deny,
        filter.lets_through(name) == (filter.packets.contains(name) == filter.is_whitelist),
        filter.with_suppression(id, suppress).suppressed.contains(id) == suppress,
        filter.with_suppression(id, suppress).suppressed.contains(other_id)
            == filter.suppressed.contains(other_id),
        filter.with_suppression(id, suppress).packets == filter.packets,
        filter.with_suppression(id, suppress).is_whitelist == filter.is_whitelist,
        filter.with_suppression(id, suppress).disabled == filter.disabled,
        filter.cleared().packets == Set::<Seq<char>>::empty(),
        same_but_packets(filter.cleared(), filter),
        filter.as_list(whitelist).packets == Set::<Seq<char>>::empty(),
        filter.as_list(whitelist).is_whitelist == whitelist,
        filter.as_list(whitelist).disabled == filter.disabled,
        filter.as_list(whitelist).suppressed == filter.suppressed,
        filter.switched(disabled) == (FilterView { disabled, ..filter }),
{
}

/// A filter that is on holds back the warnings about the IDs that it lists and no others, and one
/// that is off holds back all.
pub proof fn law_suppresses(filter: FilterView, id: u32)
    ensures
        filter.suppresses(id) == (filter.disabled || filter.suppressed.contains(id)),
{
}

/// A packet goes by what stands before the first space of its textual form, in small letters.
pub proof fn law_packets_go_by_their_names(filter: FilterView, name: Seq<char>, after: Seq<char>)
    requires
        !name.contains(' '),
        after.len() == 0 || after[0] == ' ',
    ensures
        crate::filter::packet_name(name + after) == name,
        filter.logs(name + after) == (filter.disabled || filter.packets.contains(
            crate::text::lowercase(name),
        ) == filter.is_whitelist),
{
    let packet = name + after;
    assert forall|i: int| 0 <= i < name.len() implies packet[i] != ' ' by {
        assert(packet[i] == name[i]);
    }
    crate::text::lemma_run_length_unique(packet, ' ', name.len() as int);
    assert(packet.take(name.len() as int) =~= name);
}

/// Small letters: the capitals from A to Z become the letters that follow them at a distance of
/// 32, and every other character stays.
pub proof fn law_lowercase(text: Seq<char>, i: int)
    requires
        0 <= i < text.len(),
    ensures
        crate::text::lowercase(text).len() == text.len(),
        'A' <= text[i] <= 'Z' ==> crate::text::lowercase(text)[i] as int == text[i] as int + 32,
        !('A' <= text[i] <= 'Z') ==> crate::text::lowercase(text)[i] == text[i],
{
}

/// What is seen of the settings and of a filter is what their fields hold.
pub proof fn law_settings_are_seen_whole(proxy: Proxy, filter: PacketFilter, name: Seq<char>, i: int)
    requires
        0 <= i < filter.filter@.len(),
    ensures
        proxy@.log_packets == proxy.log_packets,
        proxy@.log_warnings == proxy.log_warnings,
        proxy@.max_buffer_display_length == proxy.max_buffer_display_length,
        proxy@.filter == proxy.filter@,
        proxy.wf() == proxy.filter.wf(),
        filter@.is_whitelist == filter.is_whitelist,
        filter@.disabled == filter.disabled,
        filter@.suppressed == filter.suppress_warnings@,
        filter@.packets.contains(filter.filter@[i]@),
        filter@.packets.contains(name) ==> exists|k: int|
            0 <= k < filter.filter@.len() && #[trigger] filter.filter@[k]@ == name,
{
    assert(filter.names()[i] == filter.filter@[i]@);
    assert(filter.names().contains(filter.filter@[i]@));
    if filter@.packets.contains(name) {
        let k = choose|k: int| 0 <= k < filter.names().len() && filter.names()[k] == name;
        assert(filter.filter@[k]@ == name);
    }
}

/// What is seen of a command and of a reply is the command and the reply, with their texts and
/// bytes whole.
pub proof fn law_commands_are_seen_whole(command: Command)
    ensures
        match command {
            Command::Help => command@ == CommandView::Help,
            Command::Pause => command@ == CommandView::Pause,
            Command::Resume => command@ == CommandView::Resume,
            Command::AllowPacket(name) => command@ == CommandView::AllowPacket(name@),
            Command::DenyPacket(name) => command@ == CommandView::DenyPacket(name@),
            Command::ResetAsWhitelist => command@ == CommandView::ResetAsWhitelist,
            Command::ResetAsBlacklist => command@ == CommandView::ResetAsBlacklist,
            Command::EnableFilter => command@ == CommandView::EnableFilter,
            Command::DisableFilter => command@ == CommandView::DisableFilter,
            Command::ResetFilter => command@ == CommandView::ResetFilter,
            Command::DisplayFilter => command@ == CommandView::DisplayFilter,
            Command::FilterHelp => command@ == CommandView::FilterHelp,
            Command::Varint(bytes) => command@ == CommandView::Varint(bytes@),
            Command::Text(bytes) => command@ == CommandView::Text(bytes@),
            Command::AllowWarnings(id) => command@ == CommandView::AllowWarnings(id@),
            Command::SuppressWarnings(id) => command@ == CommandView::SuppressWarnings(id@),
            Command::WarningsOn => command@ == CommandView::WarningsOn,
            Command::WarningsOff => command@ == CommandView::WarningsOff,
            Command::WarningsHelp => command@ == CommandView::WarningsHelp,
            Command::LimitBuffer(length) => command@ == CommandView::LimitBuffer(length),
            Command::RemoveBufferLimit => command@ == CommandView::RemoveBufferLimit,
            Command::Metrics => command@ == CommandView::Metrics,
        },
        crate::grammar::reading(Ok(command)) == Ok::<CommandView, Seq<char>>(command@),
{
}

/// What is seen of a reply, of an error and of a message is all that they hold.
pub proof fn law_replies_are_seen_whole(
    message: Message,
    bytes: Vec<u8>,
    error: String,
    spans: Vec<Span>,
    i: int,
)
    requires
        message.spans == spans,
        0 <= i < spans@.len(),
    ensures
        message@.len() == spans@.len(),
        message@[i] == (spans@[i].color, spans@[i].text@),
        crate::console::outcome(Ok(crate::console::Reply::Show(message))) == Ok::<
            ReplyView,
            Seq<char>,
        >(ReplyView::Show(message@)),
        crate::console::outcome(Ok(crate::console::Reply::DecodeVarint(bytes))) == Ok::<
            ReplyView,
            Seq<char>,
        >(ReplyView::DecodeVarint(bytes@)),
        crate::console::outcome(Ok(crate::console::Reply::DecodeText(bytes))) == Ok::<
            ReplyView,
            Seq<char>,
        >(ReplyView::DecodeText(bytes@)),
        crate::console::outcome(Ok(crate::console::Reply::Nothing)) == Ok::<ReplyView, Seq<char>>(
            ReplyView::Nothing,
        ),
        crate::console::outcome(Ok(crate::console::Reply::ShowMetrics)) == Ok::<
            ReplyView,
            Seq<char>,
        >(ReplyView::ShowMetrics),
        crate::console::outcome(Err(error)) == Err::<ReplyView, Seq<char>>(error@),
        crate::grammar::reading(Err(error)) == Err::<CommandView, Seq<char>>(error@),
{
}

} // verus!
