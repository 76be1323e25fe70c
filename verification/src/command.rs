//! What the console commands do.
use vstd::prelude::*;
use vstd::slice::slice_subrange;

use crate::message::Color;
use crate::message::Message;
use crate::number::decimal_text;
use crate::number::digits_text;
use crate::number::padded_hex_text;
use crate::number::parse_number;
use crate::number::NumberError;
use crate::proxy::Proxy;
use crate::text::same_text;
use crate::text::slice_text;
use crate::text::split_text;
use crate::text::to_chars;
use crate::text::to_lowercase;
use crate::util::debug_buffer;

verus! {

/// A message in one colour.
pub open spec fn plain(color: Color, text: Seq<char>) -> Seq<(Color, Seq<char>)> {
    seq![(color, text)]
}

/// What `pause` answers, where packets were logged before or not.
pub open spec fn pause_answer(logging: bool) -> Seq<(Color, Seq<char>)> {
    if logging {
        plain(Color::Green, "Logging paused"@)
    } else {
        seq![
            (Color::Yellow, "Logging is already paused. Use command "@),
            (Color::Aqua, "resume"@),
            (Color::Yellow, " to resume logging."@),
        ]
    }
}

/// Stops the logging of packets.
pub fn pause(proxy: &mut Proxy) -> (message: Message)
    requires
        old(proxy).wf(),
    ensures
        final(proxy).wf(),
        final(proxy)@ == (crate::proxy::ProxyView { log_packets: false, ..old(proxy)@ }),
        message@ == pause_answer(old(proxy)@.log_packets),
{
    if proxy.log_packets {
        proxy.log_packets = false;
        Message::colored("Logging paused", Color::Green)
    } else {
        Message::empty()
            .add_text(Color::Yellow, "Logging is already paused. Use command ")
            .add_text(Color::Aqua, "resume")
            .add_text(Color::Yellow, " to resume logging.")
    }
}

/// What `resume` answers, where packets were logged before or not.
pub open spec fn resume_answer(logging: bool) -> Seq<(Color, Seq<char>)> {
    if logging {
        seq![
            (Color::Yellow, "The proxy is currently logging packets. Use command "@),
            (Color::Aqua, "pause"@),
            (Color::Yellow, " to pause logging."@),
        ]
    } else {
        plain(Color::Green, "Logging resumed"@)
    }
}

/// Starts the logging of packets again.
pub fn resume(proxy: &mut Proxy) -> (message: Message)
    requires
        old(proxy).wf(),
    ensures
        final(proxy).wf(),
        final(proxy)@ == (crate::proxy::ProxyView { log_packets: true, ..old(proxy)@ }),
        message@ == resume_answer(old(proxy)@.log_packets),
{
    if !proxy.log_packets {
        proxy.log_packets = true;
        Message::colored("Logging resumed", Color::Green)
    } else {
        Message::empty()
            .add_text(Color::Yellow, "The proxy is currently logging packets. Use command ")
            .add_text(Color::Aqua, "pause")
            .add_text(Color::Yellow, " to pause logging.")
    }
}

/// What an update of the filter answers.
pub open spec fn update_filter_answer(changed: bool) -> Seq<(Color, Seq<char>)> {
    if changed {
        plain(Color::Green, "Filter successfully updated"@)
    } else {
        plain(Color::Yellow, "This packet is already handled by the filter."@)
    }
}

/// Denies or allows the logging of packets of a name, in whatever case it is written.
pub fn update_filter(proxy: &mut Proxy, packet: String, deny: bool) -> (message: Message)
    requires
        old(proxy).wf(),
    ensures
        final(proxy).wf(),
        final(proxy)@ == (crate::proxy::ProxyView {
            filter: old(proxy)@.filter.updated(crate::text::lowercase(packet@), deny),
            ..old(proxy)@
        }),
        message@ == update_filter_answer(final(proxy)@.filter != old(proxy)@.filter),
{
    if proxy.filter.update(to_lowercase(packet.as_str()), deny) {
        Message::colored("Filter successfully updated", Color::Green)
    } else {
        Message::colored("This packet is already handled by the filter.", Color::Yellow)
    }
}

/// Clears the filter and makes it a whitelist where `mode` says so, and else a blacklist.
pub fn reset_filter_as(proxy: &mut Proxy, mode: &str) -> (message: Message)
    requires
        old(proxy).wf(),
    ensures
        final(proxy).wf(),
        final(proxy)@ == (crate::proxy::ProxyView {
            filter: old(proxy)@.filter.as_list(mode@ == "whitelist"@),
            ..old(proxy)@
        }),
        message@ == plain(Color::Green, "Reset filter and set mode to "@ + mode@),
{
    proxy.filter.reset_as(same_text(mode, "whitelist"));
    let mut text = "Reset filter and set mode to ".to_owned();
    text.append(mode);
    Message::colored(text.as_str(), Color::Green)
}

/// Clears the filter.
pub fn reset_filter(proxy: &mut Proxy) -> (message: Message)
    requires
        old(proxy).wf(),
    ensures
        final(proxy).wf(),
        final(proxy)@ == (crate::proxy::ProxyView {
            filter: old(proxy)@.filter.cleared(),
            ..old(proxy)@
        }),
        message@ == plain(Color::Green, "Filter reset."@),
{
    proxy.filter.clear();
    Message::colored("Filter reset.", Color::Green)
}

/// Shows the mode and the entries of the filter.
pub fn display_filter(proxy: &Proxy) -> (message: Message)
    requires
        proxy.wf(),
    ensures
        message@ == plain(Color::White, proxy@.filter.listing()),
{
    Message::colored(proxy.filter.listing().as_str(), Color::White)
}

/// What switching the filter answers.
pub open spec fn set_filter_enabled_answer(mode: Seq<char>, changed: bool) -> Seq<
    (Color, Seq<char>),
> {
    if changed {
        plain(Color::Green, "Packet filter "@ + mode + "d"@)
    } else {
        plain(Color::Yellow, "The filter is already "@ + mode + "d"@)
    }
}

/// Switches the filter off where `mode` is to disable it, and else on.
pub fn set_filter_enabled(proxy: &mut Proxy, mode: &str) -> (message: Message)
    requires
        old(proxy).wf(),
    ensures
        final(proxy).wf(),
        final(proxy)@ == (crate::proxy::ProxyView {
            filter: old(proxy)@.filter.switched(mode@ == "disable"@),
            ..old(proxy)@
        }),
        message@ == set_filter_enabled_answer(
            mode@,
            final(proxy)@.filter != old(proxy)@.filter,
        ),
{
    let changed = proxy.filter.set_disabled(same_text(mode, "disable"));
    let mut text = if changed {
        "Packet filter ".to_owned()
    } else {
        "The filter is already ".to_owned()
    };
    text.append(mode);
    text.append("d");
    Message::colored(text.as_str(), if changed { Color::Green } else { Color::Yellow })
}

/// The packet ID that `id` is read as.
pub open spec fn packet_id(id: Seq<char>) -> Result<nat, NumberError> {
    crate::number::number(id, 16, u32::MAX as nat)
}

/// What an update of the warnings answers.
pub open spec fn update_warnings_answer(action: Seq<char>, id: nat, changed: bool) -> Seq<
    (Color, Seq<char>),
> {
    if changed {
        plain(
            Color::Green,
            "Warnings for packet ID "@ + crate::number::padded_hex(id) + " "@ + action + "ed"@,
        )
    } else {
        plain(Color::Yellow, "This packet ID is already handled by the warning filter."@)
    }
}

/// Holds back warnings about the packet ID `id`, which is in hexadecimal, where `action` is to
/// suppress them, and else allows them.
pub fn update_warnings(proxy: &mut Proxy, action: &str, id: &str) -> (result: Result<
    Message,
    String,
>)
    requires
        old(proxy).wf(),
    ensures
        final(proxy).wf(),
        match packet_id(id@) {
            Ok(number) => {
                &&& result is Ok
                &&& final(proxy)@ == (crate::proxy::ProxyView {
                    filter: old(proxy)@.filter.with_suppression(
                        number as u32,
                        action@ == "suppress"@,
                    ),
                    ..old(proxy)@
                })
                &&& result->Ok_0@ == update_warnings_answer(
                    action@,
                    number,
                    final(proxy)@.filter != old(proxy)@.filter,
                )
            },
            Err(error) => {
                &&& result is Err
                &&& final(proxy)@ == old(proxy)@
                &&& result->Err_0@ == "Failed to parse ID: "@ + error.message()
            },
        },
{
    let id: u64 = match parse_number(id, 16, u32::MAX as u64) {
        Ok(id) => id,
        Err(error) => {
            let mut text = "Failed to parse ID: ".to_owned();
            text.append(error.text());
            return Err(text);
        },
    };
    if proxy.filter.update_warning_suppression(id as u32, same_text(action, "suppress")) {
        let mut text = "Warnings for packet ID ".to_owned();
        text.append(padded_hex_text(id).as_str());
        text.append(" ");
        text.append(action);
        text.append("ed");
        Ok(Message::colored(text.as_str(), Color::Green))
    } else {
        Ok(
            Message::colored(
                "This packet ID is already handled by the warning filter.",
                Color::Yellow,
            ),
        )
    }
}

/// Whether warnings are logged after they are turned on or off.
pub open spec fn warnings_after(logging: bool, mode: Seq<char>) -> bool {
    if logging == (mode == "off"@) {
        mode == "on"@
    } else {
        logging
    }
}

/// What turning warnings on or off answers.
pub open spec fn set_warnings_enabled_answer(logging: bool, mode: Seq<char>) -> Seq<
    (Color, Seq<char>),
> {
    if logging == (mode == "off"@) {
        plain(Color::Green, "Warnings turned "@ + mode)
    } else {
        plain(Color::Yellow, "Warnings are already "@ + mode)
    }
}

/// Turns warnings on or off.
pub fn set_warnings_enabled(proxy: &mut Proxy, mode: &str) -> (message: Message)
    requires
        old(proxy).wf(),
    ensures
        final(proxy).wf(),
        final(proxy)@ == (crate::proxy::ProxyView {
            log_warnings: warnings_after(old(proxy)@.log_warnings, mode@),
            ..old(proxy)@
        }),
        message@ == set_warnings_enabled_answer(old(proxy)@.log_warnings, mode@),
{
    if proxy.log_warnings == same_text(mode, "off") {
        proxy.log_warnings = same_text(mode, "on");
        let mut text = "Warnings turned ".to_owned();
        text.append(mode);
        Message::colored(text.as_str(), Color::Green)
    } else {
        let mut text = "Warnings are already ".to_owned();
        text.append(mode);
        Message::colored(text.as_str(), Color::Yellow)
    }
}

/// Sets how many bytes of a packet are shown before it is cut down.
pub fn limit_buffer_display(proxy: &mut Proxy, length: usize) -> (message: Message)
    requires
        old(proxy).wf(),
    ensures
        final(proxy).wf(),
        final(proxy)@ == (crate::proxy::ProxyView {
            max_buffer_display_length: length,
            ..old(proxy)@
        }),
        message@ == plain(
            Color::Green,
            "Buffer display length limit set to "@ + crate::number::digits(length as nat, 10)
                + " bytes"@,
        ),
{
    proxy.max_buffer_display_length = length;
    let mut text = "Buffer display length limit set to ".to_owned();
    text.append(digits_text(length as u64, 10).as_str());
    text.append(" bytes");
    Message::colored(text.as_str(), Color::Green)
}

/// Has packets shown whole, however long they are.
pub fn remove_buffer_display_limit(proxy: &mut Proxy) -> (message: Message)
    requires
        old(proxy).wf(),
    ensures
        final(proxy).wf(),
        final(proxy)@ == (crate::proxy::ProxyView {
            max_buffer_display_length: usize::MAX,
            ..old(proxy)@
        }),
        message@ == plain(Color::Green, "Removed buffer display length limit."@),
{
    proxy.max_buffer_display_length = usize::MAX;
    Message::colored("Removed buffer display length limit.", Color::Green)
}

/// `text` without a comma at its end.
pub open spec fn without_comma(text: Seq<char>) -> Seq<char> {
    if text.len() > 0 && text.last() == ',' {
        text.drop_last()
    } else {
        text
    }
}

/// The bytes that the texts are read as, or the first error among them.
pub open spec fn byte_values(parts: Seq<Seq<char>>) -> Result<Seq<u8>, NumberError>
    decreases parts.len(),
{
    if parts.len() == 0 {
        Ok(Seq::empty())
    } else {
        match (crate::number::number(without_comma(parts[0]), 16, 255), byte_values(
            parts.drop_first(),
        )) {
            (Err(error), _) => Err(error),
            (_, Err(error)) => Err(error),
            (Ok(byte), Ok(bytes)) => Ok(seq![byte as u8] + bytes),
        }
    }
}

/// The bytes that a list of hexadecimal numbers stands for. The numbers are separated by single
/// spaces, and a comma at the end of one is ignored.
pub open spec fn byte_list(text: Seq<char>) -> Result<Seq<u8>, NumberError> {
    byte_values(crate::text::split(text, ' '))
}

/// Reads a list of bytes.
pub fn parse_bytes(text: &str) -> (result: Result<Vec<u8>, String>)
    ensures
        match byte_list(text@) {
            Ok(bytes) => result is Ok && result->Ok_0@ == bytes,
            Err(error) => result is Err && result->Err_0@ == "Failed to parse bytes: "@
                + error.message(),
        },
{
    let parts = split_text(text, ' ');
    let ghost views = crate::text::views(parts@);
    let mut bytes: Vec<u8> = Vec::new();
    assert(views.skip(0) =~= views);
    for i in 0..parts.len()
        invariant
            views == crate::text::views(parts@),
            views == crate::text::split(text@, ' '),
            byte_values(views) == (match byte_values(views.skip(i as int)) {
                Ok(rest) => Ok::<Seq<u8>, NumberError>(bytes@ + rest),
                Err(error) => Err(error),
            }),
    {
        let ghost before = bytes@;
        assert(views.skip(i as int).drop_first() =~= views.skip(i + 1));
        assert(views.skip(i as int)[0] == parts@[i as int]@);
        let chars = to_chars(parts[i].as_str());
        let part = if chars.len() > 0 && chars[chars.len() - 1] == ',' {
            slice_text(&chars, 0, chars.len() - 1)
        } else {
            slice_text(&chars, 0, chars.len())
        };
        assert(part@ =~= without_comma(views[i as int]));
        match parse_number(part.as_str(), 16, 255) {
            Ok(byte) => {
                bytes.push(byte as u8);
                proof {
                    if let Ok(rest) = byte_values(views.skip(i + 1)) {
                        assert(bytes@ + rest =~= before + (seq![byte as u8] + rest));
                    }
                }
            },
            Err(error) => {
                let mut answer = "Failed to parse bytes: ".to_owned();
                answer.append(error.text());
                return Err(answer);
            },
        }
    }
    assert(bytes@ + Seq::<u8>::empty() =~= bytes@);
    Ok(bytes)
}

/// What `varint` answers where reading the bytes took `length` of them and gave `value`.
pub open spec fn varint_answer(bytes: Seq<u8>, value: int, length: int) -> Seq<
    (Color, Seq<char>),
> {
    plain(
        Color::White,
        "varint(["@ + crate::util::hex_list(bytes.take(length)) + "]) = "@
            + crate::number::decimal(value),
    )
}

/// Answers `varint`, from what reading the bytes as a variable-length number gave: the number
/// and how many bytes it took, or an error.
pub fn varint_reply(bytes: &Vec<u8>, decoded: Result<(i64, usize), String>) -> (result: Result<
    Message,
    String,
>)
    requires
        decoded matches Ok((_, length)) ==> length <= bytes@.len(),
    ensures
        match decoded {
            Ok((value, length)) => result is Ok && result->Ok_0@ == varint_answer(
                bytes@,
                value as int,
                length as int,
            ),
            Err(error) => result == Err::<Message, String>(error),
        },
{
    match decoded {
        Ok((value, length)) => {
            let read = slice_subrange(bytes.as_slice(), 0, length);
            assert(read@ =~= bytes@.take(length as int));
            let mut text = "varint(".to_owned();
            text.append(debug_buffer(read, length).as_str());
            text.append(") = ");
            text.append(decimal_text(value).as_str());
            proof {
                reveal_strlit("varint(");
                reveal_strlit("varint([");
                reveal_strlit("[");
                reveal_strlit("]");
                reveal_strlit(") = ");
                reveal_strlit("]) = ");
                let list = crate::util::hex_list(read@);
                let number = crate::number::decimal(value as int);
                assert("varint("@ + ("["@ + list + "]"@) + ") = "@ + number =~= "varint(["@ + list
                    + "]) = "@ + number);
            }
            Ok(Message::colored(text.as_str(), Color::White))
        },
        Err(error) => Err(error),
    }
}

/// What `string` answers where reading the bytes took `length` of them and gave `value`.
pub open spec fn string_answer(bytes: Seq<u8>, value: Seq<char>, length: int) -> Seq<
    (Color, Seq<char>),
> {
    plain(
        Color::White,
        "string("@ + crate::util::rendering(bytes.take(length), 12) + ") = \""@ + value
            + "\" (length "@ + crate::number::digits(vstd::utf8::encode_utf8(value).len(), 10)
            + ")"@,
    )
}

/// Answers `string`, from what reading the bytes as text gave: the text and how many bytes it
/// took, or an error.
pub fn string_reply(bytes: &Vec<u8>, decoded: Result<(String, usize), String>) -> (result: Result<
    Message,
    String,
>)
    requires
        decoded matches Ok((_, length)) ==> length <= bytes@.len(),
    ensures
        match decoded {
            Ok((value, length)) => result is Ok && result->Ok_0@ == string_answer(
                bytes@,
                value@,
                length as int,
            ),
            Err(error) => result == Err::<Message, String>(error),
        },
{
    match decoded {
        Ok((value, length)) => {
            let read = slice_subrange(bytes.as_slice(), 0, length);
            assert(read@ =~= bytes@.take(length as int));
            let mut text = "string(".to_owned();
            text.append(debug_buffer(read, 12).as_str());
            text.append(") = \"");
            text.append(value.as_str());
            text.append("\" (length ");
            text.append(digits_text(value.as_str().as_bytes().len() as u64, 10).as_str());
            text.append(")");
            Ok(Message::colored(text.as_str(), Color::White))
        },
        Err(error) => Err(error),
    }
}

/// Answers `metrics`, with the rate in megabits per second as it is to be shown.
pub fn metrics_reply(rate: &str) -> (message: Message)
    ensures
        message@ == plain(
            Color::White,
            "Processing packets at approximately "@ + rate@ + " Mb/s"@,
        ),
{
    let mut text = "Processing packets at approximately ".to_owned();
    text.append(rate);
    text.append(" Mb/s");
    Message::colored(text.as_str(), Color::White)
}

} // verus!
