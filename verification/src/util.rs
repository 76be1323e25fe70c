//! Rendering of raw packet bytes.
use vstd::prelude::*;

use crate::number::padded_hex_text;
use crate::text::join_text;

verus! {

/// The bytes as two-digit hexadecimal numbers, with a comma and a space between each two.
pub open spec fn hex_list(bytes: Seq<u8>) -> Seq<char> {
    crate::text::join(bytes.map_values(|byte: u8| crate::number::padded_hex(byte as nat)), ", "@)
}

/// The bytes in brackets. Where there are more than `limit`, the first and the last third of
/// `limit` stand for them.
pub open spec fn rendering(bytes: Seq<u8>, limit: nat) -> Seq<char> {
    if bytes.len() > limit {
        let shown = (limit / 3) as int;
        "["@ + hex_list(bytes.take(shown)) + " ... "@ + hex_list(bytes.skip(bytes.len() - shown))
            + "]"@
    } else {
        "["@ + hex_list(bytes) + "]"@
    }
}

/// Writes the bytes from `start` to `end` in hexadecimal.
fn hex_text(bytes: &[u8], start: usize, end: usize) -> (text: String)
    requires
        start <= end <= bytes@.len(),
    ensures
        text@ == hex_list(bytes@.subrange(start as int, end as int)),
{
    let mut parts: Vec<String> = Vec::new();
    let ghost chosen = bytes@.subrange(start as int, end as int);
    let ghost rendered = chosen.map_values(|byte: u8| crate::number::padded_hex(byte as nat));
    for i in start..end
        invariant
            start <= i,
            end <= bytes@.len(),
            chosen == bytes@.subrange(start as int, end as int),
            rendered == chosen.map_values(|byte: u8| crate::number::padded_hex(byte as nat)),
            crate::text::views(parts@) == rendered.take(i - start),
    {
        let ghost before = crate::text::views(parts@);
        parts.push(padded_hex_text(bytes[i] as u64));
        assert(crate::text::views(parts@) =~= before.push(rendered[i - start]));
    }
    assert(rendered.take(end - start) =~= rendered);
    join_text(&parts, ", ")
}

/// Renders a packet buffer, showing at most its first and last bytes where it is longer than
/// `max_display_length`. The limit is meant to be at least ten, which shows three bytes at
/// either end.
pub fn debug_buffer(buffer: &[u8], max_display_length: usize) -> (text: String)
    ensures
        text@ == rendering(buffer@, max_display_length as nat),
{
    let mut text = "[".to_owned();
    if buffer.len() > max_display_length {
        let shown: usize = max_display_length / 3;
        assert(buffer@.take(shown as int) =~= buffer@.subrange(0, shown as int));
        assert(buffer@.skip(buffer@.len() - shown) =~= buffer@.subrange(
            buffer@.len() - shown,
            buffer@.len() as int,
        ));
        text.append(hex_text(buffer, 0, shown).as_str());
        text.append(" ... ");
        text.append(hex_text(buffer, buffer.len() - shown, buffer.len()).as_str());
    } else {
        assert(buffer@ =~= buffer@.subrange(0, buffer@.len() as int));
        text.append(hex_text(buffer, 0, buffer.len()).as_str());
    }
    text.append("]");
    text
}

} // verus!
