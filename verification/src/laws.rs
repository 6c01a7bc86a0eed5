//! What holds of every buffer, message and exchange: statements over the
//! models that the contracts of the library speak of, each with its proof.

use crate::bytes::{zeros, SecureBytes};
use crate::client::{reply_of, ExchangeView};
use crate::error::ErrorView;
use crate::message::{
    collapses, part_of, wire_content, wire_message, wire_part, MessageView, PartView,
};
use crate::value::{lookup, ValueView};
use crate::wire::{WireContentView, WirePartView};
use vstd::prelude::*;
use vstd::utf8::{decode_utf8, encode_utf8};

verus! {

/// A buffer gives back the bytes it was made from: where `buffer` holds
/// `data`, as `SecureBytes::new` leaves it, and `read` is what
/// `SecureBytes::as_bytes` reads from it, `read` is `data`.
pub proof fn law_bytes_read_back(data: Seq<u8>, buffer: SecureBytes, read: Seq<u8>)
    requires
        buffer@ == data,
        read == buffer@,
    ensures
        read == data,
{
}

/// A wiped buffer holds as many bytes as before, and each is zero: where
/// `after` is what `SecureBytes::wipe`, `SecureBytes::release` and the
/// destructor leave of `before`.
pub proof fn law_wiped_buffer_is_zero(before: Seq<u8>, after: Seq<u8>)
    requires
        after == zeros(before.len()),
    ensures
        after.len() == before.len(),
        forall|k: int| 0 <= k < after.len() ==> after[k] == 0,
{
}

/// A wiped message holds nothing but zeros: the role and every payload
/// keep their lengths, every part keeps its kind, and every byte is zero.
pub proof fn law_wiped_message_is_zero(message: MessageView)
    ensures
        message.wiped().role.len() == message.role.len(),
        forall|k: int| 0 <= k < message.role.len() ==> message.wiped().role[k] == 0,
        message.wiped().content.len() == message.content.len(),
        forall|i: int|
            #![trigger message.wiped().content[i]]
            0 <= i < message.content.len() ==> {
                &&& (message.wiped().content[i] is Text) == (message.content[i] is Text)
                &&& message.wiped().content[i].payload() == zeros(
                    message.content[i].payload().len(),
                )
            },
{
}

/// A content of exactly one text part is written as a bare string, the
/// text of that part.
pub proof fn law_single_text_is_bare_string(role: Seq<u8>, text: Seq<u8>)
    ensures
        wire_message(MessageView { role, content: seq![PartView::Text(text)] }).content
            == WireContentView::Text(decode_utf8(text)),
{
}

/// Every other content is written as a list: as many elements as parts, in
/// the same order, each with the tag of its part. That holds of no part,
/// of several parts, and of one part that is an image.
pub proof fn law_other_content_is_list(content: Seq<PartView>)
    requires
        !collapses(content),
    ensures
        wire_content(content) matches WireContentView::Parts(parts) && {
            &&& parts.len() == content.len()
            &&& forall|i: int|
                0 <= i < content.len() ==> #[trigger] parts[i] == wire_part(content[i])
            &&& forall|i: int|
                0 <= i < content.len() ==> (#[trigger] parts[i] is Text) == (content[i] is Text)
        },
{
}

/// A content without parts is written as the empty list.
pub proof fn law_no_part_is_empty_list()
    ensures
        wire_content(Seq::<PartView>::empty()) == WireContentView::Parts(
            Seq::<WirePartView>::empty(),
        ),
{
    assert(Seq::<PartView>::empty().map_values(|part: PartView| wire_part(part))
        =~= Seq::<WirePartView>::empty());
}

/// Whether a content is written as a string or as a list depends on the
/// number of its parts and on their kinds, and not on any byte in them.
pub proof fn law_shape_ignores_bytes(a: Seq<PartView>, b: Seq<PartView>)
    requires
        a.len() == b.len(),
        forall|i: int| 0 <= i < a.len() ==> (a[i] is Text) == (b[i] is Text),
    ensures
        (wire_content(a) is Text) == (wire_content(b) is Text),
{
}

/// A description whose `type` is text other than `text` and `image_url`
/// is refused, and the error names that value.
pub proof fn law_unknown_type_is_refused(fields: Seq<(Seq<char>, ValueView)>, kind: Seq<char>)
    requires
        lookup(fields, "type"@) == Some(ValueView::Text(kind)),
        kind != "text"@,
        kind != "image_url"@,
    ensures
        part_of(ValueView::Record(fields)) == Err::<PartView, ErrorView>(
            ErrorView::UnsupportedContentType(kind),
        ),
{
}

/// A first choice without content gives the empty reply, whatever
/// follows it.
pub proof fn law_absent_content_is_empty_reply(choices: Seq<Option<Seq<char>>>)
    requires
        choices.len() > 0,
        choices[0] is None,
    ensures
        reply_of(ExchangeView::Answered { document: Ok(choices) }) == Ok::<Seq<u8>, ErrorView>(
            Seq::empty(),
        ),
{
    assert(encode_utf8(Seq::<char>::empty()) =~= Seq::<u8>::empty());
}

} // verus!
