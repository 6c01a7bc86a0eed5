//! Secure messages: a role and an ordered content of parts, each in a
//! buffer of its own; how a message is built from descriptions, and how it
//! is written into a request document.

use crate::bytes::{zeros, SecureBytes};
use crate::error::{not_text, ErrorView, FieldName, SecureError};
use crate::value::{fields_view, find_field, lookup, Value, ValueView};
use crate::wire::{
    WireContent, WireContentView, WireImageUrl, WireMessage, WireMessageView, WirePart,
    WirePartView,
};
use vstd::prelude::*;
use vstd::utf8::{decode_utf8, valid_utf8};

verus! {

/// The mathematical value of a [`SecureContentPart`]: its kind and the
/// bytes of its payload.
pub enum PartView {
    Text(Seq<u8>),
    ImageUrl(Seq<u8>),
}

impl PartView {
    /// The bytes that the part carries.
    pub open spec fn payload(self) -> Seq<u8> {
        match self {
            PartView::Text(bytes) => bytes,
            PartView::ImageUrl(bytes) => bytes,
        }
    }

    /// The same part with every byte of its payload set to zero.
    pub open spec fn wiped(self) -> PartView {
        match self {
            PartView::Text(bytes) => PartView::Text(zeros(bytes.len())),
            PartView::ImageUrl(bytes) => PartView::ImageUrl(zeros(bytes.len())),
        }
    }
}

/// The mathematical value of a [`SecureMessage`].
pub struct MessageView {
    pub role: Seq<u8>,
    pub content: Seq<PartView>,
}

impl MessageView {
    /// The byte strings of all buffers: that of the role, then the
    /// payloads of the parts in their order.
    pub open spec fn buffers(self) -> Seq<Seq<u8>> {
        seq![self.role] + self.content.map_values(|part: PartView| part.payload())
    }

    /// Whether the role and every payload are valid UTF-8 text, so that the
    /// message can be written into a request document.
    pub open spec fn is_text(self) -> bool {
        &&& valid_utf8(self.role)
        &&& forall|i: int|
            0 <= i < self.content.len() ==> valid_utf8(#[trigger] self.content[i].payload())
    }

    /// The same message with every byte of every buffer set to zero.
    pub open spec fn wiped(self) -> MessageView {
        MessageView {
            role: zeros(self.role.len()),
            content: self.content.map_values(|part: PartView| part.wiped()),
        }
    }
}

/// What every rendering of a [`SecureMessage`] for a developer's eyes shows.
pub open spec fn redacted_message() -> Seq<char> {
    "SecureMessage(****)"@
}

/// The text part that a record describes: its `text` field, which holds
/// bytes.
pub open spec fn text_part_of(fields: Seq<(Seq<char>, ValueView)>) -> Result<PartView, ErrorView> {
    match lookup(fields, "text"@) {
        None => Err(ErrorView::MissingField(FieldName::Text)),
        Some(ValueView::Bytes(bytes)) => Ok(PartView::Text(bytes)),
        Some(_) => Err(ErrorView::WrongKind(FieldName::Text)),
    }
}

/// The image part that a record describes: the `url` field, which holds
/// bytes, of the record in its `image_url` field.
pub open spec fn image_part_of(fields: Seq<(Seq<char>, ValueView)>) -> Result<
    PartView,
    ErrorView,
> {
    match lookup(fields, "image_url"@) {
        None => Err(ErrorView::MissingField(FieldName::ImageUrl)),
        Some(ValueView::Record(detail)) => match lookup(detail, "url"@) {
            None => Err(ErrorView::MissingField(FieldName::Url)),
            Some(ValueView::Bytes(bytes)) => Ok(PartView::ImageUrl(bytes)),
            Some(_) => Err(ErrorView::WrongKind(FieldName::Url)),
        },
        Some(_) => Err(ErrorView::WrongKind(FieldName::ImageUrl)),
    }
}

/// The content part that `description` describes, or the reason why it
/// describes none. The field `type` decides: `text`, `image_url`, and
/// nothing else.
pub open spec fn part_of(description: ValueView) -> Result<PartView, ErrorView> {
    match description {
        ValueView::Record(fields) => match lookup(fields, "type"@) {
            None => Err(ErrorView::MissingField(FieldName::Type)),
            Some(ValueView::Text(kind)) => if kind == "text"@ {
                text_part_of(fields)
            } else if kind == "image_url"@ {
                image_part_of(fields)
            } else {
                Err(ErrorView::UnsupportedContentType(kind))
            },
            Some(_) => Err(ErrorView::WrongKind(FieldName::Type)),
        },
        _ => Err(ErrorView::NotARecord),
    }
}

/// How one content part is written into a content list.
pub open spec fn wire_part(part: PartView) -> WirePartView {
    match part {
        PartView::Text(bytes) => WirePartView::Text { text: decode_utf8(bytes) },
        PartView::ImageUrl(bytes) => WirePartView::ImageUrl { url: decode_utf8(bytes) },
    }
}

/// Whether a content is written as a bare string: it is one text part and
/// nothing else. Only the number of parts and their kinds decide.
pub open spec fn collapses(content: Seq<PartView>) -> bool {
    content.len() == 1 && content[0] is Text
}

/// How a content is written into a message: the text of its one text part,
/// or the list of all its parts in their order.
pub open spec fn wire_content(content: Seq<PartView>) -> WireContentView {
    if collapses(content) {
        WireContentView::Text(decode_utf8(content[0].payload()))
    } else {
        WireContentView::Parts(content.map_values(|part: PartView| wire_part(part)))
    }
}

/// How a message is written into a request document.
pub open spec fn wire_message(message: MessageView) -> WireMessageView {
    WireMessageView { role: decode_utf8(message.role), content: wire_content(message.content) }
}

/// One unit of a message's body: text, or a reference to an image. Each
/// part owns its buffer.
pub enum SecureContentPart {
    Text { text: SecureBytes },
    ImageUrl { url: SecureBytes },
}

impl View for SecureContentPart {
    type V = PartView;

    open spec fn view(&self) -> PartView {
        match self {
            SecureContentPart::Text { text } => PartView::Text(text@),
            SecureContentPart::ImageUrl { url } => PartView::ImageUrl(url@),
        }
    }
}

impl SecureContentPart {
    /// Builds the part that `description` describes. The bytes are copied
    /// into a buffer of the part's own.
    pub fn from_description(description: &Value) -> (result: Result<SecureContentPart, SecureError>)
        ensures
            match result {
                Ok(part) => part_of(description@) == Ok::<PartView, ErrorView>(part@),
                Err(error) => part_of(description@) == Err::<PartView, ErrorView>(error@),
            },
    {
        match description {
            Value::Record(fields) => match find_field(fields, "type") {
                None => Err(SecureError::MissingField(FieldName::Type)),
                Some(Value::Text(kind)) => {
                    if *kind == "text".to_owned() {
                        Self::text_from(fields)
                    } else if *kind == "image_url".to_owned() {
                        Self::image_from(fields)
                    } else {
                        Err(SecureError::UnsupportedContentType(kind.clone()))
                    }
                },
                Some(_) => Err(SecureError::WrongKind(FieldName::Type)),
            },
            _ => Err(SecureError::NotARecord),
        }
    }

    fn text_from(fields: &Vec<(String, Value)>) -> (result: Result<SecureContentPart, SecureError>)
        ensures
            match result {
                Ok(part) => text_part_of(fields_view(fields@)) == Ok::<PartView, ErrorView>(part@),
                Err(error) => text_part_of(fields_view(fields@)) == Err::<PartView, ErrorView>(
                    error@,
                ),
            },
    {
        match find_field(fields, "text") {
            None => Err(SecureError::MissingField(FieldName::Text)),
            Some(Value::Bytes(bytes)) => Ok(
                SecureContentPart::Text { text: SecureBytes::new(bytes.as_slice()) },
            ),
            Some(_) => Err(SecureError::WrongKind(FieldName::Text)),
        }
    }

    fn image_from(fields: &Vec<(String, Value)>) -> (result: Result<SecureContentPart, SecureError>)
        ensures
            match result {
                Ok(part) => image_part_of(fields_view(fields@)) == Ok::<PartView, ErrorView>(part@),
                Err(error) => image_part_of(fields_view(fields@)) == Err::<PartView, ErrorView>(
                    error@,
                ),
            },
    {
        match find_field(fields, "image_url") {
            None => Err(SecureError::MissingField(FieldName::ImageUrl)),
            Some(Value::Record(detail)) => match find_field(detail, "url") {
                None => Err(SecureError::MissingField(FieldName::Url)),
                Some(Value::Bytes(bytes)) => Ok(
                    SecureContentPart::ImageUrl { url: SecureBytes::new(bytes.as_slice()) },
                ),
                Some(_) => Err(SecureError::WrongKind(FieldName::Url)),
            },
            Some(_) => Err(SecureError::WrongKind(FieldName::ImageUrl)),
        }
    }

    /// The buffer that the part owns.
    pub fn payload(&self) -> (buffer: &SecureBytes)
        ensures
            buffer@ == self@.payload(),
    {
        match self {
            SecureContentPart::Text { text } => text,
            SecureContentPart::ImageUrl { url } => url,
        }
    }

    /// The part as an element of a content list, if its payload is text.
    /// The text is read in place.
    pub fn to_wire(&self) -> (result: Result<WirePart<'_>, SecureError>)
        ensures
            result is Ok <==> valid_utf8(self@.payload()),
            result matches Ok(wire) ==> wire@ == wire_part(self@),
            result matches Err(error) ==> error@ == not_text(),
    {
        match self {
            SecureContentPart::Text { text } => match text.as_str() {
                Ok(s) => Ok(WirePart::Text { text: s }),
                Err(error) => Err(error),
            },
            SecureContentPart::ImageUrl { url } => match url.as_str() {
                Ok(s) => Ok(WirePart::ImageUrl { image_url: WireImageUrl { url: s } }),
                Err(error) => Err(error),
            },
        }
    }

    /// Takes the part apart, into the buffer that it owned.
    pub fn into_buffer(self) -> (buffer: SecureBytes)
        ensures
            buffer@ == self@.payload(),
    {
        match self {
            SecureContentPart::Text { text } => text,
            SecureContentPart::ImageUrl { url } => url,
        }
    }

    /// Overwrites every byte of the payload with zero.
    pub fn wipe(&mut self)
        ensures
            final(self)@ == old(self)@.wiped(),
    {
        match self {
            SecureContentPart::Text { text } => text.wipe(),
            SecureContentPart::ImageUrl { url } => url.wipe(),
        }
    }
}

impl Clone for SecureContentPart {
    /// A second part of the same kind, with a buffer of its own.
    fn clone(&self) -> (copy: Self)
        ensures
            copy@ == self@,
    {
        match self {
            SecureContentPart::Text { text } => SecureContentPart::Text { text: text.clone() },
            SecureContentPart::ImageUrl { url } => SecureContentPart::ImageUrl { url: url.clone() },
        }
    }
}

/// A chat message: a role and the parts of its content, in their order.
/// It is built once and not changed afterwards.
pub struct SecureMessage {
    role: SecureBytes,
    content: Vec<SecureContentPart>,
}

impl View for SecureMessage {
    type V = MessageView;

    closed spec fn view(&self) -> MessageView {
        MessageView {
            role: self.role@,
            content: self.content@.map_values(|part: SecureContentPart| part@),
        }
    }
}

impl SecureMessage {
    /// Builds a message from a role and a list of content-part
    /// descriptions. All of them are valid, or no message is built: the
    /// error is that of the first description that is not.
    pub fn new(role: &[u8], content_list: &[Value]) -> (result: Result<SecureMessage, SecureError>)
        ensures
            match result {
                Ok(message) => {
                    &&& message@.role == role@
                    &&& message@.content.len() == content_list@.len()
                    &&& forall|i: int|
                        0 <= i < content_list@.len() ==> part_of((#[trigger] content_list@[i])@)
                            == Ok::<PartView, ErrorView>(message@.content[i])
                },
                Err(error) => exists|i: int|
                    {
                        &&& 0 <= i < content_list@.len()
                        &&& part_of((#[trigger] content_list@[i])@) == Err::<PartView, ErrorView>(
                            error@,
                        )
                        &&& forall|j: int|
                            0 <= j < i ==> part_of((#[trigger] content_list@[j])@) is Ok
                    },
            },
    {
        let mut content: Vec<SecureContentPart> = Vec::new();
        let n = content_list.len();
        let mut i: usize = 0;
        while i < n
            invariant
                i <= n,
                n == content_list@.len(),
                content@.len() == i,
                forall|j: int|
                    0 <= j < i ==> part_of((#[trigger] content_list@[j])@) == Ok::<
                        PartView,
                        ErrorView,
                    >(content@[j]@),
            decreases n - i,
        {
            match SecureContentPart::from_description(&content_list[i]) {
                Ok(part) => content.push(part),
                Err(error) => {
                    assert(part_of(content_list@[i as int]@) == Err::<PartView, ErrorView>(error@));
                    return Err(error);
                },
            }
            i += 1;
        }
        Ok(SecureMessage { role: SecureBytes::new(role), content })
    }

    /// The role.
    pub fn role(&self) -> (role: &SecureBytes)
        ensures
            role@ == self@.role,
    {
        &self.role
    }

    /// The parts of the content, in their order.
    pub fn content(&self) -> (parts: &Vec<SecureContentPart>)
        ensures
            parts@.map_values(|part: SecureContentPart| part@) == self@.content,
    {
        &self.content
    }

    /// The message as it is written into a request document, if all its
    /// bytes are text. A content of exactly one text part becomes a bare
    /// string; every other content becomes the list of its parts. The
    /// texts are read in place.
    pub fn to_wire(&self) -> (result: Result<WireMessage<'_>, SecureError>)
        ensures
            result is Ok <==> self@.is_text(),
            result matches Ok(wire) ==> wire@ == wire_message(self@),
            result matches Err(error) ==> error@ == not_text(),
    {
        let role = match self.role.as_str() {
            Ok(s) => s,
            Err(error) => {
                return Err(error);
            },
        };
        let n = self.content.len();
        if n == 1 {
            if let SecureContentPart::Text { text } = &self.content[0] {
                assert(self@.content[0] == self.content@[0]@);
                return match text.as_str() {
                    Ok(s) => Ok(WireMessage { role, content: WireContent::Text(s) }),
                    Err(error) => Err(error),
                };
            }
        }
        let mut parts: Vec<WirePart> = Vec::new();
        let mut i: usize = 0;
        while i < n
            invariant
                i <= n,
                n == self.content@.len(),
                parts@.len() == i,
                forall|j: int| 0 <= j < i ==> valid_utf8(#[trigger] self@.content[j].payload()),
                forall|j: int|
                    0 <= j < i ==> (#[trigger] parts@[j])@ == wire_part(self@.content[j]),
            decreases n - i,
        {
            assert(self@.content[i as int] == self.content@[i as int]@);
            match self.content[i].to_wire() {
                Ok(part) => parts.push(part),
                Err(error) => {
                    return Err(error);
                },
            }
            i += 1;
        }
        let wire = WireMessage { role, content: WireContent::Parts(parts) };
        proof {
            if n == 1 {
                assert(self@.content[0] == self.content@[0]@);
            }
            assert(parts@.map_values(|part: WirePart| part@) =~= self@.content.map_values(
                |part: PartView| wire_part(part),
            ));
        }
        Ok(wire)
    }

    /// The rendering for logs and debuggers: a fixed placeholder, whatever
    /// the message holds.
    pub fn redacted(&self) -> (shown: String)
        ensures
            shown@ == redacted_message(),
    {
        "SecureMessage(****)".to_owned()
    }

    /// Takes the message apart, into the buffers that it owned: that of
    /// the role, then those of the parts in their order. Each can then be
    /// released on its own.
    pub fn into_buffers(self) -> (buffers: Vec<SecureBytes>)
        ensures
            buffers@.map_values(|buffer: SecureBytes| buffer@) == self@.buffers(),
    {
        let ghost whole = self@;
        let SecureMessage { role, content } = self;
        let ghost parts = content@;
        let mut buffers: Vec<SecureBytes> = Vec::new();
        buffers.push(role);
        for part in it: content.into_iter()
            invariant
                it.seq() == parts,
                buffers@.len() == it.index() + 1,
                buffers@[0]@ == whole.role,
                forall|j: int|
                    1 <= j < buffers@.len() ==> (#[trigger] buffers@[j])@ == parts[j
                        - 1]@.payload(),
        {
            buffers.push(part.into_buffer());
        }
        assert(whole.content =~= parts.map_values(|part: SecureContentPart| part@));
        assert(buffers@.map_values(|buffer: SecureBytes| buffer@) =~= whole.buffers());
        buffers
    }

    /// Overwrites every byte of the role and of every part with zero. The
    /// number of parts, their kinds and all lengths stay.
    pub fn wipe(&mut self)
        ensures
            final(self)@ == old(self)@.wiped(),
    {
        self.role.wipe();
        let n = self.content.len();
        let mut i: usize = 0;
        while i < n
            invariant
                i <= n,
                n == self.content@.len(),
                n == old(self).content@.len(),
                self.role@ == zeros(old(self).role@.len()),
                forall|j: int| 0 <= j < i ==> self.content@[j]@ == old(self).content@[j]@.wiped(),
                forall|j: int| i <= j < n ==> self.content@[j] == old(self).content@[j],
            decreases n - i,
        {
            self.content[i].wipe();
            i += 1;
        }
        assert(self@.content =~= old(self)@.wiped().content);
    }
}

impl Clone for SecureMessage {
    /// A second message with the same role and parts, in buffers of its
    /// own.
    fn clone(&self) -> (copy: Self)
        ensures
            copy@ == self@,
    {
        let mut content: Vec<SecureContentPart> = Vec::new();
        let n = self.content.len();
        let mut i: usize = 0;
        while i < n
            invariant
                i <= n,
                n == self.content@.len(),
                content@.len() == i,
                forall|j: int| 0 <= j < i ==> content@[j]@ == self.content@[j]@,
            decreases n - i,
        {
            content.push(self.content[i].clone());
            i += 1;
        }
        let copy = SecureMessage { role: self.role.clone(), content };
        assert(copy@.content =~= self@.content);
        copy
    }
}

} // verus!
