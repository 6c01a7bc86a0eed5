//! The chat-completion client: the request that it writes for a list of
//! messages, and what it makes of each way in which the exchange with the
//! service can end.

use crate::bytes::SecureBytes;
use crate::error::{not_text, ErrorView, SecureError};
use crate::message::{wire_message, MessageView, SecureMessage};
use crate::wire::{WireMessage, WireRequest, WireRequestView};
use vstd::prelude::*;
use vstd::string::StringExecFns;
use vstd::utf8::{decode_utf8, encode_utf8, valid_utf8};

verus! {

/// The path of the chat-completion endpoint, below the base URL.
pub open spec fn completions_path() -> Seq<char> {
    "/openai/v1/chat/completions"@
}

/// What stands in for the body of an error response that could not be
/// read.
pub open spec fn unreadable_body() -> Seq<char> {
    "Could not read error body"@
}

/// Whether an HTTP status is in the success range, 200 to 299.
pub open spec fn is_success(status: u16) -> bool {
    200 <= status <= 299
}

/// The `message` of a choice in a response document.
#[derive(PartialEq, Eq)]
pub struct ResponseMessage {
    /// The reply text; `None` where the document has `null` or nothing.
    pub content: Option<String>,
}

/// One element of `choices` in a response document.
#[derive(PartialEq, Eq)]
pub struct ResponseChoice {
    pub message: ResponseMessage,
}

/// A decoded response document. Only `choices` is read.
#[derive(PartialEq, Eq)]
pub struct ChatCompletionResponse {
    pub choices: Vec<ResponseChoice>,
}

/// A request that is ready to be sent: where to, with which bearer token,
/// and the document to send. The token and the texts of the document are
/// read in place, in the buffers of the client and of the messages; the
/// endpoint is a string of its own.
#[derive(PartialEq, Eq)]
pub struct PreparedRequest<'a> {
    pub endpoint: String,
    pub api_key: &'a str,
    pub body: WireRequest<'a>,
}

/// The mathematical value of a [`PreparedRequest`].
pub struct PreparedRequestView {
    pub endpoint: Seq<char>,
    pub api_key: Seq<char>,
    pub body: WireRequestView,
}

impl View for PreparedRequest<'_> {
    type V = PreparedRequestView;

    open spec fn view(&self) -> PreparedRequestView {
        PreparedRequestView {
            endpoint: self.endpoint@,
            api_key: self.api_key@,
            body: self.body@,
        }
    }
}

/// An HTTP status outside the success range. Only [`response_plan`] makes
/// one, so an API error never carries a success status.
#[derive(Debug, PartialEq, Eq)]
pub struct ErrorStatus {
    code: u16,
}

impl ErrorStatus {
    #[verifier::type_invariant]
    spec fn outside_success(self) -> bool {
        !is_success(self.code)
    }

    /// The status code.
    pub closed spec fn value(self) -> u16 {
        self.code
    }

    /// The status code, which is never in the success range.
    pub fn code(&self) -> (code: u16)
        ensures
            code == self.value(),
            !is_success(code),
    {
        proof {
            use_type_invariant(self);
        }
        self.code
    }
}

/// What to read of a response, given its status.
#[derive(Debug, PartialEq, Eq)]
pub enum ResponsePlan {
    /// The status is a success: decode the body as a response document.
    ParseJson,
    /// The status is a failure: read the body as plain text.
    ReadErrorText(ErrorStatus),
}

/// Decides from the status of a response how its body is to be read.
pub fn response_plan(status: u16) -> (plan: ResponsePlan)
    ensures
        is_success(status) ==> plan is ParseJson,
        !is_success(status) ==> (plan matches ResponsePlan::ReadErrorText(failure)
            && failure.value() == status),
{
    if 200 <= status && status <= 299 {
        ResponsePlan::ParseJson
    } else {
        ResponsePlan::ReadErrorText(ErrorStatus { code: status })
    }
}

/// How an attempt to exchange a request for a response ended.
#[derive(PartialEq, Eq)]
pub enum Exchange {
    /// The transport could not deliver the request.
    Undelivered { cause: String },
    /// The server answered outside the success range. `body` is the text
    /// of the response, or `None` where it could not be read.
    Refused { status: ErrorStatus, body: Option<String> },
    /// The server answered in the success range. `document` is the decoded
    /// response document, or the description of why it could not be
    /// decoded.
    Answered { document: Result<ChatCompletionResponse, String> },
}

/// The mathematical value of an [`Exchange`]. A response document is the
/// sequence of the contents of its choices.
pub enum ExchangeView {
    Undelivered { cause: Seq<char> },
    Refused { status: u16, body: Option<Seq<char>> },
    Answered { document: Result<Seq<Option<Seq<char>>>, Seq<char>> },
}

impl View for ResponseChoice {
    type V = Option<Seq<char>>;

    open spec fn view(&self) -> Option<Seq<char>> {
        match self.message.content {
            Some(text) => Some(text@),
            None => None,
        }
    }
}

impl View for ChatCompletionResponse {
    type V = Seq<Option<Seq<char>>>;

    open spec fn view(&self) -> Seq<Option<Seq<char>>> {
        self.choices@.map_values(|choice: ResponseChoice| choice@)
    }
}

impl View for Exchange {
    type V = ExchangeView;

    open spec fn view(&self) -> ExchangeView {
        match self {
            Exchange::Undelivered { cause } => ExchangeView::Undelivered { cause: cause@ },
            Exchange::Refused { status, body } => ExchangeView::Refused {
                status: status.value(),
                body: match body {
                    Some(text) => Some(text@),
                    None => None,
                },
            },
            Exchange::Answered { document } => ExchangeView::Answered {
                document: match document {
                    Ok(response) => Ok(response@),
                    Err(cause) => Err(cause@),
                },
            },
        }
    }
}

/// The reply text of a choice: its content, or nothing where the content
/// is absent.
pub open spec fn reply_text(choice: Option<Seq<char>>) -> Seq<char> {
    match choice {
        Some(text) => text,
        None => Seq::empty(),
    }
}

/// What a call returns for each way in which the exchange can end: the
/// bytes of the first choice's reply text, or the error.
pub open spec fn reply_of(exchange: ExchangeView) -> Result<Seq<u8>, ErrorView> {
    match exchange {
        ExchangeView::Undelivered { cause } => Err(ErrorView::Connection(cause)),
        ExchangeView::Refused { status, body } => Err(
            ErrorView::Api {
                status,
                body: match body {
                    Some(text) => text,
                    None => unreadable_body(),
                },
            },
        ),
        ExchangeView::Answered { document: Err(cause) } => Err(ErrorView::Decode(cause)),
        ExchangeView::Answered { document: Ok(choices) } => if choices.len() == 0 {
            Err(ErrorView::NoChoices)
        } else {
            Ok(encode_utf8(reply_text(choices[0])))
        },
    }
}

/// The mathematical value of a [`SecureClient`].
pub struct ClientView {
    pub base_url: Seq<u8>,
    pub api_key: Seq<u8>,
}

/// Whether a request can be written: the base URL, the API key and every
/// message are text.
pub open spec fn can_request(client: ClientView, messages: Seq<MessageView>) -> bool {
    &&& valid_utf8(client.base_url)
    &&& valid_utf8(client.api_key)
    &&& forall|i: int| 0 <= i < messages.len() ==> (#[trigger] messages[i]).is_text()
}

/// The request that a client writes for `messages` and `model`.
pub open spec fn request_of(
    client: ClientView,
    messages: Seq<MessageView>,
    model: Seq<char>,
) -> PreparedRequestView {
    PreparedRequestView {
        endpoint: decode_utf8(client.base_url) + completions_path(),
        api_key: decode_utf8(client.api_key),
        body: WireRequestView {
            messages: messages.map_values(|message: MessageView| wire_message(message)),
            model,
        },
    }
}

/// A chat-completion client: the base URL of the service and the API key,
/// both held as secrets. It keeps no state between calls.
pub struct SecureClient {
    base_url: SecureBytes,
    api_key: SecureBytes,
}

impl View for SecureClient {
    type V = ClientView;

    closed spec fn view(&self) -> ClientView {
        ClientView { base_url: self.base_url@, api_key: self.api_key@ }
    }
}

impl SecureClient {
    /// A client for the service at `base_url`, with `api_key` as its
    /// bearer token. Both are copied into buffers of the client's own.
    pub fn new(base_url: &[u8], api_key: &[u8]) -> (client: Self)
        ensures
            client@.base_url == base_url@,
            client@.api_key == api_key@,
    {
        SecureClient { base_url: SecureBytes::new(base_url), api_key: SecureBytes::new(api_key) }
    }

    /// The buffer of the base URL.
    pub fn base_url(&self) -> (buffer: &SecureBytes)
        ensures
            buffer@ == self@.base_url,
    {
        &self.base_url
    }

    /// The buffer of the API key.
    pub fn api_key(&self) -> (buffer: &SecureBytes)
        ensures
            buffer@ == self@.api_key,
    {
        &self.api_key
    }

    /// Writes the request for one call: the endpoint, the bearer token and
    /// the document with every message and the model. Fails where the base
    /// URL, the API key or a buffer of a message is not text.
    pub fn chat_request<'a>(
        &'a self,
        messages: &'a [SecureMessage],
        model: &'a str,
    ) -> (result: Result<PreparedRequest<'a>, SecureError>)
        ensures
            result is Ok <==> can_request(
                self@,
                messages@.map_values(|message: SecureMessage| message@),
            ),
            result matches Ok(request) ==> request@ == request_of(
                self@,
                messages@.map_values(|message: SecureMessage| message@),
                model@,
            ),
            result matches Err(error) ==> error@ == not_text(),
    {
        let ghost views = messages@.map_values(|message: SecureMessage| message@);
        let base = match self.base_url.as_str() {
            Ok(s) => s,
            Err(error) => {
                return Err(error);
            },
        };
        let key = match self.api_key.as_str() {
            Ok(s) => s,
            Err(error) => {
                return Err(error);
            },
        };
        let endpoint = base.to_owned().concat("/openai/v1/chat/completions");
        let mut wires: Vec<WireMessage<'a>> = Vec::new();
        let n = messages.len();
        let mut i: usize = 0;
        while i < n
            invariant
                i <= n,
                n == messages@.len(),
                views == messages@.map_values(|message: SecureMessage| message@),
                wires@.len() == i,
                forall|j: int| 0 <= j < i ==> (#[trigger] views[j]).is_text(),
                forall|j: int| 0 <= j < i ==> (#[trigger] wires@[j])@ == wire_message(views[j]),
            decreases n - i,
        {
            assert(views[i as int] == messages@[i as int]@);
            match messages[i].to_wire() {
                Ok(wire) => wires.push(wire),
                Err(error) => {
                    return Err(error);
                },
            }
            i += 1;
        }
        let request = PreparedRequest {
            endpoint,
            api_key: key,
            body: WireRequest { messages: wires, model },
        };
        assert(request@.body.messages =~= views.map_values(
            |message: MessageView| wire_message(message),
        ));
        Ok(request)
    }

    /// Concludes one call from the way its exchange ended. A failure to
    /// deliver is a connection error; a status outside the success range
    /// is an API error with the body, or with a placeholder where the body
    /// could not be read; a body that cannot be decoded is a decode error;
    /// no choice is an error; otherwise the reply is the content of the
    /// first choice, and empty where that content is absent. No API error
    /// carries a status of the success range.
    pub fn chat_reply(exchange: Exchange) -> (result: Result<SecureBytes, SecureError>)
        ensures
            match result {
                Ok(reply) => reply_of(exchange@) == Ok::<Seq<u8>, ErrorView>(reply@),
                Err(error) => reply_of(exchange@) == Err::<Seq<u8>, ErrorView>(error@),
            },
            result matches Err(SecureError::Api { status, .. }) ==> !is_success(status),
    {
        match exchange {
            Exchange::Undelivered { cause } => Err(SecureError::Connection(cause)),
            Exchange::Refused { status, body } => {
                let code = status.code();
                let body = match body {
                    Some(text) => text,
                    None => "Could not read error body".to_owned(),
                };
                Err(SecureError::Api { status: code, body })
            },
            Exchange::Answered { document: Err(cause) } => Err(SecureError::Decode(cause)),
            Exchange::Answered { document: Ok(response) } => {
                if response.choices.len() == 0 {
                    Err(SecureError::NoChoices)
                } else {
                    match &response.choices[0].message.content {
                        Some(text) => Ok(SecureBytes::new(text.as_str().as_bytes())),
                        None => {
                            assert(encode_utf8(Seq::<char>::empty()) =~= Seq::<u8>::empty());
                            let nothing: Vec<u8> = Vec::new();
                            Ok(SecureBytes::new(nothing.as_slice()))
                        },
                    }
                }
            },
        }
    }

    /// Takes the client apart, into the buffers that it owned: that of
    /// the base URL, then that of the API key. Each can then be released
    /// on its own.
    pub fn into_buffers(self) -> (buffers: Vec<SecureBytes>)
        ensures
            buffers@.len() == 2,
            buffers@[0]@ == self@.base_url,
            buffers@[1]@ == self@.api_key,
    {
        let SecureClient { base_url, api_key } = self;
        let mut buffers: Vec<SecureBytes> = Vec::new();
        buffers.push(base_url);
        buffers.push(api_key);
        buffers
    }
}

} // verus!
