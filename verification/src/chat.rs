//! The chat session: the conversation so far, the request that carries it to
//! the completion endpoint, and what an answer of the endpoint does to it.
//!
//! Nothing here talks to the network. [`ChatClient::begin`] records the user's
//! turn and returns the request to send; the caller sends it and hands what
//! came back to [`ChatClient::finish`]. [`ChatClient::ask`] is both halves
//! around a function that sends.

use crate::text::{decimal, decimal_text, joined};
use vstd::prelude::*;
use vstd::string::*;

verus! {

/// Lowest HTTP status that counts as success.
pub const STATUS_SUCCESS_FIRST: u16 = 200;

/// Highest HTTP status that counts as success.
pub const STATUS_SUCCESS_LAST: u16 = 299;

/// Who speaks in a turn of the conversation.
#[derive(Debug, Clone, Copy, PartialEq, Eq, Structural)]
pub enum Role {
    System,
    User,
    Assistant,
}

impl Role {
    /// The name of the role in a request to the endpoint.
    pub open spec fn name(self) -> Seq<char> {
        match self {
            Role::System => "system"@,
            Role::User => "user"@,
            Role::Assistant => "assistant"@,
        }
    }

    /// The name of the role in a request to the endpoint.
    pub fn as_str(&self) -> (name: &'static str)
        ensures
            name@ == self.name(),
    {
        match self {
            Role::System => "system",
            Role::User => "user",
            Role::Assistant => "assistant",
        }
    }
}

/// One turn of the conversation.
#[derive(Debug, Clone, PartialEq, Eq)]
pub struct Message {
    pub role: Role,
    pub content: String,
}

/// Mathematical model of [`Message`].
pub struct Turn {
    pub role: Role,
    pub content: Seq<char>,
}

impl View for Message {
    type V = Turn;

    open spec fn view(&self) -> Turn {
        Turn { role: self.role, content: self.content@ }
    }
}

impl DeepView for Message {
    type V = Turn;

    open spec fn deep_view(&self) -> Turn {
        self@
    }
}

/// What a session is made from, besides the API key.
#[derive(Debug, Clone, PartialEq, Eq)]
pub struct ChatClientConfig {
    pub api_url: String,
    pub model: String,
    pub system_message: Option<String>,
}

/// Mathematical model of [`ChatClientConfig`].
pub struct ChatClientConfigView {
    pub api_url: Seq<char>,
    pub model: Seq<char>,
    pub system_message: Option<Seq<char>>,
}

impl View for ChatClientConfig {
    type V = ChatClientConfigView;

    open spec fn view(&self) -> ChatClientConfigView {
        ChatClientConfigView {
            api_url: self.api_url@,
            model: self.model@,
            system_message: self.system_message.deep_view(),
        }
    }
}

/// A request for a completion: where it goes, what authorizes it, and the
/// model and the conversation that its body carries.
#[derive(Debug, Clone, PartialEq, Eq)]
pub struct ChatRequest {
    pub url: String,
    pub api_key: String,
    pub model: String,
    pub messages: Vec<Message>,
}

/// Mathematical model of [`ChatRequest`].
pub struct ChatRequestView {
    pub url: Seq<char>,
    pub api_key: Seq<char>,
    pub model: Seq<char>,
    pub messages: Seq<Turn>,
}

impl View for ChatRequest {
    type V = ChatRequestView;

    open spec fn view(&self) -> ChatRequestView {
        ChatRequestView {
            url: self.url@,
            api_key: self.api_key@,
            model: self.model@,
            messages: self.messages.deep_view(),
        }
    }
}

impl ChatRequest {
    /// The value of the `Authorization` header: the API key as a bearer token.
    pub fn authorization(&self) -> (header: String)
        ensures
            header@ == "Bearer "@ + self@.api_key,
    {
        joined("Bearer ", self.api_key.as_str())
    }
}

/// The body of a response of the endpoint, as far as it could be decoded.
#[derive(Debug, Clone, PartialEq, Eq)]
pub enum Body {
    /// A completion: the message content of each choice, in order.
    Completion { choices: Vec<String> },
    /// Not a completion. `cause` says why.
    Malformed { cause: String },
}

/// Mathematical model of [`Body`].
pub enum BodyView {
    Completion { choices: Seq<Seq<char>> },
    Malformed { cause: Seq<char> },
}

impl View for Body {
    type V = BodyView;

    open spec fn view(&self) -> BodyView {
        match self {
            Body::Completion { choices } => BodyView::Completion { choices: choices.deep_view() },
            Body::Malformed { cause } => BodyView::Malformed { cause: cause@ },
        }
    }
}

/// What became of a request.
#[derive(Debug, Clone, PartialEq, Eq)]
pub enum Delivery {
    /// No response arrived. `cause` says why.
    Unreachable { cause: String },
    /// The endpoint answered.
    Response { status: u16, body: Body },
}

/// Mathematical model of [`Delivery`].
pub enum DeliveryView {
    Unreachable { cause: Seq<char> },
    Response { status: u16, body: BodyView },
}

impl View for Delivery {
    type V = DeliveryView;

    open spec fn view(&self) -> DeliveryView {
        match self {
            Delivery::Unreachable { cause } => DeliveryView::Unreachable { cause: cause@ },
            Delivery::Response { status, body } => DeliveryView::Response {
                status: *status,
                body: body@,
            },
        }
    }
}

/// Why an exchange produced no reply.
#[derive(Debug, Clone, PartialEq, Eq)]
pub enum ChatError {
    /// No response arrived.
    Network { cause: String },
    /// The endpoint answered with a status outside the success range.
    Status { code: u16 },
    /// The body of the response is not a completion.
    MalformedBody { cause: String },
    /// The completion holds no choice.
    MissingChoice,
}

/// Mathematical model of [`ChatError`].
pub enum ChatFault {
    Network { cause: Seq<char> },
    Status { code: u16 },
    MalformedBody { cause: Seq<char> },
    MissingChoice,
}

impl View for ChatError {
    type V = ChatFault;

    open spec fn view(&self) -> ChatFault {
        match self {
            ChatError::Network { cause } => ChatFault::Network { cause: cause@ },
            ChatError::Status { code } => ChatFault::Status { code: *code },
            ChatError::MalformedBody { cause } => ChatFault::MalformedBody { cause: cause@ },
            ChatError::MissingChoice => ChatFault::MissingChoice,
        }
    }
}

impl ChatFault {
    /// The description of the fault.
    pub open spec fn message(self) -> Seq<char> {
        match self {
            ChatFault::Network { cause } => "request failed: "@ + cause,
            ChatFault::Status { code } => "endpoint answered with status "@ + decimal(code as nat),
            ChatFault::MalformedBody { cause } => "malformed response: "@ + cause,
            ChatFault::MissingChoice => "response holds no choice"@,
        }
    }
}

impl ChatError {
    /// Describes the error for the user.
    pub fn message(&self) -> (text: String)
        ensures
            text@ == self@.message(),
    {
        match self {
            ChatError::Network { cause } => joined("request failed: ", cause.as_str()),
            ChatError::Status { code } => {
                let numeral = decimal_text(*code);
                joined("endpoint answered with status ", numeral.as_str())
            },
            ChatError::MalformedBody { cause } => joined("malformed response: ", cause.as_str()),
            ChatError::MissingChoice => String::from_str("response holds no choice"),
        }
    }
}

/// Whether an HTTP status counts as success.
pub open spec fn is_success(status: u16) -> bool {
    STATUS_SUCCESS_FIRST <= status <= STATUS_SUCCESS_LAST
}

/// The reply that a delivery carries: the content of the first choice of a
/// completion that arrived with a success status. Anything else is a fault.
pub open spec fn reply_of(delivery: DeliveryView) -> Result<Seq<char>, ChatFault> {
    match delivery {
        DeliveryView::Unreachable { cause } => Err(ChatFault::Network { cause }),
        DeliveryView::Response { status, body } => if !is_success(status) {
            Err(ChatFault::Status { code: status })
        } else {
            match body {
                BodyView::Malformed { cause } => Err(ChatFault::MalformedBody { cause }),
                BodyView::Completion { choices } => if choices.len() == 0 {
                    Err(ChatFault::MissingChoice)
                } else {
                    Ok(choices[0])
                },
            }
        },
    }
}

/// The model of the outcome of an exchange.
pub open spec fn reply_view(reply: Result<String, ChatError>) -> Result<Seq<char>, ChatFault> {
    match reply {
        Ok(text) => Ok(text@),
        Err(error) => Err(error@),
    }
}

/// A system turn may only stand first.
pub open spec fn system_only_first(history: Seq<Turn>) -> bool {
    forall|i: int| 0 < i < history.len() ==> (#[trigger] history[i]).role != Role::System
}

/// Mathematical model of [`ChatClient`].
pub struct Session {
    pub api_key: Seq<char>,
    pub api_url: Seq<char>,
    pub model: Seq<char>,
    pub history: Seq<Turn>,
}

impl Session {
    /// A fresh session. Its history holds the system message, if one is
    /// configured, and nothing else.
    pub open spec fn start(api_key: Seq<char>, config: ChatClientConfigView) -> Session {
        Session {
            api_key,
            api_url: config.api_url,
            model: config.model,
            history: match config.system_message {
                Some(text) => seq![Turn { role: Role::System, content: text }],
                None => Seq::empty(),
            },
        }
    }

    /// The session after the user has spoken.
    pub open spec fn with_user(self, text: Seq<char>) -> Session {
        Session { history: self.history.push(Turn { role: Role::User, content: text }), ..self }
    }

    /// The request that carries the conversation so far.
    pub open spec fn request(self) -> ChatRequestView {
        ChatRequestView {
            url: self.api_url,
            api_key: self.api_key,
            model: self.model,
            messages: self.history,
        }
    }

    /// The session after a delivery: a reply joins the history as the
    /// assistant's turn, a fault leaves the session as it is.
    pub open spec fn settled(self, delivery: DeliveryView) -> Session {
        match reply_of(delivery) {
            Ok(reply) => Session {
                history: self.history.push(Turn { role: Role::Assistant, content: reply }),
                ..self
            },
            Err(_) => self,
        }
    }

    /// The history holds at most one system turn, and only in first place.
    pub open spec fn well_formed(self) -> bool {
        system_only_first(self.history)
    }
}

/// A chat session: the credentials, the endpoint, the model and the
/// conversation so far.
pub struct ChatClient {
    api_key: String,
    api_url: String,
    model: String,
    history: Vec<Message>,
}

impl View for ChatClient {
    type V = Session;

    closed spec fn view(&self) -> Session {
        Session {
            api_key: self.api_key@,
            api_url: self.api_url@,
            model: self.model@,
            history: self.history.deep_view(),
        }
    }
}

/// Copies a conversation.
fn copy_of(messages: &Vec<Message>) -> (copy: Vec<Message>)
    ensures
        copy.deep_view() == messages.deep_view(),
{
    let mut copy: Vec<Message> = Vec::new();
    let mut i: usize = 0;
    while i < messages.len()
        invariant
            i <= messages.len(),
            copy.len() == i,
            forall|j: int| 0 <= j < i ==> copy[j]@ == messages[j]@,
        decreases messages.len() - i,
    {
        let message = &messages[i];
        copy.push(Message { role: message.role, content: message.content.clone() });
        i += 1;
    }
    assert(copy.deep_view() =~= messages.deep_view());
    copy
}

impl ChatClient {
    /// Starts a session. The history is seeded with the system message, if
    /// one is configured.
    pub fn new(api_key: String, config: ChatClientConfig) -> (client: ChatClient)
        ensures
            client@ == Session::start(api_key@, config@),
            client@.well_formed(),
    {
        let ChatClientConfig { api_url, model, system_message } = config;
        let mut history: Vec<Message> = Vec::new();
        if let Some(text) = system_message {
            history.push(Message { role: Role::System, content: text });
        }
        assert(history.deep_view() =~= Session::start(api_key@, config@).history);
        ChatClient { api_key, api_url, model, history }
    }

    /// The conversation so far, oldest turn first.
    pub fn history(&self) -> (history: &Vec<Message>)
        ensures
            history.deep_view() == self@.history,
    {
        &self.history
    }

    /// The endpoint that requests go to.
    pub fn api_url(&self) -> (url: &str)
        ensures
            url@ == self@.api_url,
    {
        self.api_url.as_str()
    }

    /// The model that requests ask for.
    pub fn model(&self) -> (model: &str)
        ensures
            model@ == self@.model,
    {
        self.model.as_str()
    }

    /// First half of an exchange: appends the user's turn to the history and
    /// returns the request to send, which carries the whole history.
    pub fn begin(&mut self, user_text: String) -> (request: ChatRequest)
        ensures
            final(self)@ == old(self)@.with_user(user_text@),
            request@ == final(self)@.request(),
            old(self)@.well_formed() ==> final(self)@.well_formed(),
    {
        let ghost before = self.history.deep_view();
        self.history.push(Message { role: Role::User, content: user_text });
        assert(self.history.deep_view() =~= before.push(
            Turn { role: Role::User, content: user_text@ },
        ));
        ChatRequest {
            url: self.api_url.clone(),
            api_key: self.api_key.clone(),
            model: self.model.clone(),
            messages: copy_of(&self.history),
        }
    }

    /// Second half of an exchange: takes what became of the request. A reply
    /// is appended to the history as the assistant's turn and returned; a
    /// fault is returned and the history stays as it is, the user's turn
    /// included.
    pub fn finish(&mut self, delivery: Delivery) -> (reply: Result<String, ChatError>)
        ensures
            reply_view(reply) == reply_of(delivery@),
            final(self)@ == old(self)@.settled(delivery@),
            old(self)@.well_formed() ==> final(self)@.well_formed(),
    {
        match delivery {
            Delivery::Unreachable { cause } => Err(ChatError::Network { cause }),
            Delivery::Response { status, body } => {
                if status < STATUS_SUCCESS_FIRST || status > STATUS_SUCCESS_LAST {
                    return Err(ChatError::Status { code: status });
                }
                match body {
                    Body::Malformed { cause } => Err(ChatError::MalformedBody { cause }),
                    Body::Completion { choices } => {
                        if choices.len() == 0 {
                            return Err(ChatError::MissingChoice);
                        }
                        let reply = choices[0].clone();
                        let ghost before = self.history.deep_view();
                        self.history.push(
                            Message { role: Role::Assistant, content: reply.clone() },
                        );
                        assert(self.history.deep_view() =~= before.push(
                            Turn { role: Role::Assistant, content: reply@ },
                        ));
                        Ok(reply)
                    },
                }
            },
        }
    }

    /// A whole exchange, with `send` as the way to the endpoint: appends the
    /// user's turn, hands the request with the whole history to `send`, and
    /// settles what `send` returns. A reply is appended as the assistant's turn
    /// and returned. A fault is returned and leaves the user's turn in the
    /// history.
    pub fn ask<F: FnOnce(&ChatRequest) -> Delivery>(&mut self, user_text: String, send: F) -> (reply:
        Result<String, ChatError>)
        requires
            forall|request: &ChatRequest|
                request@ == old(self)@.with_user(user_text@).request() ==> send.requires(
                    (request,),
                ),
        ensures
            (exists|request: &ChatRequest, delivery: Delivery|
                {
                    &&& request@ == old(self)@.with_user(user_text@).request()
                    &&& send.ensures((request,), delivery)
                    &&& reply_view(reply) == reply_of(delivery@)
                    &&& final(self)@ == old(self)@.with_user(user_text@).settled(delivery@)
                }),
            (match reply {
                Ok(text) => final(self)@.history == old(self)@.history + seq![
                    Turn { role: Role::User, content: user_text@ },
                    Turn { role: Role::Assistant, content: text@ },
                ],
                Err(_) => final(self)@.history == old(self)@.history + seq![
                    Turn { role: Role::User, content: user_text@ },
                ],
            }),
            final(self)@.api_key == old(self)@.api_key,
            final(self)@.api_url == old(self)@.api_url,
            final(self)@.model == old(self)@.model,
            old(self)@.well_formed() ==> final(self)@.well_formed(),
    {
        let ghost before = self@;
        let request = self.begin(user_text);
        let delivery = send(&request);
        let ghost met = delivery;
        let reply = self.finish(delivery);
        proof {
            lemma_exchange_appends(before, user_text@, met@);
        }
        reply
    }
}

/// A system turn stands first or nowhere: this holds of a fresh session, and
/// neither a user's turn nor a delivery changes it.
pub proof fn lemma_system_turn_stays_first(
    api_key: Seq<char>,
    config: ChatClientConfigView,
    session: Session,
    text: Seq<char>,
    delivery: DeliveryView,
)
    ensures
        Session::start(api_key, config).well_formed(),
        session.well_formed() ==> session.with_user(text).well_formed(),
        session.well_formed() ==> session.settled(delivery).well_formed(),
{
}

/// The history only grows: what was said stays, in its place.
pub proof fn lemma_history_grows(session: Session, text: Seq<char>, delivery: DeliveryView)
    ensures
        session.history.is_prefix_of(session.with_user(text).history),
        session.history.is_prefix_of(session.settled(delivery).history),
{
}

/// The first request of a session carries the configured system message as
/// its first message and the user's text as its second; without a system
/// message it carries the user's text alone, and no system turn.
pub proof fn lemma_first_request(api_key: Seq<char>, config: ChatClientConfigView, text: Seq<char>)
    ensures
        ({
            let messages = Session::start(api_key, config).with_user(text).request().messages;
            let user = Turn { role: Role::User, content: text };
            match config.system_message {
                Some(system) => messages == seq![Turn { role: Role::System, content: system }, user],
                None => messages == seq![user] && forall|i: int|
                    0 <= i < messages.len() ==> (#[trigger] messages[i]).role != Role::System,
            }
        }),
{
    let messages = Session::start(api_key, config).with_user(text).request().messages;
    let user = Turn { role: Role::User, content: text };
    match config.system_message {
        Some(system) => {
            assert(messages =~= seq![Turn { role: Role::System, content: system }, user]);
        },
        None => {
            assert(messages =~= seq![user]);
        },
    }
}

/// An exchange that yields a reply appends two turns to the history, the
/// user's and then the assistant's; one that fails appends the user's turn
/// alone. Nothing else in the session changes.
pub proof fn lemma_exchange_appends(session: Session, text: Seq<char>, delivery: DeliveryView)
    ensures
        ({
            let after = session.with_user(text).settled(delivery);
            let user = Turn { role: Role::User, content: text };
            &&& after.api_key == session.api_key
            &&& after.api_url == session.api_url
            &&& after.model == session.model
            &&& match reply_of(delivery) {
                Ok(reply) => after.history == session.history + seq![
                    user,
                    Turn { role: Role::Assistant, content: reply },
                ],
                Err(_) => after.history == session.history + seq![user],
            }
        }),
{
    let after = session.with_user(text).settled(delivery);
    let user = Turn { role: Role::User, content: text };
    match reply_of(delivery) {
        Ok(reply) => {
            assert(after.history =~= session.history + seq![
                user,
                Turn { role: Role::Assistant, content: reply },
            ]);
        },
        Err(_) => {
            assert(after.history =~= session.history + seq![user]);
        },
    }
}

} // verus!
