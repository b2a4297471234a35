//! Handlers: what an application does with the messages of a connection.
//!
//! A handler looks at one message and says what is to be done. The loop
//! that owns the stream does it.

use crate::message::{Message, MessageView};
use crate::text::concat;
use vstd::prelude::*;
use vstd::slice::slice_to_vec;

verus! {

/// What is to be done with a connection after a message arrived.
#[derive(Debug)]
pub enum HandlerAction {
    /// Send this message.
    Send(Message),
    /// Close the connection with this code and reason.
    Close {
        /// The close code
        code: Option<u16>,
        /// The close reason
        reason: String,
    },
    /// Nothing is to be done.
    Nothing,
}

/// The mathematical value of an action.
pub enum ActionView {
    Send(MessageView),
    Close { code: Option<u16>, reason: Seq<char> },
    Nothing,
}

impl View for HandlerAction {
    type V = ActionView;

    open spec fn view(&self) -> ActionView {
        match self {
            HandlerAction::Send(m) => ActionView::Send(m@),
            HandlerAction::Close { code, reason } => ActionView::Close {
                code: *code,
                reason: reason@,
            },
            HandlerAction::Nothing => ActionView::Nothing,
        }
    }
}

/// Trait for handling the messages of a connection
pub trait Handler {
    /// Says what is to be done after `message` arrived
    fn on_message(&self, message: Message) -> HandlerAction;
}

/// What the handlers of this library do with a message: a text is sent
/// back with `prefix` before it, binary data is sent back as it is, a ping
/// is answered, a close is confirmed, and a pong is ignored.
pub open spec fn echoed(m: MessageView, prefix: Seq<char>) -> ActionView {
    match m {
        MessageView::Text(t) => ActionView::Send(MessageView::Text(prefix + t)),
        MessageView::Binary(d) => ActionView::Send(MessageView::Binary(d)),
        MessageView::Ping(_) => ActionView::Send(MessageView::Pong(Seq::empty())),
        MessageView::Pong(_) => ActionView::Nothing,
        MessageView::Close { code, reason } => ActionView::Close { code, reason },
    }
}

fn echo(message: Message, prefix: &str) -> (a: HandlerAction)
    ensures
        a@ == echoed(message@, prefix@),
{
    match message {
        Message::Text(text) => {
            let reply = concat(prefix, text.as_str());
            HandlerAction::Send(Message::text(reply.as_str()))
        },
        Message::Binary(data) => HandlerAction::Send(
            Message::binary(slice_to_vec(data.as_bytes())),
        ),
        Message::Ping(_) => HandlerAction::Send(Message::pong(None)),
        Message::Pong(_) => HandlerAction::Nothing,
        Message::Close(close) => HandlerAction::Close {
            code: close.code(),
            reason: close.reason().to_string(),
        },
    }
}

/// Default handler implementation: every message is sent back as it is
#[derive(Debug, Clone, Copy)]
pub struct DefaultHandler;

impl DefaultHandler {
    /// Create a new default handler
    pub fn new() -> Self {
        DefaultHandler
    }

    /// Says what is to be done after `message` arrived
    pub fn react(&self, message: Message) -> (a: HandlerAction)
        ensures
            a@ == echoed(message@, Seq::empty()),
    {
        let a = echo(message, "");
        proof {
            reveal_strlit("");
        }
        a
    }
}

impl Default for DefaultHandler {
    fn default() -> Self {
        DefaultHandler
    }
}

impl Handler for DefaultHandler {
    fn on_message(&self, message: Message) -> (a: HandlerAction)
        ensures
            a@ == echoed(message@, Seq::empty()),
    {
        self.react(message)
    }
}

/// Echo handler implementation: a text is sent back after the word
/// `Echo: `
#[derive(Debug, Clone, Copy)]
pub struct EchoHandler;

impl EchoHandler {
    /// Create a new echo handler
    pub fn new() -> Self {
        EchoHandler
    }

    /// Says what is to be done after `message` arrived
    pub fn react(&self, message: Message) -> (a: HandlerAction)
        ensures
            a@ == echoed(message@, "Echo: "@),
    {
        echo(message, "Echo: ")
    }
}

impl Default for EchoHandler {
    fn default() -> Self {
        EchoHandler
    }
}

impl Handler for EchoHandler {
    fn on_message(&self, message: Message) -> (a: HandlerAction)
        ensures
            a@ == echoed(message@, "Echo: "@),
    {
        self.react(message)
    }
}

/// Function-based handler
pub struct FnHandler<F> {
    f: F,
}

impl<F> FnHandler<F> {
    /// The function that the handler calls.
    pub closed spec fn function(&self) -> F {
        self.f
    }

    /// Create a new function-based handler
    pub fn new(f: F) -> (h: Self)
        ensures
            h.function() == f,
    {
        FnHandler { f }
    }
}

impl<F: Fn(Message) -> HandlerAction> FnHandler<F> {
    /// Says what is to be done after `message` arrived: what the function
    /// says
    pub fn react(&self, message: Message) -> (a: HandlerAction)
        requires
            self.function().requires((message,)),
        ensures
            self.function().ensures((message,), a),
    {
        (self.f)(message)
    }
}

/// Create a handler from a function
pub fn from_fn<F: Fn(Message) -> HandlerAction>(f: F) -> (h: FnHandler<F>)
    ensures
        h.function() == f,
{
    FnHandler::new(f)
}

} // verus!
