//! What one handled key press asks of the event loop.

use vstd::prelude::*;

verus! {

/// The kind of request a [`Message`] carries.
#[derive(Debug, Clone, Copy, PartialEq, Eq, Structural)]
pub enum MessageType {
    /// Nothing is left for the loop to do.
    Noop,
    /// A line was submitted; the message carries it.
    SendInput,
    /// The key toggled or closed the connection picker.
    ShowPopup,
    /// The loop ends after the next render.
    Quit,
}

/// A request from the reducer to the event loop.
pub struct Message {
    pub message_type: MessageType,
    pub content: Option<String>,
}

/// A message as the contracts see it.
pub ghost struct MessageView {
    pub message_type: MessageType,
    pub content: Option<Seq<char>>,
}

impl View for Message {
    type V = MessageView;

    open spec fn view(&self) -> MessageView {
        MessageView {
            message_type: self.message_type,
            content: match self.content {
                Some(text) => Some(text@),
                None => None,
            },
        }
    }
}

impl Message {
    /// The request of kind `message_type` that carries `content`.
    pub fn new(message_type: MessageType, content: Option<String>) -> (m: Self)
        ensures
            m.message_type == message_type,
            m.content == content,
    {
        Self { message_type, content }
    }

    /// The request to transmit `content`.
    pub fn send_input(content: String) -> (m: Self)
        ensures
            m.message_type == MessageType::SendInput,
            m.content == Some(content),
    {
        Self::new(MessageType::SendInput, Some(content))
    }

    /// The notice that the picker was shown or hidden.
    pub fn show_popup() -> (m: Self)
        ensures
            m.message_type == MessageType::ShowPopup,
            m.content is None,
    {
        Self::new(MessageType::ShowPopup, None)
    }

    /// The empty request.
    pub fn none() -> (m: Self)
        ensures
            m.message_type == MessageType::Noop,
            m.content is None,
    {
        Self::new(MessageType::Noop, None)
    }

    /// The request to leave the loop.
    pub fn quit() -> (m: Self)
        ensures
            m.message_type == MessageType::Quit,
            m.content is None,
    {
        Self::new(MessageType::Quit, None)
    }
}

} // verus!
