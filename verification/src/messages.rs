//! The logical message model: outbound messages, error taxonomy, and their
//! spec-level views.

use vstd::prelude::*;

use crate::registry::ConnectionHandle;

verus! {

/// Why an inbound frame was rejected. Every error is sender-local: it
/// produces exactly one error frame back to the originating connection and
/// leaves all shared state untouched.
#[derive(Clone, Copy, PartialEq, Eq, Structural, Debug)]
pub enum ErrorReason {
    /// The inbound frame could not be decoded.
    DecodeError,
    /// The frame decoded, but its kind is neither a text message nor a file.
    UnknownMessageKind,
    /// The recipient of a directed message equals the sender.
    SelfAddressed,
    /// The recipient of a directed message has no live connection.
    RecipientNotFound,
    /// A file frame arrived with no payload bytes attached.
    NoPayload,
}

impl ErrorReason {
    /// The human-readable reason carried by the error frame.
    pub open spec fn text_spec(self) -> Seq<char> {
        match self {
            ErrorReason::DecodeError => "unrecognized message format"@,
            ErrorReason::UnknownMessageKind => "unrecognized message type"@,
            ErrorReason::SelfAddressed => "cannot message yourself"@,
            ErrorReason::RecipientNotFound => "user not found"@,
            ErrorReason::NoPayload => "no file selected"@,
        }
    }

    /// Renders the reason as the text placed in the outbound error frame.
    pub fn text(&self) -> (r: String)
        ensures
            r@ == self.text_spec(),
    {
        match self {
            ErrorReason::DecodeError => "unrecognized message format".to_owned(),
            ErrorReason::UnknownMessageKind => "unrecognized message type".to_owned(),
            ErrorReason::SelfAddressed => "cannot message yourself".to_owned(),
            ErrorReason::RecipientNotFound => "user not found".to_owned(),
            ErrorReason::NoPayload => "no file selected".to_owned(),
        }
    }
}

/// A logical outbound message, immutable once constructed. Serialization to
/// wire frames is the transport's job, outside this library.
pub enum Message {
    /// A broadcast on the public channel.
    Public { from: String, content: String },
    /// A directed message from one identity to another.
    Private { from: String, to: String, content: String },
    /// Metadata of an uploaded file: the blob identifier, never the bytes.
    FileOffer { from: String, recipient: String, file_id: String, filename: String },
    /// A sender-local rejection of an inbound frame.
    Error { reason: ErrorReason },
    /// Presence notice: `username` has joined.
    UserConnected { username: String },
    /// Presence notice: `username` has left.
    UserDisconnected { username: String },
}

/// The spec-level shape of a [`Message`], over sequences of characters.
pub enum MessageV {
    Public { from: Seq<char>, content: Seq<char> },
    Private { from: Seq<char>, to: Seq<char>, content: Seq<char> },
    FileOffer { from: Seq<char>, recipient: Seq<char>, file_id: Seq<char>, filename: Seq<char> },
    Error { reason: ErrorReason },
    UserConnected { username: Seq<char> },
    UserDisconnected { username: Seq<char> },
}

impl View for Message {
    type V = MessageV;

    open spec fn view(&self) -> MessageV {
        match self {
            Message::Public { from, content } => MessageV::Public {
                from: from@,
                content: content@,
            },
            Message::Private { from, to, content } => MessageV::Private {
                from: from@,
                to: to@,
                content: content@,
            },
            Message::FileOffer { from, recipient, file_id, filename } => MessageV::FileOffer {
                from: from@,
                recipient: recipient@,
                file_id: file_id@,
                filename: filename@,
            },
            Message::Error { reason } => MessageV::Error { reason: *reason },
            Message::UserConnected { username } => MessageV::UserConnected {
                username: username@,
            },
            Message::UserDisconnected { username } => MessageV::UserDisconnected {
                username: username@,
            },
        }
    }
}

impl DeepView for Message {
    type V = MessageV;

    open spec fn deep_view(&self) -> MessageV {
        self.view()
    }
}

impl Clone for Message {
    /// Cloning preserves the logical message.
    fn clone(&self) -> (r: Self)
        ensures
            r@ == self@,
    {
        match self {
            Message::Public { from, content } => Message::Public {
                from: from.clone(),
                content: content.clone(),
            },
            Message::Private { from, to, content } => Message::Private {
                from: from.clone(),
                to: to.clone(),
                content: content.clone(),
            },
            Message::FileOffer { from, recipient, file_id, filename } => Message::FileOffer {
                from: from.clone(),
                recipient: recipient.clone(),
                file_id: file_id.clone(),
                filename: filename.clone(),
            },
            Message::Error { reason } => Message::Error { reason: *reason },
            Message::UserConnected { username } => Message::UserConnected {
                username: username.clone(),
            },
            Message::UserDisconnected { username } => Message::UserDisconnected {
                username: username.clone(),
            },
        }
    }
}

/// An inbound frame as the decoder hands it to the router: either malformed,
/// or the fields of a client message.
///
/// `data` carries the raw payload bytes of a file transfer; the router only
/// tests their presence and leaves storing them to the external blob store.
pub enum InboundFrame {
    Malformed,
    Frame {
        kind: String,
        recipient: String,
        content: Option<String>,
        filename: Option<String>,
        data: Option<Vec<u8>>,
    },
}

/// The spec-level shape of an [`InboundFrame`].
pub enum InboundFrameV {
    Malformed,
    Frame {
        kind: Seq<char>,
        recipient: Seq<char>,
        content: Option<Seq<char>>,
        filename: Option<Seq<char>>,
        data: Option<Seq<u8>>,
    },
}

impl View for InboundFrame {
    type V = InboundFrameV;

    open spec fn view(&self) -> InboundFrameV {
        match self {
            InboundFrame::Malformed => InboundFrameV::Malformed,
            InboundFrame::Frame { kind, recipient, content, filename, data } => {
                InboundFrameV::Frame {
                    kind: kind@,
                    recipient: recipient@,
                    content: match content {
                        Some(c) => Some(c@),
                        None => None,
                    },
                    filename: match filename {
                        Some(f) => Some(f@),
                        None => None,
                    },
                    data: match data {
                        Some(d) => Some(d@),
                        None => None,
                    },
                }
            },
        }
    }
}

/// One push of a message to a live connection's handle. Pushes are
/// fire-and-forget: the transport drops a push whose connection has
/// meanwhile closed.
pub struct Delivery {
    pub handle: ConnectionHandle,
    pub message: Message,
}

/// The spec-level shape of a [`Delivery`].
pub struct DeliveryV {
    pub handle: u64,
    pub message: MessageV,
}

impl View for Delivery {
    type V = DeliveryV;

    open spec fn view(&self) -> DeliveryV {
        DeliveryV { handle: self.handle.id, message: self.message@ }
    }
}

impl DeepView for Delivery {
    type V = DeliveryV;

    open spec fn deep_view(&self) -> DeliveryV {
        self.view()
    }
}

/// Everything the router decides for one inbound frame: the frames written
/// back to the originating connection, and the messages pushed to handles
/// resolved through the registry.
pub struct RouteOutput {
    pub to_sender: Vec<Message>,
    pub deliveries: Vec<Delivery>,
}

/// The spec-level shape of a [`RouteOutput`].
pub struct RouteOutputV {
    pub to_sender: Seq<MessageV>,
    pub deliveries: Seq<DeliveryV>,
}

impl View for RouteOutput {
    type V = RouteOutputV;

    open spec fn view(&self) -> RouteOutputV {
        RouteOutputV { to_sender: self.to_sender.deep_view(), deliveries: self.deliveries.deep_view() }
    }
}

impl RouteOutput {
    /// An output with no deliveries and nothing to the sender.
    pub fn empty() -> (r: Self)
        ensures
            r@.to_sender == Seq::<MessageV>::empty(),
            r@.deliveries == Seq::<DeliveryV>::empty(),
    {
        let r = RouteOutput { to_sender: Vec::new(), deliveries: Vec::new() };
        proof {
            assert(r@.to_sender =~= Seq::<MessageV>::empty());
            assert(r@.deliveries =~= Seq::<DeliveryV>::empty());
        }
        r
    }

    /// An output carrying exactly one error frame to the sender: the shape of
    /// every rejection, which leaves all shared state untouched.
    pub fn error(reason: ErrorReason) -> (r: Self)
        ensures
            r@.to_sender == seq![MessageV::Error { reason }],
            r@.deliveries == Seq::<DeliveryV>::empty(),
    {
        let mut to_sender: Vec<Message> = Vec::new();
        to_sender.push(Message::Error { reason });
        let r = RouteOutput { to_sender, deliveries: Vec::new() };
        proof {
            assert(r@.to_sender =~= seq![MessageV::Error { reason }]);
            assert(r@.deliveries =~= Seq::<DeliveryV>::empty());
        }
        r
    }
}

} // verus!
