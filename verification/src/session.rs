//! The per-connection session state machine and the message router.
//!
//! A session binds one identity to one live transport. On entering `Joined`
//! it registers itself and announces its presence; while `Joined` every
//! inbound frame is routed; on transport close it deregisters, announces the
//! leave, and becomes `Closed`, a terminal state.
//!
//! The router decides, for one inbound frame, which messages go to which
//! handles and which transcript lines are written. Both decisions happen in
//! one critical section per frame, so a reader that has observed a delivered
//! message already finds it recorded. The functions here are that critical
//! section on the owned state; the transport performs the pushes afterwards,
//! fire-and-forget.

use vstd::prelude::*;
use vstd::string::StringExecFns;

use crate::decode::decode_frame;
use crate::decode::decode_of;
use crate::decode::json_accepts;
use crate::decode::parsed_of;
use crate::history::HistoryStore;
use crate::history::transcript_of;
use crate::messages::Delivery;
use crate::messages::DeliveryV;
use crate::messages::ErrorReason;
use crate::messages::InboundFrame;
use crate::messages::InboundFrameV;
use crate::messages::Message;
use crate::messages::MessageV;
use crate::messages::RouteOutput;
use crate::messages::RouteOutputV;
use crate::presence::announce_join;
use crate::presence::announce_leave;
use crate::presence::broadcast_deliveries;
use crate::presence::broadcast_to_connections;
use crate::presence::join_deliveries;
use crate::registry::ConnectionHandle;
use crate::registry::ConnectionRegistry;
use crate::registry::str_eq;

verus! {

/// The name of the public channel: a message addressed to it is broadcast.
pub open spec fn public_channel() -> Seq<char> {
    "public"@
}

/// The identities of the user directory, pairwise distinct: it is a set.
pub open spec fn distinct_ids(ids: Seq<Seq<char>>) -> bool {
    forall|i: int, j: int| 0 <= i < j < ids.len() ==> ids[i] != ids[j]
}

/// The transcript line recorded for a public message.
pub open spec fn public_line(from: Seq<char>, content: Seq<char>) -> Seq<char> {
    from + ": "@ + content
}

/// The transcript line recorded for the sender of a private message.
pub open spec fn private_sent_line(to: Seq<char>, content: Seq<char>) -> Seq<char> {
    "To "@ + to + ": "@ + content
}

/// The transcript line recorded for the recipient of a private message.
pub open spec fn private_recv_line(from: Seq<char>, content: Seq<char>) -> Seq<char> {
    "From "@ + from + ": "@ + content
}

/// The transcript line recorded for the sender of a private file hand-off.
pub open spec fn file_sent_line(to: Seq<char>, filename: Seq<char>) -> Seq<char> {
    "To "@ + to + ": sent file '"@ + filename + "'"@
}

/// The transcript line recorded for the recipient of a private file hand-off.
pub open spec fn file_recv_line(from: Seq<char>, filename: Seq<char>) -> Seq<char> {
    "From "@ + from + ": received file '"@ + filename + "'"@
}

/// The content of an optional field, defaulted to empty when absent.
pub open spec fn opt_or_empty(o: Option<Seq<char>>) -> Seq<char> {
    match o {
        Some(s) => s,
        None => Seq::empty(),
    }
}

/// The output of every rejection: exactly one error frame back to the
/// originating connection, and no delivery to anyone else.
pub open spec fn error_output(out: RouteOutputV, reason: ErrorReason) -> bool {
    &&& out.to_sender == seq![MessageV::Error { reason }]
    &&& out.deliveries == Seq::<DeliveryV>::empty()
}

/// What routing a text message decides, as a relation between the history
/// before (`h0`) and after (`h1`) and the produced output.
///
/// `entries`/`reg` are the registry's order and map, `dir` the user
/// directory. The four cases: a broadcast to the public channel; a message
/// addressed to the sender itself; a private message to a connected
/// recipient; a private message to anyone else.
pub open spec fn route_text_spec(
    sender: Seq<char>,
    recipient: Seq<char>,
    content: Seq<char>,
    entries: Seq<(Seq<char>, u64)>,
    reg: Map<Seq<char>, u64>,
    dir: Seq<Seq<char>>,
    h0: Map<Seq<char>, Seq<Seq<char>>>,
    h1: Map<Seq<char>, Seq<Seq<char>>>,
    out: RouteOutputV,
) -> bool {
    if recipient == public_channel() {
        // One transcript line per directory identity, one delivery per live
        // connection (the sender sees its own echo).
        &&& out.to_sender == Seq::<MessageV>::empty()
        &&& out.deliveries == broadcast_deliveries(
            entries,
            MessageV::Public { from: sender, content },
        )
        &&& forall|id: Seq<char>| #[trigger]
            dir.contains(id) ==> transcript_of(h1, id) == transcript_of(h0, id).push(
                public_line(sender, content),
            )
        &&& forall|id: Seq<char>| !dir.contains(id) ==> #[trigger] transcript_of(h1, id)
            == transcript_of(h0, id)
    } else if recipient == sender {
        &&& error_output(out, ErrorReason::SelfAddressed)
        &&& h1 == h0
    } else if reg.contains_key(recipient) {
        // Delivery to the recipient, a confirmation echo to the sender, one
        // transcript line each.
        &&& out.deliveries == seq![
            DeliveryV {
                handle: reg[recipient],
                message: MessageV::Private { from: sender, to: recipient, content },
            },
        ]
        &&& out.to_sender == seq![MessageV::Private { from: sender, to: recipient, content }]
        &&& transcript_of(h1, sender) == transcript_of(h0, sender).push(
            private_sent_line(recipient, content),
        )
        &&& transcript_of(h1, recipient) == transcript_of(h0, recipient).push(
            private_recv_line(sender, content),
        )
        &&& forall|id: Seq<char>| id != sender && id != recipient ==> #[trigger] transcript_of(
            h1,
            id,
        ) == transcript_of(h0, id)
    } else {
        &&& error_output(out, ErrorReason::RecipientNotFound)
        &&& h1 == h0
    }
}

/// What routing a file transfer decides. The blob store has already been
/// handed the payload; `file_id` is the identifier it returned. Public file
/// offers write no transcript line, private ones write one line per
/// participant.
pub open spec fn route_file_spec(
    sender: Seq<char>,
    recipient: Seq<char>,
    filename: Seq<char>,
    has_data: bool,
    file_id: Seq<char>,
    entries: Seq<(Seq<char>, u64)>,
    reg: Map<Seq<char>, u64>,
    h0: Map<Seq<char>, Seq<Seq<char>>>,
    h1: Map<Seq<char>, Seq<Seq<char>>>,
    out: RouteOutputV,
) -> bool {
    if !has_data {
        &&& error_output(out, ErrorReason::NoPayload)
        &&& h1 == h0
    } else if recipient == public_channel() {
        &&& out.to_sender == Seq::<MessageV>::empty()
        &&& out.deliveries == broadcast_deliveries(
            entries,
            MessageV::FileOffer { from: sender, recipient, file_id, filename },
        )
        &&& h1 == h0
    } else if recipient == sender {
        &&& error_output(out, ErrorReason::SelfAddressed)
        &&& h1 == h0
    } else if reg.contains_key(recipient) {
        &&& out.deliveries == seq![
            DeliveryV {
                handle: reg[recipient],
                message: MessageV::FileOffer { from: sender, recipient, file_id, filename },
            },
        ]
        &&& out.to_sender == seq![
            MessageV::FileOffer { from: sender, recipient, file_id, filename },
        ]
        &&& transcript_of(h1, sender) == transcript_of(h0, sender).push(
            file_sent_line(recipient, filename),
        )
        &&& transcript_of(h1, recipient) == transcript_of(h0, recipient).push(
            file_recv_line(sender, filename),
        )
        &&& forall|id: Seq<char>| id != sender && id != recipient ==> #[trigger] transcript_of(
            h1,
            id,
        ) == transcript_of(h0, id)
    } else {
        &&& error_output(out, ErrorReason::RecipientNotFound)
        &&& h1 == h0
    }
}

/// A directed message whose recipient equals the sender is always rejected,
/// whatever its kind: exactly one error frame back to the sender, no
/// delivery to anyone, and no history change. (The routing functions take
/// the registry read-only, so no registry change is possible either.) The
/// one identity this cannot hold for is the one named like the public
/// channel itself: its self-addressed send is treated as a broadcast.
pub proof fn lemma_self_addressed_rejected(
    sender: Seq<char>,
    content: Seq<char>,
    filename: Seq<char>,
    has_data: bool,
    file_id: Seq<char>,
    entries: Seq<(Seq<char>, u64)>,
    reg: Map<Seq<char>, u64>,
    dir: Seq<Seq<char>>,
    h0: Map<Seq<char>, Seq<Seq<char>>>,
    h1: Map<Seq<char>, Seq<Seq<char>>>,
    out_text: RouteOutputV,
    g0: Map<Seq<char>, Seq<Seq<char>>>,
    g1: Map<Seq<char>, Seq<Seq<char>>>,
    out_file: RouteOutputV,
)
    requires
        sender != public_channel(),
        route_text_spec(sender, sender, content, entries, reg, dir, h0, h1, out_text),
        route_file_spec(sender, sender, filename, has_data, file_id, entries, reg, g0, g1, out_file),
    ensures
        out_text.to_sender.len() == 1,
        out_text.to_sender[0] is Error,
        out_text.deliveries.len() == 0,
        h1 == h0,
        out_file.to_sender.len() == 1,
        out_file.to_sender[0] is Error,
        out_file.deliveries.len() == 0,
        g1 == g0,
{
}

/// What dispatching one decoded frame decides: the state machine of the
/// router, as a relation between the frame, the history before (`h0`) and
/// after (`h1`), and the produced output. A malformed frame or an
/// unrecognized kind gets a single error and changes nothing; a text
/// message follows [`route_text_spec`], a file transfer [`route_file_spec`],
/// each with absent optional fields defaulted to empty.
pub open spec fn dispatch_spec(
    sender: Seq<char>,
    frame: InboundFrameV,
    file_id: Seq<char>,
    entries: Seq<(Seq<char>, u64)>,
    reg: Map<Seq<char>, u64>,
    dir: Seq<Seq<char>>,
    h0: Map<Seq<char>, Seq<Seq<char>>>,
    h1: Map<Seq<char>, Seq<Seq<char>>>,
    out: RouteOutputV,
) -> bool {
    match frame {
        InboundFrameV::Malformed => {
            &&& error_output(out, ErrorReason::DecodeError)
            &&& h1 == h0
        },
        InboundFrameV::Frame { kind, recipient, content, filename, data } => {
            if kind == "message"@ {
                route_text_spec(
                    sender,
                    recipient,
                    opt_or_empty(content),
                    entries,
                    reg,
                    dir,
                    h0,
                    h1,
                    out,
                )
            } else if kind == "file"@ {
                route_file_spec(
                    sender,
                    recipient,
                    opt_or_empty(filename),
                    data is Some,
                    file_id,
                    entries,
                    reg,
                    h0,
                    h1,
                    out,
                )
            } else {
                &&& error_output(out, ErrorReason::UnknownMessageKind)
                &&& h1 == h0
            }
        },
    }
}

/// Renders the transcript line for a public message.
fn make_public_line(from: &str, content: &str) -> (r: String)
    ensures
        r@ == public_line(from@, content@),
{
    from.to_owned().concat(": ").concat(content)
}

/// Renders the sender-side transcript line for a private message.
fn make_private_sent_line(to: &str, content: &str) -> (r: String)
    ensures
        r@ == private_sent_line(to@, content@),
{
    "To ".to_owned().concat(to).concat(": ").concat(content)
}

/// Renders the recipient-side transcript line for a private message.
fn make_private_recv_line(from: &str, content: &str) -> (r: String)
    ensures
        r@ == private_recv_line(from@, content@),
{
    "From ".to_owned().concat(from).concat(": ").concat(content)
}

/// Renders the sender-side transcript line for a private file hand-off.
fn make_file_sent_line(to: &str, filename: &str) -> (r: String)
    ensures
        r@ == file_sent_line(to@, filename@),
{
    "To ".to_owned().concat(to).concat(": sent file '").concat(filename).concat("'")
}

/// Renders the recipient-side transcript line for a private file hand-off.
fn make_file_recv_line(from: &str, filename: &str) -> (r: String)
    ensures
        r@ == file_recv_line(from@, filename@),
{
    "From ".to_owned().concat(from).concat(": received file '").concat(filename).concat("'")
}

/// The lifecycle of a session. `Closing` is the transient state while the
/// leave sequence runs; `Closed` is terminal.
#[derive(Clone, Copy, PartialEq, Eq, Structural, Debug)]
pub enum SessionState {
    Connecting,
    Joined,
    Closing,
    Closed,
}

/// One connection's session: an already-authenticated identity bound to the
/// handle of its outbound channel.
pub struct ChatSession {
    pub username: String,
    pub handle: ConnectionHandle,
    pub state: SessionState,
}

impl ChatSession {
    /// A fresh session on a newly opened transport, before it has joined.
    pub fn new(username: String, handle: ConnectionHandle) -> (r: Self)
        ensures
            r.username == username,
            r.handle == handle,
            r.state is Connecting,
    {
        ChatSession { username, handle, state: SessionState::Connecting }
    }

    /// Enters `Joined`: registers this session (superseding any previous
    /// connection of the same identity) and produces the join notices for
    /// everyone else.
    pub fn started(&mut self, registry: &mut ConnectionRegistry) -> (r: Vec<Delivery>)
        requires
            old(self).state is Connecting,
            old(registry).wf(),
        ensures
            final(self).username == old(self).username,
            final(self).handle == old(self).handle,
            final(self).state is Joined,
            final(registry).wf(),
            final(registry)@ == old(registry)@.insert(
                old(self).username@,
                old(self).handle.id,
            ),
            r.deep_view() == join_deliveries(final(registry).entries_seq(), old(self).username@),
    {
        registry.join(self.username.clone(), self.handle);
        let r = announce_join(registry, self.username.as_str());
        self.state = SessionState::Joined;
        r
    }

    /// Runs the close sequence exactly once: deregisters, produces the leave
    /// notices for everyone still registered, and becomes `Closed`. On a
    /// session that never joined or has already closed it is a no-op, so the
    /// transition is idempotent even when a read-loop failure and an external
    /// shutdown both request it.
    pub fn stopped(&mut self, registry: &mut ConnectionRegistry) -> (r: Vec<Delivery>)
        requires
            old(registry).wf(),
        ensures
            final(self).username == old(self).username,
            final(self).handle == old(self).handle,
            final(self).state is Closed,
            final(registry).wf(),
            old(self).state is Joined ==> {
                &&& final(registry)@ == old(registry)@.remove(old(self).username@)
                &&& r.deep_view() == broadcast_deliveries(
                    final(registry).entries_seq(),
                    MessageV::UserDisconnected { username: old(self).username@ },
                )
            },
            !(old(self).state is Joined) ==> {
                &&& final(registry)@ == old(registry)@
                &&& r@.len() == 0
            },
    {
        match self.state {
            SessionState::Joined => {
                self.state = SessionState::Closing;
                registry.leave(self.username.as_str());
                let r = announce_leave(registry, self.username.as_str());
                self.state = SessionState::Closed;
                r
            },
            _ => {
                self.state = SessionState::Closed;
                Vec::new()
            },
        }
    }

    /// Routes a text message from this session: a broadcast when it is
    /// addressed to the public channel, otherwise a private delivery. The
    /// registry is only read; every history change and every produced frame
    /// is pinned by [`route_text_spec`].
    pub fn handle_text_message(
        &self,
        recipient: &String,
        content: &String,
        registry: &ConnectionRegistry,
        history: &mut HistoryStore,
        directory: &Vec<String>,
    ) -> (r: RouteOutput)
        requires
            self.state is Joined,
            registry.wf(),
            old(history).wf(),
            distinct_ids(directory.deep_view()),
        ensures
            final(history).wf(),
            route_text_spec(
                self.username@,
                recipient@,
                content@,
                registry.entries_seq(),
                registry@,
                directory.deep_view(),
                old(history)@,
                final(history)@,
                r@,
            ),
    {
        if str_eq(recipient.as_str(), "public") {
            let ghost dir = directory.deep_view();
            let ghost h0 = history@;
            let line = make_public_line(self.username.as_str(), content.as_str());
            let n = directory.len();
            let mut j: usize = 0;
            while j < n
                invariant
                    n == directory@.len(),
                    j <= n,
                    dir == directory.deep_view(),
                    distinct_ids(dir),
                    line@ == public_line(self.username@, content@),
                    history.wf(),
                    forall|k: int| 0 <= k < j ==> #[trigger] transcript_of(history@, dir[k])
                        == transcript_of(h0, dir[k]).push(line@),
                    forall|id: Seq<char>| !dir.take(j as int).contains(id)
                        ==> #[trigger] transcript_of(history@, id) == transcript_of(h0, id),
                decreases n - j,
            {
                let ghost hprev = history@;
                proof {
                    assert(dir[j as int] == directory@[j as int]@);
                    assert forall|k: int| 0 <= k < j implies dir.take(j as int)[k] != dir[
                        j as int
                    ] by {
                        assert(dir.take(j as int)[k] == dir[k]);
                    }
                    assert(!dir.take(j as int).contains(dir[j as int]));
                }
                history.append(directory[j].as_str(), line.clone());
                proof {
                    assert forall|id: Seq<char>| !dir.take(j + 1 as int).contains(id) implies
                        #[trigger] transcript_of(history@, id) == transcript_of(h0, id) by {
                        assert forall|k: int| 0 <= k < j implies dir.take(j as int)[k] != id by {
                            if dir.take(j as int)[k] == id {
                                assert(dir.take(j + 1 as int)[k] == id);
                                assert(dir.take(j + 1 as int).contains(id));
                            }
                        }
                        assert(!dir.take(j as int).contains(id));
                        assert(dir.take(j + 1 as int)[j as int] == dir[j as int]);
                        assert(id != dir[j as int]);
                    }
                }
                j += 1;
            }
            proof {
                assert(dir.take(n as int) =~= dir);
                assert forall|id: Seq<char>| #[trigger] dir.contains(id) implies transcript_of(
                    history@,
                    id,
                ) == transcript_of(h0, id).push(public_line(self.username@, content@)) by {
                    let k = choose|k: int| 0 <= k < dir.len() && dir[k] == id;
                    assert(transcript_of(history@, dir[k]) == transcript_of(h0, dir[k]).push(
                        line@,
                    ));
                }
            }
            let message = Message::Public {
                from: self.username.clone(),
                content: content.clone(),
            };
            let deliveries = broadcast_to_connections(registry, &message);
            let r = RouteOutput { to_sender: Vec::new(), deliveries };
            proof {
                assert(r@.to_sender =~= Seq::<MessageV>::empty());
            }
            r
        } else if str_eq(recipient.as_str(), self.username.as_str()) {
            RouteOutput::error(ErrorReason::SelfAddressed)
        } else {
            match registry.lookup(recipient.as_str()) {
                Some(handle) => {
                    let mut deliveries: Vec<Delivery> = Vec::new();
                    deliveries.push(
                        Delivery {
                            handle,
                            message: Message::Private {
                                from: self.username.clone(),
                                to: recipient.clone(),
                                content: content.clone(),
                            },
                        },
                    );
                    let mut to_sender: Vec<Message> = Vec::new();
                    to_sender.push(
                        Message::Private {
                            from: self.username.clone(),
                            to: recipient.clone(),
                            content: content.clone(),
                        },
                    );
                    history.append(
                        self.username.as_str(),
                        make_private_sent_line(recipient.as_str(), content.as_str()),
                    );
                    history.append(
                        recipient.as_str(),
                        make_private_recv_line(self.username.as_str(), content.as_str()),
                    );
                    let r = RouteOutput { to_sender, deliveries };
                    proof {
                        assert(r@.deliveries =~= seq![
                            DeliveryV {
                                handle: registry@[recipient@],
                                message: MessageV::Private {
                                    from: self.username@,
                                    to: recipient@,
                                    content: content@,
                                },
                            },
                        ]);
                        assert(r@.to_sender =~= seq![
                            MessageV::Private {
                                from: self.username@,
                                to: recipient@,
                                content: content@,
                            },
                        ]);
                    }
                    r
                },
                None => RouteOutput::error(ErrorReason::RecipientNotFound),
            }
        }
    }

    /// Routes a file transfer from this session. The transport has already
    /// handed the payload bytes to the external blob store and passes the
    /// returned `file_id`; only the offer metadata is ever delivered, never
    /// the bytes. `has_data` says whether the frame carried a payload at all.
    pub fn handle_file_message(
        &self,
        recipient: &String,
        filename: &String,
        has_data: bool,
        file_id: &String,
        registry: &ConnectionRegistry,
        history: &mut HistoryStore,
    ) -> (r: RouteOutput)
        requires
            self.state is Joined,
            registry.wf(),
            old(history).wf(),
        ensures
            final(history).wf(),
            route_file_spec(
                self.username@,
                recipient@,
                filename@,
                has_data,
                file_id@,
                registry.entries_seq(),
                registry@,
                old(history)@,
                final(history)@,
                r@,
            ),
    {
        if !has_data {
            return RouteOutput::error(ErrorReason::NoPayload);
        }
        if str_eq(recipient.as_str(), "public") {
            let message = Message::FileOffer {
                from: self.username.clone(),
                recipient: recipient.clone(),
                file_id: file_id.clone(),
                filename: filename.clone(),
            };
            let deliveries = broadcast_to_connections(registry, &message);
            let r = RouteOutput { to_sender: Vec::new(), deliveries };
            proof {
                assert(r@.to_sender =~= Seq::<MessageV>::empty());
            }
            r
        } else if str_eq(recipient.as_str(), self.username.as_str()) {
            RouteOutput::error(ErrorReason::SelfAddressed)
        } else {
            match registry.lookup(recipient.as_str()) {
                Some(handle) => {
                    let mut deliveries: Vec<Delivery> = Vec::new();
                    deliveries.push(
                        Delivery {
                            handle,
                            message: Message::FileOffer {
                                from: self.username.clone(),
                                recipient: recipient.clone(),
                                file_id: file_id.clone(),
                                filename: filename.clone(),
                            },
                        },
                    );
                    let mut to_sender: Vec<Message> = Vec::new();
                    to_sender.push(
                        Message::FileOffer {
                            from: self.username.clone(),
                            recipient: recipient.clone(),
                            file_id: file_id.clone(),
                            filename: filename.clone(),
                        },
                    );
                    history.append(
                        self.username.as_str(),
                        make_file_sent_line(recipient.as_str(), filename.as_str()),
                    );
                    history.append(
                        recipient.as_str(),
                        make_file_recv_line(self.username.as_str(), filename.as_str()),
                    );
                    let r = RouteOutput { to_sender, deliveries };
                    proof {
                        assert(r@.deliveries =~= seq![
                            DeliveryV {
                                handle: registry@[recipient@],
                                message: MessageV::FileOffer {
                                    from: self.username@,
                                    recipient: recipient@,
                                    file_id: file_id@,
                                    filename: filename@,
                                },
                            },
                        ]);
                        assert(r@.to_sender =~= seq![
                            MessageV::FileOffer {
                                from: self.username@,
                                recipient: recipient@,
                                file_id: file_id@,
                                filename: filename@,
                            },
                        ]);
                    }
                    r
                },
                None => RouteOutput::error(ErrorReason::RecipientNotFound),
            }
        }
    }

    /// The state machine per decoded inbound frame: a malformed frame or an
    /// unrecognized kind is answered with a single error and touches no
    /// shared state; a text message goes to [`Self::handle_text_message`],
    /// a file transfer to [`Self::handle_file_message`], each with absent
    /// optional fields defaulted to empty.
    pub fn handle_decoded(
        &self,
        frame: &InboundFrame,
        file_id: &String,
        registry: &ConnectionRegistry,
        history: &mut HistoryStore,
        directory: &Vec<String>,
    ) -> (r: RouteOutput)
        requires
            self.state is Joined,
            registry.wf(),
            old(history).wf(),
            distinct_ids(directory.deep_view()),
        ensures
            final(history).wf(),
            dispatch_spec(
                self.username@,
                frame@,
                file_id@,
                registry.entries_seq(),
                registry@,
                directory.deep_view(),
                old(history)@,
                final(history)@,
                r@,
            ),
    {
        match frame {
            InboundFrame::Malformed => RouteOutput::error(ErrorReason::DecodeError),
            InboundFrame::Frame { kind, recipient, content, filename, data } => {
                if str_eq(kind.as_str(), "file") {
                    proof {
                        reveal_strlit("message");
                        reveal_strlit("file");
                        assert("message"@.len() == 7);
                        assert("file"@.len() == 4);
                    }
                    let f = match filename {
                        Some(f) => f.clone(),
                        None => String::new(),
                    };
                    self.handle_file_message(
                        recipient,
                        &f,
                        data.is_some(),
                        file_id,
                        registry,
                        history,
                    )
                } else if str_eq(kind.as_str(), "message") {
                    let c = match content {
                        Some(c) => c.clone(),
                        None => String::new(),
                    };
                    self.handle_text_message(recipient, &c, registry, history, directory)
                } else {
                    RouteOutput::error(ErrorReason::UnknownMessageKind)
                }
            },
        }
    }

    /// One inbound text frame, end to end: decode, then route. Text that is
    /// not JSON is answered with a single decode error and touches nothing;
    /// accepted text is dispatched as exactly the frame it decodes to,
    /// [`decode_of`] of the value the text parses to.
    pub fn handle(
        &self,
        text: &str,
        file_id: &String,
        registry: &ConnectionRegistry,
        history: &mut HistoryStore,
        directory: &Vec<String>,
    ) -> (r: RouteOutput)
        requires
            self.state is Joined,
            registry.wf(),
            old(history).wf(),
            distinct_ids(directory.deep_view()),
        ensures
            final(history).wf(),
            !json_accepts(text@) ==> {
                &&& error_output(r@, ErrorReason::DecodeError)
                &&& final(history)@ == old(history)@
            },
            json_accepts(text@) ==> dispatch_spec(
                self.username@,
                decode_of(parsed_of(text@)),
                file_id@,
                registry.entries_seq(),
                registry@,
                directory.deep_view(),
                old(history)@,
                final(history)@,
                r@,
            ),
    {
        let frame = decode_frame(text);
        self.handle_decoded(&frame, file_id, registry, history, directory)
    }
}

} // verus!
