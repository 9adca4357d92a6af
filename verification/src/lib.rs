//! A real-time multi-user message routing engine: it tracks which identities
//! currently have a live connection, fans out public broadcasts, routes
//! private point-to-point messages and file offers, and keeps an append-only
//! transcript per recipient.

mod assoc;
mod decode;
mod history;
mod messages;
mod models;
mod presence;
mod registry;
mod session;

pub use decode::JsonV;
pub use decode::all_bytes;
pub use decode::byte_val;
pub use decode::bytes_of;
pub use decode::decode_frame;
pub use decode::decode_of;
pub use decode::is_byte;
pub use decode::json_accepts;
pub use decode::json_model;
pub use decode::json_uint;
pub use decode::models_of;
pub use decode::obj_of;
pub use decode::opt_bytes_of;
pub use decode::opt_str_of;
pub use decode::opt_u64_of;
pub use decode::parsed_of;
pub use decode::req_str_of;
pub use history::HistoryStore;
pub use history::transcript_of;
pub use messages::Delivery;
pub use messages::DeliveryV;
pub use messages::ErrorReason;
pub use messages::InboundFrame;
pub use messages::InboundFrameV;
pub use messages::Message;
pub use messages::MessageV;
pub use messages::RouteOutput;
pub use messages::RouteOutputV;
pub use models::HistoryResponse;
pub use models::LoginResponse;
pub use models::SignupResponse;
pub use presence::announce_join;
pub use presence::announce_leave;
pub use presence::broadcast_deliveries;
pub use presence::broadcast_to_connections;
pub use presence::join_deliveries;
pub use registry::ConnectionHandle;
pub use registry::ConnectionRegistry;
pub use registry::RegEntry;
pub use registry::RegOp;
pub use registry::apply_ops;
pub use registry::last_op_is_join;
pub use registry::lemma_entries_agree;
pub use registry::lemma_leave_idempotent;
pub use registry::lemma_registry_after_ops;
pub use registry::str_eq;
pub use session::ChatSession;
pub use session::SessionState;
pub use session::dispatch_spec;
pub use session::distinct_ids;
pub use session::error_output;
pub use session::file_recv_line;
pub use session::file_sent_line;
pub use session::lemma_self_addressed_rejected;
pub use session::opt_or_empty;
pub use session::private_recv_line;
pub use session::private_sent_line;
pub use session::public_channel;
pub use session::public_line;
pub use session::route_file_spec;
pub use session::route_text_spec;
