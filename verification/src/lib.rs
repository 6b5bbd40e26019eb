//! A request-reply envelope protocol over a multipart, frame-oriented
//! transport.
//!
//! A typed [`msg::RRMessage`] is turned into an exact, ordered sequence of
//! frames (each a byte payload plus a continuation flag) by the encoder, and
//! an incoming frame sequence is turned back into a typed message, or into a
//! well-defined "no message" outcome, by the decoder. The actual socket
//! traffic is left to the caller: the codec works on plain frame values.

pub mod codec;
pub mod laws;
pub mod msg;

pub use codec::{frame_payloads, Frame};
pub use msg::{MessageFormat, MsgContent, MsgMetadata, RRMessage, RRMessageCommand, RRMsgHandler};
