//! Passing open file descriptors, with metadata about the file they refer to,
//! between processes over a local stream socket.
//!
//! The library holds the protocol's logic: the wire framing of each logical
//! message, the receiving side's per-connection state machine, and the
//! construction of entry metadata from a raw attribute snapshot.

pub mod frame;
pub mod metadata;
pub mod receiver;
pub mod sender;

pub use frame::{decode_header, encode_entry, encode_message, FrameError, Header};
pub use metadata::{detect_mime_type, AttrSnapshot, FileMetadata, FileType};
pub use receiver::{take_descriptor, RxAction, RxEvent, RxState, SocketRx};
pub use sender::SocketTx;

