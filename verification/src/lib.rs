//! Core logic of a peer-to-peer voice client: packet framing, room
//! secrets, the adaptive jitter buffer, voice activity gating, peer
//! liveness, signalling, the STUN exchange, and the account, settings and
//! update rules of the user interface.

pub mod account;
pub mod bytes;
pub mod clock;
pub mod controls;
pub mod crypto;
pub mod i18n;
pub mod jitter;
pub mod liveness;
pub mod packet;
pub mod seqnum;
pub mod signal;
pub mod stun;
pub mod text;
pub mod update;
pub mod voice;
