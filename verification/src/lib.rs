//! Device-to-device networking: an authenticated, encrypted tunnel between trusted peers, the
//! presence broadcast that lets them find each other, and the local control channel of the daemon.

pub mod address;
pub mod aes;
pub mod auth;
pub mod auth_snow;
mod bytes;
pub mod command;
pub mod crand;
pub mod exchange;
pub mod ipc;
pub mod le;
pub mod loopback;
pub mod pswd_manager;
pub mod secret;
pub mod tcp_networker;
pub mod text;
pub mod udp_networker;
pub mod x25519_cesa;
