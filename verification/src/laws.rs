//! What the operations of the library are for, said of the calls themselves: of what is
//! handed in, of what comes back and of what is left behind.

pub mod advert;
pub mod catalog;
pub mod channel;
pub mod codes;
pub mod conn;
pub mod control;
pub mod device;
pub mod events;
pub mod form;
pub mod manage;
pub mod node;
pub mod pairing;
pub mod payload;
pub mod radio;
pub mod request;
pub mod security;
pub mod service;
pub mod settings;
pub mod sync;
pub mod wire;
