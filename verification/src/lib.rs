//! Core logic of a Bitmessage-style peer-to-peer messenger node.
pub mod client;
pub mod crypto;
pub mod gui;
pub mod models;
pub mod pow;
pub mod worker;
