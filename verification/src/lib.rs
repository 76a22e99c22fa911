//! Verified core of a remote-control client for a Mac: the input wire
//! protocol spoken to the Mac-side receiver, the key translation tables, the
//! decisions of the input hooks and of the receiver link, and the RFB (VNC)
//! handshake, messages and framebuffer updates.
pub mod wire;
pub mod protocol;
pub mod keysym;
pub mod input;
pub mod link;
pub mod framebuffer;
pub mod video;
pub mod rfb;
pub mod vnc;
pub mod ui;
