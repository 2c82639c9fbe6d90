//! The logic of a chat bot that runs small Z80 programs.
//!
//! The heart is a small emulated computer: a memory image of fixed size
//! ([`memory`]), a port decoder that routes device accesses to a video
//! display processor ([`ports`], [`bus`]), the life cycle of one program run
//! ([`driver`]), a bounded instruction listing ([`disasm`]) and the export of
//! the final registers and frame ([`text`], [`frame`], [`export`]). The
//! processor and the video display processor are engines of their own; this
//! library is what lies between them and the caller.
//!
//! Around it stand the rules of the bot's other commands: programs written
//! as hexadecimal text ([`hex`]), the answers and reactions of the chat
//! commands ([`chat`]) and the inverted profile picture ([`avatar`]).

pub mod avatar;
pub mod bus;
pub mod chat;
pub mod disasm;
pub mod driver;
pub mod export;
pub mod frame;
pub mod hex;
pub mod memory;
pub mod ports;
pub mod text;
