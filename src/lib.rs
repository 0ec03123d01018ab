//! A client library for the DICT dictionary protocol: status codes, reply
//! lines, the packet decoder, command transactions and connection targets,
//! with the search bar and navigation state of a terminal browser.

pub mod text;
pub mod status;
pub mod entities;
pub mod reply;
pub mod tokenizer;
pub mod packet;
pub mod transaction;
pub mod url;
pub mod searchbar;
pub mod navigation;
