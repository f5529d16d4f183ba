//! A modal, vim-flavoured chat input: the key handling, the mode machine and
//! the message model of a terminal chat front end, with its contracts proved.

pub mod keys;
pub mod mode;
pub mod editor;
pub mod message;
pub mod app;
pub mod layout;
pub mod title;
pub mod laws;
pub mod text_laws;
