//! Core logic of the WhispHub command-line client: slugs, paths, request
//! outcomes, the login polling protocol and the push planning rules.

pub mod text;
pub mod slug;
pub mod paths;
pub mod project;
pub mod config;
pub mod api;
pub mod push;
pub mod login;
pub mod init;
pub mod archive;
