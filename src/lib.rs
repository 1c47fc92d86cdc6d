//! Core of a multi-provider chat client: protocol resolution for configured
//! providers, the requests and replies of each wire protocol, the
//! statements behind the relational store with its cascading deletes, and the
//! decisions that tie a stored provider to a chat exchange.

pub mod text;
pub mod json;
pub mod ids;
pub mod time;
pub mod resolver;
pub mod ai;
pub mod openai;
pub mod gemini;
pub mod schema;
pub mod db;
pub mod tables;
pub mod credentials;
pub mod commands;
