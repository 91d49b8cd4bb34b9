//! Scoreboard overlay server logic: the decisions, parsers and page
//! builders behind the HTTP handlers, with their contracts.

pub mod assets;
pub mod auth;
pub mod images;
pub mod json;
pub mod ocr;
pub mod pages;
pub mod teams;
pub mod text;
pub mod tokens;
pub mod updates;
