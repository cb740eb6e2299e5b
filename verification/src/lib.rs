//! The core of a language server that asks a code-suggestion provider for
//! completions.
//!
//! The server keeps the text of every document that the editor has open,
//! maps the cursor of a completion trigger to an offset in that text, says
//! what to send to the provider, and turns whatever comes back into the
//! suggestions that the editor shows. Everything here is plain computation:
//! sending and receiving is left to the caller.

pub mod configs;
pub mod lsp;
pub mod protocol;
pub mod providers;
pub mod server;
pub mod state;
pub mod text;
