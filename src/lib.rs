//! Core logic of a launcher bar over a shell-history search tool: the
//! settings record and its text file, the search tool's argument list and
//! the reading of its output, and the popup window's visibility rules.
use vstd::prelude::*;

pub mod config;
pub mod history;
pub mod search;
pub mod text;
pub mod toml_table;
pub mod window;

pub use config::Config;
pub use search::SearchFilters;

verus! {

/// The greeting for `name`.
pub open spec fn greeting(name: Seq<char>) -> Seq<char> {
    "Hello, "@ + name + "! You've been greeted from Rust!"@
}

/// Greets `name`.
pub fn greet(name: &str) -> (r: String)
    ensures
        r@ == greeting(name@),
{
    String::from_str("Hello, ").concat(name).concat("! You've been greeted from Rust!")
}

} // verus!
