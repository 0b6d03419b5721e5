//! Client-side rules of the Idalon leaderboard API: the filters of a listing
//! and their page cursor, the pagination engine, the reading of a response,
//! and the errors these report.
//!
//! The library sends nothing itself. A caller asks the
//! [`Paginator`](models::paginator::Paginator) what to do next, sends the
//! request it is told to send, and hands back what came of it:
//!
//! - [`poll_next`](models::paginator::Paginator::poll_next) gives the
//!   filters to send, which are those of the page that the paginator is
//!   on, or says to wait, or that the listing is through.
//! - [`on_sent`](models::fetch::on_sent) judges the status code, and
//!   [`on_decoded`](models::fetch::on_decoded) what decoding the body gave.
//! - [`on_response`](models::paginator::Paginator::on_response) takes the
//!   result in and gives the page to hand on, if there is one.
//!
//! Every function states what it returns; the laws of the engine are proved
//! in [`models::paginator`].

pub mod error;
pub mod models;
pub mod stats;
