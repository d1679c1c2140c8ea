//! The core of a desktop assistant's web tools, without any I/O.
//!
//! Its larger part scrapes web pages. Pages are normalised into uniform
//! records ([`content`], [`text`], [`url`]); a page comes either out of a
//! browser that has rendered it ([`render`]) or, where no browser can be
//! had, out of a plain fetch ([`static_fetch`]). The scrape of one URL is a
//! state machine ([`task`]) that retries with growing waits ([`retry`]); what
//! holds of it whatever happens is proved in [`runs`]. Many URLs are scraped
//! in groups of bounded size ([`batch`]), and [`browser`] says where a
//! browser may be found.
//!
//! The machine decides and its driver does the work: nothing here opens a
//! socket, starts a program or sleeps.
//!
//! The rest reads what other programs print ([`gpu`], [`fields`], [`search`]),
//! names the methods that are passed on to other servers ([`proxy`]), and
//! makes titles for chats ([`titles`]).

pub mod batch;
pub mod browser;
pub mod content;
pub mod fields;
pub mod gpu;
pub mod proxy;
pub mod render;
pub mod retry;
pub mod runs;
pub mod search;
pub mod static_fetch;
pub mod strings;
pub mod task;
pub mod text;
pub mod titles;
pub mod url;
