//! A verified per-shop product-extraction engine for a marketplace
//! storefront scraper.
//!
//! The engine drives a headless-browser session it never owns: all control
//! flow — the one-time language handshake, per-shop navigation, lazy-load
//! triggering, per-card field extraction with per-field failure accounting,
//! URL canonicalization and page-number discovery — lives here as verified
//! code, stated against small trusted boundaries to the HTML and URL
//! parsers.  The session itself is reached only through the command/event
//! protocol of [`engine::Engine`], whose caller performs the browser I/O.

pub mod engine;
pub mod extract;
pub mod html;
pub mod pagination;
pub mod selectors;
pub mod shop_list;
pub mod urls;
