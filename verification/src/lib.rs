//! A tiny image site: one page that shows a picture picked at random, a
//! JSON listing of the pictures, a health probe, the site's own source as
//! an archive, and a themed picture for whatever is not there.
//!
//! The library decides; it reads no file and opens no socket. A program
//! around it reads the image directory, hands each request over as plain
//! values and sends what comes back.
//!
//! - [`gallery`] builds the image index from directory entries.
//! - [`site`] holds what is fixed once the site runs.
//! - [`template`] renders the page; [`text`] does the replacing.
//! - [`query`] and [`reply`] are what comes in and what goes out.
//! - [`handlers`] answers each kind of request; [`routes`] picks the
//!   handler.

pub mod gallery;
pub mod handlers;
pub mod query;
pub mod reply;
pub mod routes;
pub mod site;
pub mod template;
pub mod text;
