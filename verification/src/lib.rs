//! Core of a resumable, chunked binary-upload service.
//!
//! The crate holds the decisions of the service as verified code over plain
//! values: the status state machine, the mapping from upload ids to file
//! names, cursor pagination, an in-memory upload ledger, the request flows
//! (create, write chunk, finalize, hide) and the sweeper that reclaims
//! abandoned uploads. Database and file access are left to the caller, which
//! performs the actions that the flows ask for and hands back their results.
//!
//! Around that core stand the rules of the site that the uploads belong to:
//! who a request comes from and what they may do, which posts a reader gets
//! to see, what forms accept, and the tokens that guard against forged
//! requests.

pub mod auth;
pub mod breadcrumbs;
pub mod content_range;
pub mod csrf;
pub mod error;
pub mod form_extra_validation;
pub mod forms;
pub mod ledger;
pub mod page_stream;
pub mod pagination;
pub mod post;
pub mod status;
pub mod storage;
pub mod sweeper;
pub mod templates;
pub mod text;
pub mod upload;
pub mod user;
