//! Verified core of the ad-buying campaign services: query-string handling,
//! CouchDB document and address construction, error-to-response mapping,
//! the campaign server's click handling (campaign cache, click identities,
//! follow-up clicks, visit synchronisation), the campaign matrix editor's
//! tree operations and layout decisions, and the browser client's PouchDB
//! handles and the reading of PouchDB's answers.

pub mod auth;
pub mod builder_view;
pub mod campaign_cache;
pub mod campaign_api;
pub mod couch;
pub mod database;
pub mod decimal;
pub mod errors;
pub mod identity;
pub mod matrix;
pub mod params;
pub mod pouch;
pub mod pouch_rows;
pub mod signup;
pub mod text;
pub mod visits;
