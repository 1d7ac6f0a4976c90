//! Verified core of the Wikidata phoneme editor: identifiers of Wikidata
//! entities, the text that the editor sends to and reads from the Wikidata
//! services, and the decisions that its request handlers make.

pub mod text;
pub mod wikidata;
pub mod api;
pub mod error;
pub mod auth;
pub mod languages;
pub mod phonemes;
pub mod status;
pub mod activity;
pub mod app;
