//! Enrichment of a catalog of item records: canonical names are read off a
//! reference page, identifiers off a remote catalog's answer, and a state
//! machine decides what a driver has to fetch next.

pub mod fetcher;
pub mod html;
pub mod json;
pub mod laws;
pub mod outcome;
pub mod pipeline;
pub mod record;
pub mod resolver;
pub mod text;
