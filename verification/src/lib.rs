//! Verified core of the Metaplex token-metadata program and the token-fuser program.

pub mod account;
pub mod burn_ix;
pub mod checks;
pub mod codec;
pub mod collection_ix;
pub mod cpi;
pub mod create_ix;
pub mod decode;
pub mod edition_ix;
pub mod encode;
pub mod error;
pub mod fuser;
pub mod handler_laws;
pub mod ids;
pub mod instruction;
pub mod laws;
pub mod metadata_ix;
pub mod outcome_laws;
pub mod outside;
pub mod pubkey;
pub mod records;
pub mod rules;
pub mod runtime;
pub mod state;
pub mod use_ix;
