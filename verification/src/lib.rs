//! Runtime core for instantiating compiled hardware models: port typing,
//! build-cache decisions, glue-source generation and the bookkeeping of
//! loaded libraries and live model instances.

pub mod build_laws;
pub mod build_library;
pub mod build_world;
pub mod config;
pub mod dpi;
pub mod dynamic;
pub mod error;
pub mod freshness;
pub mod glue;
pub mod ledger;
pub mod model;
pub mod model_laws;
pub mod native;
pub mod paths;
pub mod port;
pub mod progress;
pub mod runtime;
pub mod runtime_laws;
pub mod signature;
pub mod signature_laws;
pub mod symbols;
pub mod text;
pub mod types;
pub mod vcd;
