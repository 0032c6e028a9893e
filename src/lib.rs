pub mod abi;
pub mod bundle;
pub mod decoder;
pub mod error;
pub mod eth;
pub mod ingest;
pub mod monitor;
pub mod opportunity;
pub mod paths;
pub mod routers;
pub mod simulation;
