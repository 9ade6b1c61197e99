//! On-demand image transformation core: a fixed-order transform pipeline
//! (crop, resize, blur) over decoded images, a deterministic parameter hash
//! for requests, and a content-addressed result cache.

pub mod cache;
pub mod errors;
pub mod filter;
pub mod hashing;
pub mod imgops;
pub mod options;
pub mod params;
pub mod paths;
pub mod pipeline;
pub mod request;
pub mod resolve;
