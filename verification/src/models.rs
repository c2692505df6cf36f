//! Data-transfer shapes of the wire contract, one module per resource
//! family, with their verified decoders and encoders.

pub mod common;
pub mod donate;
pub mod feed;
pub mod invoice;
pub mod product;
pub mod report;
pub mod subscription;
pub mod webhook;
