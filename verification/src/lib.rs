//! Chunked, compressed array storage: byte ranges, stores, the Blosc container
//! and the partial decoders that serve sub-ranges of a chunk's decoded bytes.

pub mod blosc;
pub mod blosc_blocks;
pub mod blosc_partial_decoder;
pub mod blosc_stored;
pub mod byte_range;
pub mod codec;
pub mod codec_chain;
pub mod group;
pub mod group_builder;
pub mod group_metadata;
pub mod group_store;
pub mod json;
pub mod metadata;
pub mod node;
pub mod storage;
pub mod text;
