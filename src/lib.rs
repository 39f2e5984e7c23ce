pub mod codec;
pub mod compressor;
pub mod errors;
pub mod events;
pub mod format;
pub mod geometry;
pub mod paths;
pub mod pipeline;
pub mod resize;
pub mod settings;
