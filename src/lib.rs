pub mod download;
pub mod alignments;
pub mod transfer;
pub mod batch;
pub mod style;
