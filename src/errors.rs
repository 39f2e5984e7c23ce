use vstd::prelude::*;

verus! {

/// Why a resize or compression step failed.
#[derive(Debug, Clone, Copy, PartialEq, Eq, Structural)]
pub enum AlicErrorType {
    Unknown,
    FileTooLarge,
    FileNotFound,
    UnsupportedFileType,
    WontOverwrite,
    NotSmaller,
    ImageResizeError,
    InvalidHexColor,
}

/// An error of the resize stage: a kind and a human readable message.
#[derive(Debug, Clone)]
pub struct AlicError {
    pub error: String,
    pub error_type: AlicErrorType,
}

/// Why a whole compression run failed.
#[derive(Debug, Clone, Copy, PartialEq, Eq, Structural)]
pub enum CompressErrorType {
    Unknown,
    FileTooLarge,
    FileNotFound,
    UnsupportedFileType,
    WontOverwrite,
    NotSmaller,
    ImageResizeError,
    InvalidHexColor,
}

/// The terminal error of a compression run.
#[derive(Debug, Clone)]
pub struct CompressError {
    pub error: String,
    pub error_type: CompressErrorType,
}

/// The terminal result of a successful compression run.
#[derive(Debug, Clone)]
pub struct CompressResult {
    pub path: String,
    pub out_size: u32,
    pub out_path: String,
    pub result: String,
}

/// Where a file shown in the list stands.
#[derive(Debug, Clone, Copy, PartialEq, Eq, Structural)]
pub enum FileEntryStatus {
    Processing,
    Compressing,
    Complete,
    AlreadySmaller,
    Error,
}

/// A file handed to the pipeline, with what is known of it so far.
#[derive(Debug, Clone, PartialEq, Eq)]
pub struct FileEntry {
    pub path: String,
    pub file: Option<String>,
    pub status: FileEntryStatus,
    pub size: Option<u32>,
    pub original_size: Option<u32>,
    pub ext: Option<String>,
    pub savings: Option<u32>,
    pub error: Option<String>,
}

/// Size, extension and file name of a path, for display before processing.
#[derive(Debug, Clone, PartialEq, Eq)]
pub struct FileInfoResult {
    pub size: u32,
    pub extension: String,
    pub filename: String,
}

} // verus!
