use vstd::prelude::*;

verus! {

/// A file was added to the list.
#[derive(Debug, Clone)]
pub struct AddFileEvent(pub String);

/// A file that is not an image was dropped.
#[derive(Debug, Clone)]
pub struct BadFileEvent(pub String);

/// The list of files was cleared.
#[derive(Debug, Clone, Copy)]
pub struct ClearFilesEvent;

/// The stored settings changed.
#[derive(Debug, Clone, Copy)]
pub struct SettingsChangedEvent;

/// The user asked for the open-file dialog.
#[derive(Debug, Clone, Copy)]
pub struct OpenAddFileDialogEvent;

/// The outcome of an update check.
#[derive(Debug, Clone)]
pub struct UpdateResultsEvent {
    pub new_version: String,
    pub update_available: bool,
    pub download_url: String,
    pub error: Option<String>,
}

} // verus!
