//! The values that an import hands back, and the errors it can end in.

use vstd::prelude::*;
use vstd::string::*;

verus! {

/// One imported book: where its copy lies and what is known of it.
#[derive(Clone, Debug, PartialEq, Eq)]
pub struct BookImportResult {
    pub id: String,
    pub file_name: String,
    pub file_path: String,
    pub file_hash: String,
    pub file_size: u64,
    pub mtime: i64,
    pub format: String,
    pub added_at: i64,
}

/// What hashing and probing a source file found.
#[derive(Clone, Debug, PartialEq, Eq)]
pub struct FileHashResult {
    pub file_name: String,
    pub file_hash: String,
    pub file_size: u64,
    pub mtime: i64,
    pub format: String,
}

/// A file that arrives in memory: its name and its content in base64.
#[derive(Clone, Debug, PartialEq, Eq)]
pub struct FilePayload {
    pub name: String,
    pub data_base64: String,
}

/// A `BookImportResult` as plain values.
pub struct BookImportView {
    pub id: Seq<char>,
    pub file_name: Seq<char>,
    pub file_path: Seq<char>,
    pub file_hash: Seq<char>,
    pub file_size: u64,
    pub mtime: i64,
    pub format: Seq<char>,
    pub added_at: i64,
}

/// A `FileHashResult` as plain values.
pub struct FileHashView {
    pub file_name: Seq<char>,
    pub file_hash: Seq<char>,
    pub file_size: u64,
    pub mtime: i64,
    pub format: Seq<char>,
}

impl View for BookImportResult {
    type V = BookImportView;

    open spec fn view(&self) -> BookImportView {
        BookImportView {
            id: self.id@,
            file_name: self.file_name@,
            file_path: self.file_path@,
            file_hash: self.file_hash@,
            file_size: self.file_size,
            mtime: self.mtime,
            format: self.format@,
            added_at: self.added_at,
        }
    }
}

impl View for FileHashResult {
    type V = FileHashView;

    open spec fn view(&self) -> FileHashView {
        FileHashView {
            file_name: self.file_name@,
            file_hash: self.file_hash@,
            file_size: self.file_size,
            mtime: self.mtime,
            format: self.format@,
        }
    }
}

impl FilePayload {
    /// A payload with the given name and base64 text.
    pub fn new(name: String, data_base64: String) -> (p: FilePayload)
        ensures
            p.name == name,
            p.data_base64 == data_base64,
    {
        FilePayload { name, data_base64 }
    }
}

/// The step of an import or a removal that the file system, the decoder or
/// the platform refused.
#[derive(Clone, Copy, Debug, PartialEq, Eq, Structural)]
pub enum Operation {
    OpenFile,
    ReadFile,
    ReadMetadata,
    CreateBookDir,
    OpenSource,
    CreateDestination,
    CopyFile,
    FlushDestination,
    DecodeData,
    WriteFile,
    ResolveDataDir,
    CreateLibraryDir,
    RemoveFile,
    RemoveDirectory,
}

/// Why an import or a removal failed.
#[derive(Clone, Debug, PartialEq, Eq)]
pub enum ImportError {
    /// The source path has no last component to take a file name from.
    InvalidFileName,
    /// `operation` failed; `detail` is what its error said.
    Failed { operation: Operation, detail: String },
}

impl Operation {
    /// The outcome of this step as the import reports it: its value, or the
    /// failure of this step with what its error said.
    pub fn outcome<T>(self, result: Result<T, String>) -> (r: Result<T, ImportError>)
        ensures
            match result {
                Ok(value) => r == Ok::<T, ImportError>(value),
                Err(detail) => r == Err::<T, ImportError>(
                    ImportError::Failed { operation: self, detail },
                ),
            },
    {
        match result {
            Ok(value) => Ok(value),
            Err(detail) => Err(ImportError::Failed { operation: self, detail }),
        }
    }

    /// The words that open the message of a failure of this step.
    pub open spec fn label(self) -> Seq<char> {
        match self {
            Operation::OpenFile => "Failed to open file"@,
            Operation::ReadFile => "Failed to read file"@,
            Operation::ReadMetadata => "Failed to read metadata"@,
            Operation::CreateBookDir => "Failed to create book dir"@,
            Operation::OpenSource => "Failed to open source file"@,
            Operation::CreateDestination => "Failed to create destination file"@,
            Operation::CopyFile => "Failed to copy file"@,
            Operation::FlushDestination => "Failed to flush destination file"@,
            Operation::DecodeData => "Failed to decode file data"@,
            Operation::WriteFile => "Failed to write file"@,
            Operation::ResolveDataDir => "Failed to resolve app data dir"@,
            Operation::CreateLibraryDir => "Failed to create library dir"@,
            Operation::RemoveFile => "Failed to remove file"@,
            Operation::RemoveDirectory => "Failed to remove directory"@,
        }
    }

    /// The words that open the message of a failure of this step.
    pub fn label_text(self) -> (text: &'static str)
        ensures
            text@ == self.label(),
    {
        match self {
            Operation::OpenFile => "Failed to open file",
            Operation::ReadFile => "Failed to read file",
            Operation::ReadMetadata => "Failed to read metadata",
            Operation::CreateBookDir => "Failed to create book dir",
            Operation::OpenSource => "Failed to open source file",
            Operation::CreateDestination => "Failed to create destination file",
            Operation::CopyFile => "Failed to copy file",
            Operation::FlushDestination => "Failed to flush destination file",
            Operation::DecodeData => "Failed to decode file data",
            Operation::WriteFile => "Failed to write file",
            Operation::ResolveDataDir => "Failed to resolve app data dir",
            Operation::CreateLibraryDir => "Failed to create library dir",
            Operation::RemoveFile => "Failed to remove file",
            Operation::RemoveDirectory => "Failed to remove directory",
        }
    }
}

impl ImportError {
    /// The message of this error: for a failed step its label, a colon, a
    /// space and the detail.
    pub open spec fn text(self) -> Seq<char> {
        match self {
            ImportError::InvalidFileName => "Invalid file name"@,
            ImportError::Failed { operation, detail } => operation.label() + ": "@ + detail@,
        }
    }

    /// The failure of `operation` with what its error said.
    pub fn failed(operation: Operation, detail: String) -> (e: ImportError)
        ensures
            e == (ImportError::Failed { operation, detail }),
    {
        ImportError::Failed { operation, detail }
    }

    /// The message of this error, as callers show it.
    pub fn message(&self) -> (m: String)
        ensures
            m@ == self.text(),
    {
        match self {
            ImportError::InvalidFileName => String::from_str("Invalid file name"),
            ImportError::Failed { operation, detail } => {
                let mut m = String::from_str(operation.label_text());
                m.append(": ");
                m.append(detail.as_str());
                m
            },
        }
    }
}

} // verus!
