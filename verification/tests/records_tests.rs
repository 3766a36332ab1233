use readwrite_flow::records::{FilePayload, ImportError, Operation};

#[test]
fn message_of_invalid_file_name() {
    assert_eq!(ImportError::InvalidFileName.message(), "Invalid file name");
}

#[test]
fn message_of_each_failed_operation() {
    let cases = [
        (Operation::OpenFile, "Failed to open file: x"),
        (Operation::ReadFile, "Failed to read file: x"),
        (Operation::ReadMetadata, "Failed to read metadata: x"),
        (Operation::CreateBookDir, "Failed to create book dir: x"),
        (Operation::OpenSource, "Failed to open source file: x"),
        (Operation::CreateDestination, "Failed to create destination file: x"),
        (Operation::CopyFile, "Failed to copy file: x"),
        (Operation::FlushDestination, "Failed to flush destination file: x"),
        (Operation::DecodeData, "Failed to decode file data: x"),
        (Operation::WriteFile, "Failed to write file: x"),
        (Operation::ResolveDataDir, "Failed to resolve app data dir: x"),
        (Operation::CreateLibraryDir, "Failed to create library dir: x"),
        (Operation::RemoveFile, "Failed to remove file: x"),
        (Operation::RemoveDirectory, "Failed to remove directory: x"),
    ];
    for (operation, expected) in cases {
        assert_eq!(ImportError::failed(operation, "x".to_string()).message(), expected);
    }
}

#[test]
fn message_keeps_the_detail_verbatim() {
    let e = ImportError::failed(Operation::OpenFile, "No such file: ü (os error 2)".to_string());
    assert_eq!(e.message(), "Failed to open file: No such file: ü (os error 2)");
    let empty = ImportError::failed(Operation::CopyFile, String::new());
    assert_eq!(empty.message(), "Failed to copy file: ");
}

#[test]
fn label_text_of_an_operation() {
    assert_eq!(Operation::CreateBookDir.label_text(), "Failed to create book dir");
}

#[test]
fn outcome_passes_a_value_through() {
    let r: Result<u64, ImportError> = Operation::ReadMetadata.outcome(Ok(12));
    assert_eq!(r, Ok(12));
}

#[test]
fn outcome_tags_an_error_with_its_operation() {
    let r: Result<u64, ImportError> = Operation::ReadMetadata.outcome(Err("gone".to_string()));
    assert_eq!(
        r,
        Err(ImportError::Failed { operation: Operation::ReadMetadata, detail: "gone".to_string() })
    );
}

#[test]
fn file_payload_new_keeps_both_texts() {
    let p = FilePayload::new("notes.txt".to_string(), "aGVsbG8=".to_string());
    assert_eq!(p.name, "notes.txt");
    assert_eq!(p.data_base64, "aGVsbG8=");
}
