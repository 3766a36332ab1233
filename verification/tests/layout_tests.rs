use readwrite_flow::layout::{book_dir_path, library_dir_path, stored_file_name, stored_file_path};

#[test]
fn library_dir_is_library_under_the_data_dir() {
    assert_eq!(library_dir_path("/home/u/.local/share/app"), "/home/u/.local/share/app/library");
}

#[test]
fn library_dir_is_the_same_on_every_call() {
    assert_eq!(library_dir_path("/data"), library_dir_path("/data"));
}

#[test]
fn book_dir_is_the_identity_under_the_root() {
    assert_eq!(
        book_dir_path("/data/library", "123e4567-e89b-42d3-a456-426614174000"),
        "/data/library/123e4567-e89b-42d3-a456-426614174000"
    );
}

#[test]
fn stored_file_name_is_original_dot_format() {
    assert_eq!(stored_file_name("epub"), "original.epub");
    assert_eq!(stored_file_name("pdf"), "original.pdf");
    assert_eq!(stored_file_name(""), "original.");
}

#[test]
fn stored_file_path_is_root_identity_and_name() {
    assert_eq!(
        stored_file_path("/data/library", "123e4567-e89b-42d3-a456-426614174000", "epub"),
        "/data/library/123e4567-e89b-42d3-a456-426614174000/original.epub"
    );
}

#[test]
fn stored_file_paths_of_two_identities_differ() {
    let first = stored_file_path("/lib", "123e4567-e89b-42d3-a456-426614174000", "pdf");
    let second = stored_file_path("/lib", "123e4567-e89b-42d3-a456-426614174001", "pdf");
    assert_ne!(first, second);
}

#[test]
fn stored_file_name_keeps_the_format_of_the_source() {
    let names = ["book.EPUB", "README", ".hidden", "a.tar.GZ", "name.", "x.ÉPUB"];
    for name in names {
        let tag = readwrite_flow::format::infer_format(name);
        let stored = stored_file_name(&tag);
        assert_eq!(readwrite_flow::format::infer_format(&stored), tag);
    }
}
