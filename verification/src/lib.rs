//! Local book library: what an import decides and computes when a document
//! is copied into the library.
//!
//! - `digest`: SHA-256 fingerprints, in one pass or streamed.
//! - `format`: the format tag of a file name.
//! - `clock`: timestamps in milliseconds since the Unix epoch.
//! - `layout`: identities and the paths of stored files.
//! - `payload`: files that arrive as base64 text.
//! - `records`: import records and errors.
//! - `import`: the steps that draw up a record.
//! - `removal`: what removing a path amounts to.
//! - `schema`: the catalog's migrations.
//!
//! Reading and writing files is left to the caller.

pub mod clock;
pub mod digest;
pub mod format;
pub mod import;
pub mod layout;
pub mod payload;
pub mod records;
pub mod removal;
pub mod schema;
