//! Capability-scoped access to Android's storage access framework: the rules
//! that decide which operations a file handle allows, how grants are acquired,
//! persisted and released, how picker results are interpreted, and how a write
//! is staged through a private temporary file when a provider cannot be
//! trusted to flush descriptor writes.
//!
//! The native storage peer itself is outside this crate: callers perform the
//! requests that the functions here decide on, and hand back what came of
//! them.

pub mod access;
pub mod error;
pub mod listing;
pub mod location;
pub mod models;
pub mod path;
pub mod permission;
pub mod picker;
pub mod public_dir;
pub mod staged;
pub mod text;
pub mod thumbnail;

pub use access::plan_create_in_public_dir;
pub use error::{Error, PathError, Result};
pub use listing::{entries_from_rows, entry_from_row, DirEntryRow};
pub use location::{InitialLocation, TOP_PUBLIC_DIR_URI};
pub use models::{
    Entry, FileAccessMode, FileUri, FileUriView, PersistableAccessMode, PersistedUriPermission, PrivateDir, Size,
    Timestamp, VisualMediaTarget, LOCAL_SCHEME,
};
pub use path::{app_dir_relative_path, check_relative_path, public_dir_relative_path, trim_leading_separators};
pub use permission::{Capabilities, Capability, Grant, GrantRecord, GrantSubject, PermissionRegistry};
pub use picker::PickerKind;
pub use public_dir::{PublicAudioDir, PublicDir, PublicGeneralPurposeDir, PublicImageDir, PublicVideoDir};
pub use staged::{
    need_write_via_kotlin, staged_temp_relative_path, STAGED_TEMP_DIR, StagedState, StagedStep, StagedWrite, WriteStrategy, STAGED_WRITE_PREFIX};
pub use thumbnail::{ThumbnailFetch, ThumbnailState, ThumbnailStep};
