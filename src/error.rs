//! The failures that a resolution of the binary path can end in.
use vstd::prelude::*;
use vstd::string::StringExecFns;
use crate::platform::{Architecture, Os, os_name_spec, arch_name_spec};

verus! {

/// Why the binary path could not be resolved.
#[derive(Debug, PartialEq, Eq)]
pub enum InstallError {
    /// No artifact is built for this system and architecture.
    UnsupportedPlatform { os: Os, arch: Architecture },
    /// The release index gave no usable release.
    ReleaseLookup { reason: String },
    /// The latest release has no asset of the expected name.
    AssetNotFound { expected: String },
    /// The version directory could not be created.
    DirectoryCreate { path: String, reason: String },
    /// The asset could not be fetched.
    Download { url: String, reason: String },
    /// The unpacked archive does not hold the expected binary.
    Archive { path: String },
    /// The binary could not be marked executable.
    Permission { path: String, reason: String },
}

/// An [`InstallError`] with its text as mathematical sequences.
pub enum ErrorView {
    UnsupportedPlatform { os: Os, arch: Architecture },
    ReleaseLookup { reason: Seq<char> },
    AssetNotFound { expected: Seq<char> },
    DirectoryCreate { path: Seq<char>, reason: Seq<char> },
    Download { url: Seq<char>, reason: Seq<char> },
    Archive { path: Seq<char> },
    Permission { path: Seq<char>, reason: Seq<char> },
}

impl View for InstallError {
    type V = ErrorView;

    open spec fn view(&self) -> ErrorView {
        match self {
            InstallError::UnsupportedPlatform { os, arch } => ErrorView::UnsupportedPlatform {
                os: *os,
                arch: *arch,
            },
            InstallError::ReleaseLookup { reason } => ErrorView::ReleaseLookup { reason: reason@ },
            InstallError::AssetNotFound { expected } => ErrorView::AssetNotFound {
                expected: expected@,
            },
            InstallError::DirectoryCreate { path, reason } => ErrorView::DirectoryCreate {
                path: path@,
                reason: reason@,
            },
            InstallError::Download { url, reason } => ErrorView::Download {
                url: url@,
                reason: reason@,
            },
            InstallError::Archive { path } => ErrorView::Archive { path: path@ },
            InstallError::Permission { path, reason } => ErrorView::Permission {
                path: path@,
                reason: reason@,
            },
        }
    }
}

/// The text shown to users for an error.
pub open spec fn message_spec(e: ErrorView) -> Seq<char> {
    match e {
        ErrorView::UnsupportedPlatform { os, arch } => "unsupported platform: "@ + os_name_spec(os)
            + " "@ + arch_name_spec(arch),
        ErrorView::ReleaseLookup { reason } => "release lookup failure: "@ + reason,
        ErrorView::AssetNotFound { expected } => "no asset found matching "@ + expected,
        ErrorView::DirectoryCreate { path, reason } => "create directory failure: "@ + path
            + ": "@ + reason,
        ErrorView::Download { url, reason } => "file download failure: "@ + url + ": "@ + reason,
        ErrorView::Archive { path } => "archive does not contain "@ + path,
        ErrorView::Permission { path, reason } => "cannot make "@ + path + " executable: "@
            + reason,
    }
}

impl InstallError {
    /// The text shown to users for this error.
    pub fn message(&self) -> (r: String)
        ensures
            r@ == message_spec(self@),
    {
        match self {
            InstallError::UnsupportedPlatform { os, arch } => {
                String::from_str("unsupported platform: ").concat(os.name()).concat(" ").concat(
                    arch.name(),
                )
            },
            InstallError::ReleaseLookup { reason } => {
                String::from_str("release lookup failure: ").concat(reason.as_str())
            },
            InstallError::AssetNotFound { expected } => {
                String::from_str("no asset found matching ").concat(expected.as_str())
            },
            InstallError::DirectoryCreate { path, reason } => {
                String::from_str("create directory failure: ").concat(path.as_str()).concat(
                    ": ",
                ).concat(reason.as_str())
            },
            InstallError::Download { url, reason } => {
                String::from_str("file download failure: ").concat(url.as_str()).concat(
                    ": ",
                ).concat(reason.as_str())
            },
            InstallError::Archive { path } => {
                String::from_str("archive does not contain ").concat(path.as_str())
            },
            InstallError::Permission { path, reason } => {
                String::from_str("cannot make ").concat(path.as_str()).concat(
                    " executable: ",
                ).concat(reason.as_str())
            },
        }
    }
}

} // verus!
