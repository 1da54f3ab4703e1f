//! The error taxonomy of the core.

use vstd::prelude::*;

verus! {

/// Why a directory could not be turned into a mod descriptor.
#[derive(Debug, PartialEq, Eq)]
pub enum ParseError {
    /// `mod.json` was missing or unreadable.
    ManifestReadError,
    /// `mod.json` was not JSON, or did not match the expected schema.
    ManifestParseError,
}

/// Why an archive could not be expanded.
#[derive(Debug, PartialEq, Eq)]
pub enum ArchiveError {
    /// The given path is not an existing regular file.
    InvalidInput,
    /// The file's extension is neither `.zip` nor `.7z`.
    UnsupportedFormat,
    /// The archive, or one of its entries, could not be extracted.
    Extraction { path: String },
}

/// Why the catalog could not be refreshed at all.
#[derive(Debug, PartialEq, Eq)]
pub enum CatalogError {
    /// The source directory could not be listed.
    DirectoryUnavailable,
}

/// Why deployment failed.
#[derive(Debug, PartialEq, Eq)]
pub enum DeployError {
    /// The game directory lacks the expected marker subdirectory.
    InvalidDestination,
    /// An enabled complete mod has no compiled-asset file under its directory.
    NoAssetFound { path: String },
    /// A planned copy could not be carried out (reported by the executor of
    /// the plan; the planner itself never produces it).
    CopyFailed { path: String },
}

/// `ArchiveError`, over characters.
pub enum ArchiveErrorV {
    InvalidInput,
    UnsupportedFormat,
    Extraction { path: Seq<char> },
}

impl View for ArchiveError {
    type V = ArchiveErrorV;

    open spec fn view(&self) -> ArchiveErrorV {
        match *self {
            ArchiveError::InvalidInput => ArchiveErrorV::InvalidInput,
            ArchiveError::UnsupportedFormat => ArchiveErrorV::UnsupportedFormat,
            ArchiveError::Extraction { path } => ArchiveErrorV::Extraction { path: path@ },
        }
    }
}

/// `DeployError`, over characters.
pub enum DeployErrorV {
    InvalidDestination,
    NoAssetFound { path: Seq<char> },
    CopyFailed { path: Seq<char> },
}

impl View for DeployError {
    type V = DeployErrorV;

    open spec fn view(&self) -> DeployErrorV {
        match *self {
            DeployError::InvalidDestination => DeployErrorV::InvalidDestination,
            DeployError::NoAssetFound { path } => DeployErrorV::NoAssetFound { path: path@ },
            DeployError::CopyFailed { path } => DeployErrorV::CopyFailed { path: path@ },
        }
    }
}

} // verus!
