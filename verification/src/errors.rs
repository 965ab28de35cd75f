use vstd::prelude::*;

verus! {

/// Everything that can go wrong in one run of the tool.
///
/// The first five variants are decided by this crate's functions; the last
/// three name the failing filesystem and subprocess outcomes that end a run
/// at the tool's I/O boundary.
#[derive(Clone, Copy, Debug, PartialEq, Eq, Structural)]
pub enum PatchError {
    /// The input path does not exist, so no ancestry walk was attempted.
    PathNotFound,
    /// The ancestry walk reached the filesystem root without finding a
    /// directory that is both `.app`-named and a valid bundle.
    NoBundleFound,
    /// The input is neither inside a bundle nor a Mach-O executable.
    NoBundleOrExecutableFound,
    /// The requested output path exists and overwriting was not forced.
    OutputAlreadyExists,
    /// No output path was given and in-place patching was not requested.
    MissingOutputPath,
    /// The external signing tool exited with a failure.
    SigningError,
    /// A file or directory copy failed.
    CopyError,
    /// Captured signer output was not valid text.
    EncodingError,
}

} // verus!
