use vstd::prelude::*;

verus! {

/// Errors surfaced by the save-file model and by the shell around it.
///
/// Codec errors (`OutOfBounds`, `FormatError`) are always surfaced, never
/// recovered silently: they mean the buffer does not match the assumed
/// layout.  `ChecksumMismatch` is a soft signal: decoding still succeeds so
/// the editor stays usable on corrupt saves.
#[derive(Clone, Copy, Debug, PartialEq, Eq, Structural)]
pub enum Error {
    /// An offset/width pair reaches outside the save buffer.
    OutOfBounds,
    /// The loaded bytes do not have the save format's fixed length.
    FormatError,
    /// A record's stored checksum does not match its data region.
    ChecksumMismatch,
    /// An operation that needs a loaded save was called on an empty model.
    NoFileOpened,
    /// The shell's file dialog was closed without choosing a file.
    DialogClosed,
    /// Reading or writing the file failed in the shell.
    IO,
}

impl Error {
    /// A short description fit for showing to the user.
    pub fn describe(&self) -> (r: &'static str)
        ensures
            (*self is OutOfBounds) ==> r@ == "Offset is out of bounds of the save buffer"@,
            (*self is FormatError) ==> r@ == "The file is not a save file of the expected format"@,
            (*self is ChecksumMismatch) ==> r@ == "A record's checksum does not match its data"@,
            (*self is NoFileOpened) ==> r@
                == "No file has been opened, first open a file the you can save it"@,
            (*self is DialogClosed) ==> r@ == "File dialog closed"@,
            (*self is IO) ==> r@ == "IO Error"@,
    {
        match self {
            Error::OutOfBounds => "Offset is out of bounds of the save buffer",
            Error::FormatError => "The file is not a save file of the expected format",
            Error::ChecksumMismatch => "A record's checksum does not match its data",
            Error::NoFileOpened => "No file has been opened, first open a file the you can save it",
            Error::DialogClosed => "File dialog closed",
            Error::IO => "IO Error",
        }
    }
}

} // verus!
