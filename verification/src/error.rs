use vstd::prelude::*;

verus! {

/// The error taxonomy shared by every entry point of this crate.
#[derive(Debug, Clone, PartialEq, Eq)]
pub enum Error {
    /// The codec for the requested or detected format is not enabled.
    FeatureDisabled,
    /// The stream holds fewer bytes than the classification window needs.
    FileTooShort,
    /// The underlying codec reported a failure while reading or
    /// writing; the string carries the cause as the codec worded it.
    IOError(String),
}

impl Error {
    /// A short description of the error, one per variant. The cause
    /// an `IOError` carries is in the variant itself.
    pub fn message(&self) -> (r: &'static str)
        ensures
            self is FeatureDisabled ==> r@ == "Feature disabled, enabled it during compilation"@,
            self is FileTooShort ==> r@ == "File is too short, less than five bytes"@,
            self is IOError ==> r@ == "I/O error"@,
    {
        match self {
            Error::FeatureDisabled => "Feature disabled, enabled it during compilation",
            Error::FileTooShort => "File is too short, less than five bytes",
            Error::IOError(_) => "I/O error",
        }
    }
}

} // verus!
