//! Errors of the domain layer.

use vstd::prelude::*;

verus! {

/// What a domain operation can refuse, as seen by its caller.
#[derive(Debug)]
pub enum CoreError {
    /// The resource does not exist, or the caller may not see it: the two are
    /// answered alike so that a caller cannot probe for what exists.
    NotFound(String),
    /// The caller asked for something the domain refuses: an unknown
    /// permission level, a directory moved inside itself, a share granted to
    /// oneself.
    InvalidRequest(String),
    /// An AES-GCM operation failed. The message stays deliberately vague: a
    /// caller must not learn whether it was the key, the nonce or the tag.
    Encryption,
    /// Gzip could not encode a payload, or a stored payload is not a valid
    /// gzip stream.
    Compression,
}

/// The mathematical content of a [`CoreError`]: its variant and its message.
pub enum ErrorView {
    NotFound(Seq<char>),
    InvalidRequest(Seq<char>),
    Encryption,
    Compression,
}

impl View for CoreError {
    type V = ErrorView;

    open spec fn view(&self) -> ErrorView {
        match self {
            CoreError::NotFound(m) => ErrorView::NotFound(m@),
            CoreError::InvalidRequest(m) => ErrorView::InvalidRequest(m@),
            CoreError::Encryption => ErrorView::Encryption,
            CoreError::Compression => ErrorView::Compression,
        }
    }
}

/// The view of a result whose error is a [`CoreError`] and whose success
/// value is taken as it is.
pub open spec fn outcome<T>(r: Result<T, CoreError>) -> Result<T, ErrorView> {
    match r {
        Ok(v) => Ok(v),
        Err(e) => Err(e@),
    }
}

/// The view of a result whose success value is a string.
pub open spec fn text_outcome(r: Result<String, CoreError>) -> Result<Seq<char>, ErrorView> {
    match r {
        Ok(v) => Ok(v@),
        Err(e) => Err(e@),
    }
}

} // verus!
