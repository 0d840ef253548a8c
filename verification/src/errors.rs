use vstd::prelude::*;

verus! {

/// Why a stored name could not be converted to UTF-8.
///
/// The variants mirror the failure modes of the character-set converter:
/// the conversion pair may be unsupported, the operating system may refuse
/// the conversion, or the byte sequence itself may be incomplete or invalid
/// under the source encoding.
#[derive(Clone, Copy, Debug, PartialEq, Eq, Structural)]
pub enum DecodeError {
    UnsupportedEncoding,
    Os(i32),
    IncompleteInput,
    InvalidInput,
    OutputOverflow,
}

impl DecodeError {
    /// A fixed human-readable description of the failure.
    pub open spec fn message_spec(&self) -> Seq<char> {
        match self {
            DecodeError::UnsupportedEncoding => "the conversion is not supported"@,
            DecodeError::Os(_) => "operating system error during conversion"@,
            DecodeError::IncompleteInput => "incomplete byte sequence in the input"@,
            DecodeError::InvalidInput => "invalid byte sequence in the input"@,
            DecodeError::OutputOverflow => "no room in the conversion output"@,
        }
    }

    /// The description as an owned string, for reporting.
    pub fn message(&self) -> (r: String)
        ensures
            r@ == self.message_spec(),
    {
        match self {
            DecodeError::UnsupportedEncoding => "the conversion is not supported".to_owned(),
            DecodeError::Os(_) => "operating system error during conversion".to_owned(),
            DecodeError::IncompleteInput => "incomplete byte sequence in the input".to_owned(),
            DecodeError::InvalidInput => "invalid byte sequence in the input".to_owned(),
            DecodeError::OutputOverflow => "no room in the conversion output".to_owned(),
        }
    }
}

/// Why a whole-archive operation failed.
#[derive(Debug)]
pub enum ConvertError {
    /// The archive could not be read or the rewritten one could not be
    /// produced; `detail` carries the archive library's description.
    Archive { detail: String },
    /// Entry `index` holds a stored name `raw` that does not decode under
    /// the requested encoding.
    Decode { index: usize, raw: Vec<u8>, error: DecodeError },
}

} // verus!
