use vstd::prelude::*;
use crate::errors::DecodeError;

verus! {

/// An encoding name the converter may be called with.  An interior NUL
/// byte is excluded because the converter builds a C string from the name
/// and would panic on it.  The empty name, `char` and `wchar_t` are
/// excluded because the C library resolves them against the current
/// locale, so their outcome is not a function of the arguments.
pub open spec fn encoding_name_ok(enc: Seq<char>) -> bool {
    &&& enc.len() > 0
    &&& !enc.contains('\0')
    &&& enc != "char"@
    &&& enc != "wchar_t"@
}

/// What the character-set converter yields for `bytes` read under the
/// encoding named `enc`: the UTF-8 text when the bytes convert, `None` when
/// they do not.  For the admitted encoding names the outcome depends on the
/// bytes and the name alone; the model fixes one machine's iconv
/// implementation.
pub uninterp spec fn decode_of(bytes: Seq<u8>, enc: Seq<char>) -> Option<Seq<char>>;

/// Relies on iconv::decode: converts `bytes` from the encoding named `enc`
/// to UTF-8.  For the admitted names the result is a function of the two
/// arguments alone; the converter's failure modes are carried over one
/// variant each.
#[verifier::external_body]
pub(crate) fn decode_name(bytes: &Vec<u8>, enc: &str) -> (r: Result<String, DecodeError>)
    requires
        encoding_name_ok(enc@),
    ensures
        r is Ok <==> decode_of(bytes@, enc@) is Some,
        r is Ok ==> r->Ok_0@ == decode_of(bytes@, enc@)->Some_0,
{
    match iconv::decode(bytes.as_slice(), enc) {
        Ok(s) => Ok(s),
        Err(iconv::IconvError::ConversionNotSupport) => Err(DecodeError::UnsupportedEncoding),
        Err(iconv::IconvError::OsError(code)) => Err(DecodeError::Os(code)),
        Err(iconv::IconvError::IncompleteInput) => Err(DecodeError::IncompleteInput),
        Err(iconv::IconvError::InvalidInput) => Err(DecodeError::InvalidInput),
        Err(iconv::IconvError::NotSufficientOutput) => Err(DecodeError::OutputOverflow),
    }
}

} // verus!
