use vstd::prelude::*;

verus! {

/// The content type guessed for a file name.
pub uninterp spec fn mime_of(filename: Seq<char>) -> Seq<char>;

/// Relies on `mime_guess::from_path` and `MimeGuess::first_or_octet_stream`:
/// the type guessed from the name's extension, which depends on the name
/// alone; a name without any `.` has no extension, and gets
/// `application/octet-stream`.
#[verifier::external_body]
pub fn filename_to_mime(filename: String) -> (r: String)
    ensures
        r@ == mime_of(filename@),
        !filename@.contains('.') ==> r@ == "application/octet-stream"@,
{
    mime_guess::from_path(filename.as_str()).first_or_octet_stream().to_string()
}

} // verus!
