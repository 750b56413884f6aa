//! File-name utilities: deriving the output artifact's name from the
//! input name, and mapping an input name to its MIME type.

use vstd::prelude::*;

use crate::errors::ClientError;
use crate::strutil::{spec_ends_with, str_ends_with, str_eq};

verus! {

/// The index just past the stem of file name `f`, scanning down from `i`:
/// the largest dot position at index 1 or above, or `f.len()` when there
/// is none (a leading dot alone marks a hidden file, not an extension).
pub open spec fn spec_stem_end_from(f: Seq<char>, i: int) -> int
    decreases i,
{
    if i <= 0 {
        f.len() as int
    } else if f[i] == '.' {
        i
    } else {
        spec_stem_end_from(f, i - 1)
    }
}

/// The stem of file name `f`: everything before the final extension, the
/// whole name when there is no extension.
pub open spec fn spec_stem(f: Seq<char>) -> Seq<char> {
    f.subrange(0, spec_stem_end_from(f, f.len() - 1))
}

/// File names from which no output name is derived: empty, or a bare
/// current/parent-directory name.
pub open spec fn spec_unusable_name(f: Seq<char>) -> bool {
    f =~= Seq::<char>::empty() || f =~= "."@ || f =~= ".."@
}

/// Derives the output artifact's name: the input name with its final
/// extension stripped and `.pdf` appended.  Fails exactly on the unusable
/// names.
pub fn generate_output_path(input_file_name: &str) -> (r: Result<String, ClientError>)
    ensures
        spec_unusable_name(input_file_name@) <==> r is Err,
        r matches Err(e) ==> e matches ClientError::InputError { detail } && detail@
            == "Invalid file name"@,
        r matches Ok(name) ==> name@ == spec_stem(input_file_name@) + ".pdf"@,
{
    proof {
        reveal_strlit(".");
        reveal_strlit("..");
    }
    let n = input_file_name.unicode_len();
    if n == 0 || str_eq(input_file_name, ".") || str_eq(input_file_name, "..") {
        return Err(ClientError::InputError { detail: "Invalid file name".to_owned() });
    }
    proof {
        assert(!spec_unusable_name(input_file_name@));
    }
    let mut i = n - 1;
    while i >= 1 && input_file_name.get_char(i) != '.'
        invariant
            0 <= i <= n - 1,
            n == input_file_name@.len(),
            n >= 1,
            spec_stem_end_from(input_file_name@, n - 1) == spec_stem_end_from(
                input_file_name@,
                i as int,
            ),
        decreases i,
    {
        i -= 1;
    }
    let end = if i >= 1 {
        i
    } else {
        n
    };
    proof {
        assert(end == spec_stem_end_from(input_file_name@, n - 1));
    }
    let stem = input_file_name.substring_char(0, end);
    let mut out = stem.to_owned();
    out.append(".pdf");
    proof {
        assert(out@ =~= spec_stem(input_file_name@) + ".pdf"@);
    }
    Ok(out)
}

/// The MIME type sent for input file `f`: `.tex` and `.zip` are the
/// recognized extensions; everything else is rejected before any network
/// call.
pub open spec fn spec_mime_type(f: Seq<char>) -> Option<Seq<char>> {
    if spec_ends_with(f, ".tex"@) {
        Some("text/x-tex"@)
    } else if spec_ends_with(f, ".zip"@) {
        Some("application/zip"@)
    } else {
        None
    }
}

/// Maps an input file name to the MIME type used for its upload, or
/// rejects it as an unsupported file type.
pub fn mime_type_from_filename(filename: &str) -> (r: Result<&'static str, ClientError>)
    ensures
        r matches Ok(m) ==> spec_mime_type(filename@) == Some(m@),
        r is Err <==> spec_mime_type(filename@) is None,
        r matches Err(e) ==> e is UnsupportedFileType,
{
    if str_ends_with(filename, ".tex") {
        Ok("text/x-tex")
    } else if str_ends_with(filename, ".zip") {
        Ok("application/zip")
    } else {
        Err(ClientError::UnsupportedFileType)
    }
}

} // verus!
