use vstd::prelude::*;
use vstd::string::*;
use crate::error::PathError;
use crate::text::{replace_char, replace_char_with, skip_leading, trim_start_char};

verus! {

/// The characters of `s` at `i` and `i + 1` are both separators.
pub open spec fn separators_at(s: Seq<char>, i: int) -> bool {
    s[i] == '/' && s[i + 1] == '/'
}

/// Some two separators of `s` follow each other.
pub open spec fn has_consecutive_separators(s: Seq<char>) -> bool {
    exists|i: int| 0 <= i < s.len() - 1 && #[trigger] separators_at(s, i)
}

/// Some character of `s` after the first is a separator: the path names a
/// directory before its file name.
pub open spec fn has_inner_separator(s: Seq<char>) -> bool {
    exists|i: int| 0 < i < s.len() && s[i] == '/'
}

/// Why a relative path given to a file-creating operation is refused, if it
/// is: it is empty, ends with a separator, holds two separators in a row, or,
/// where a subdirectory is required, names none.
pub open spec fn relative_path_error(p: Seq<char>, require_subdir: bool) -> Option<PathError> {
    if p.len() == 0 {
        Some(PathError::Empty)
    } else if p.last() == '/' {
        Some(PathError::DoesNotContainFileName)
    } else if has_consecutive_separators(p) {
        Some(PathError::ConsecutiveSeparator)
    } else if require_subdir && !has_inner_separator(p) {
        Some(PathError::DoesNotContainSubDir)
    } else {
        None
    }
}

/// Checks a relative path, as given, before it is sent to the storage peer.
///
/// `require_subdir` is set by operations that place the file in a
/// subdirectory of their own choosing, which the path must then name.
pub fn check_relative_path(path: &str, require_subdir: bool) -> (r: Result<(), PathError>)
    ensures
        match relative_path_error(path@, require_subdir) {
            Some(e) => r == Err::<(), PathError>(e),
            None => r is Ok,
        },
{
    let n = path.unicode_len();
    if n == 0 {
        return Err(PathError::Empty);
    }
    if path.get_char(n - 1) == '/' {
        return Err(PathError::DoesNotContainFileName);
    }
    let mut seen_inner = false;
    let mut i: usize = 0;
    while i < n
        invariant
            n == path@.len(),
            n > 0,
            path@[n - 1] != '/',
            i <= n,
            forall|j: int| 0 <= j < i - 1 ==> !#[trigger] separators_at(path@, j),
            seen_inner == (exists|j: int| 0 < j < i && path@[j] == '/'),
        decreases n - i,
    {
        if path.get_char(i) == '/' {
            if i > 0 && path.get_char(i - 1) == '/' {
                assert(separators_at(path@, i - 1));
                return Err(PathError::ConsecutiveSeparator);
            }
            if i > 0 {
                seen_inner = true;
            }
        }
        i = i + 1;
    }
    if require_subdir && !seen_inner {
        return Err(PathError::DoesNotContainSubDir);
    }
    Ok(())
}

/// `s` without leading separators, as a private-storage path is joined to
/// its base directory.
pub fn trim_leading_separators(s: &str) -> (r: &str)
    ensures
        r@ == skip_leading(s@, '/'),
{
    trim_start_char(s, '/')
}

/// The path, relative to the volume, of a file in a shared directory.
pub open spec fn public_dir_path(dir_name: Seq<char>, relative: Seq<char>) -> Seq<char> {
    dir_name + "/"@ + skip_leading(relative, '/')
}

/// The path, relative to the volume, of a file in the shared directory named
/// `dir_name`.
pub fn public_dir_relative_path(dir_name: &str, relative: &str) -> (r: String)
    ensures
        r@ == public_dir_path(dir_name@, relative@),
{
    let mut out = String::from_str(dir_name);
    out.append("/");
    out.append(trim_start_char(relative, '/'));
    out
}

/// The name of the app's own subdirectory: the product name, or the
/// identifier where there is none, with separators turned into spaces.
pub open spec fn app_dir_name(product_name: Seq<char>, identifier: Seq<char>) -> Seq<char> {
    replace_char(if product_name.len() == 0 { identifier } else { product_name }, '/', " "@)
}

/// The path, below a shared directory, of a file in the app's own subdirectory.
pub open spec fn app_dir_path(product_name: Seq<char>, identifier: Seq<char>, relative: Seq<char>) -> Seq<char> {
    app_dir_name(product_name, identifier) + "/"@ + skip_leading(relative, '/')
}

/// The path, below a shared directory, of a file in the app's own subdirectory.
pub fn app_dir_relative_path(product_name: &str, identifier: &str, relative: &str) -> (r: String)
    ensures
        r@ == app_dir_path(product_name@, identifier@, relative@),
{
    let name = if product_name.unicode_len() == 0 {
        identifier
    } else {
        product_name
    };
    let mut out = replace_char_with(name, '/', " ");
    out.append("/");
    out.append(trim_start_char(relative, '/'));
    out
}

} // verus!
