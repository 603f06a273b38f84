use vstd::prelude::*;

verus! {

/// Name of the metadata file that marks a folder as a trait document.
pub const MARKER_FILE: &'static str = "trait.json";

/// The path separator used when joining a directory with the marker file.
pub const SEPARATOR: char = '/';

/// True when `path` already ends in a separator (or is empty), so that a
/// file name can be appended directly.
pub open spec fn ends_with_separator(path: Seq<char>) -> bool {
    path.len() == 0 || path.last() == SEPARATOR
}

/// `dir` joined with the marker file name.
pub open spec fn marker_in(dir: Seq<char>) -> Seq<char> {
    if ends_with_separator(dir) {
        dir + MARKER_FILE@
    } else {
        dir.push(SEPARATOR) + MARKER_FILE@
    }
}

/// The canonical metadata-file location for a document opened at `path`.
pub open spec fn canonical_path_of(path: Seq<char>, is_dir: bool) -> Seq<char> {
    if is_dir {
        marker_in(path)
    } else {
        path
    }
}

/// Resolves the metadata file to open or save for a document given by
/// `path`: a directory resolves to the marker file inside it, anything else
/// is taken to name the metadata file already. Nothing is checked on disk.
pub fn resolve(path: &String, is_dir: bool) -> (r: String)
    ensures
        r@ == canonical_path_of(path@, is_dir),
{
    if !is_dir {
        return path.clone();
    }
    proof {
        reveal_strlit("/");
        assert(path@.push(SEPARATOR) =~= path@ + "/"@);
    }
    let mut joined = path.clone();
    let n = path.as_str().unicode_len();
    if n > 0 && path.as_str().get_char(n - 1) != SEPARATOR {
        joined.append("/");
    }
    joined.append(MARKER_FILE);
    joined
}

} // verus!
