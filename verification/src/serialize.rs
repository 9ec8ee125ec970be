use vstd::prelude::*;

verus! {

/// What `std::path::Path::with_extension` returns for a UTF-8 path and extension: the path with
/// the extension of its file name replaced by (or, where it has none, extended with) the given
/// one.
pub uninterp spec fn path_with_extension(path: Seq<char>, extension: Seq<char>) -> Seq<char>;

/// `Path::new(path).with_extension(extension)`, returned as a string. Its result is named
/// `path_with_extension`; std's documentation does not make it short enough to state here.
/// std panics when the extension holds a path separator, so callers pass none.
#[verifier::external_body]
fn with_extension(path: &str, extension: &str) -> (r: String)
    requires
        !extension@.contains('/'),
    ensures
        r@ == path_with_extension(path@, extension@),
{
    std::path::Path::new(path).with_extension(extension).to_string_lossy().into_owned()
}

/// The save state file for a ROM file: the ROM path with the extension `ss0`.
pub fn determine_save_state_path(gb_file_path: &str) -> (r: String)
    ensures
        r@ == path_with_extension(gb_file_path@, "ss0"@),
{
    proof {
        reveal_strlit("ss0");
        assert(!"ss0"@.contains('/')) by {
            assert forall|i: int| 0 <= i < "ss0"@.len() implies "ss0"@[i] != '/' by {}
        }
    }
    with_extension(gb_file_path, "ss0")
}

} // verus!
