//! Questions about the source files that the editor opens.
use vstd::prelude::*;

use crate::locator::opt_text;
use crate::paths::{extension_of, file_name_of, has_no_slash};
use crate::text::{chars_of, lower, lower_char, occurs_at};

verus! {

/// `ext` is `tex`, letters compared without regard to case.
pub open spec fn is_tex_extension_spec(ext: Seq<char>) -> bool {
    ext.len() == 3 && lower(ext[0]) == 't' && lower(ext[1]) == 'e' && lower(ext[2]) == 'x'
}

/// Whether a path whose file extension (without its dot) is `ext` is a TeX
/// source: it has an extension, and that is `tex` in any case.
pub fn is_tex_extension(ext: Option<&str>) -> (r: bool)
    ensures
        r == match ext {
            Some(e) => is_tex_extension_spec(e@),
            None => false,
        },
{
    match ext {
        Some(e) => {
            let c = chars_of(e);
            c.len() == 3 && lower_char(c[0]) == 't' && lower_char(c[1]) == 'e' && lower_char(c[2])
                == 'x'
        },
        None => false,
    }
}

/// `path` holds `.tex`, letters in any case.
pub open spec fn holds_tex_extension(path: Seq<char>) -> bool {
    exists|i: int|
        0 <= i && i + 4 <= path.len() && #[trigger] path[i] == '.' && lower(path[i + 1]) == 't'
            && lower(path[i + 2]) == 'e' && lower(path[i + 3]) == 'x'
}

/// Whether `path` names a TeX source: its extension is `tex` in any case
/// (see `is_tex_extension`). A path that holds no `.tex` in any case is
/// never one.
pub fn is_tex_file(path: &str) -> (r: bool)
    ensures
        r ==> holds_tex_extension(path@),
{
    match extension_of(path) {
        Some(ext) => {
            let r = is_tex_extension(Some(ext.as_str()));
            proof {
                if r {
                    let i = choose|i: int| occurs_at(path@, seq!['.'] + ext@, i);
                    let w = path@.subrange(i, i + 4);
                    assert(w == seq!['.'] + ext@);
                    assert(w[0] == '.' && w[1] == ext@[0] && w[2] == ext@[1] && w[3] == ext@[2]);
                    assert(path@[i] == '.');
                }
            }
            r
        },
        None => is_tex_extension(None),
    }
}

/// The name shown for a file whose file name is `name`: that name, or
/// `Untitled` where there is none.
pub fn name_or_untitled(name: Option<String>) -> (r: String)
    ensures
        r@ == match opt_text(name) {
            Some(n) => n,
            None => "Untitled"@,
        },
{
    match name {
        Some(n) => n,
        None => "Untitled".to_owned(),
    }
}

/// The file name of `path`, or `Untitled` where it has none (see
/// `name_or_untitled`). Never empty; where it is not `Untitled` it holds no
/// `/`.
pub fn get_file_name(path: &str) -> (r: String)
    ensures
        r@.len() > 0,
        r@ == "Untitled"@ || has_no_slash(r@),
{
    proof {
        reveal_strlit("Untitled");
    }
    name_or_untitled(file_name_of(path))
}

} // verus!
