use vstd::prelude::*;

verus! {

/// The last component of a path, as `std::path::Path::file_name` finds it.
pub uninterp spec fn file_name_of(path: Seq<char>) -> Option<Seq<char>>;

/// Relies on `std::path::Path::file_name`: the final component of the path,
/// or none when the path ends in `..` or is a root or empty. A name taken
/// from a `str` path is valid UTF-8, so `to_str` keeps it whole.
#[verifier::external_body]
fn path_file_name(path: &str) -> (r: Option<String>)
    ensures
        file_name_of(path@) == match r {
            Some(n) => Some(n@),
            None => None::<Seq<char>>,
        },
{
    std::path::Path::new(path).file_name().and_then(|n| n.to_str()).map(|n| n.to_string())
}

/// The title shown for a document: its file name, or `Untitled`, followed
/// by ` *` while there are unsaved changes.
pub open spec fn title_of(name: Option<Seq<char>>, dirty: bool) -> Seq<char> {
    let base = match name {
        Some(n) => n,
        None => "Untitled"@,
    };
    if dirty {
        base + " *"@
    } else {
        base
    }
}

/// The title for a document whose file name is `name` (none when untitled).
pub fn title_text(name: Option<String>, dirty: bool) -> (r: String)
    ensures
        r@ == title_of(
            match name {
                Some(n) => Some(n@),
                None => None,
            },
            dirty,
        ),
{
    let mut base = match name {
        Some(n) => n,
        None => "Untitled".to_owned(),
    };
    if dirty {
        base.append(" *");
    }
    base
}

/// The file name in a bound path, none when no path is bound.
pub open spec fn bound_file_name(bound_path: Option<Seq<char>>) -> Option<Seq<char>> {
    match bound_path {
        Some(p) => file_name_of(p),
        None => None,
    }
}

/// The title for a document bound to `bound_path`.
pub fn document_title(bound_path: &Option<String>, dirty: bool) -> (r: String)
    ensures
        r@ == title_of(
            bound_file_name(
                match bound_path {
                    Some(p) => Some(p@),
                    None => None,
                },
            ),
            dirty,
        ),
{
    let name = match bound_path {
        Some(p) => path_file_name(p.as_str()),
        None => None,
    };
    title_text(name, dirty)
}

} // verus!
