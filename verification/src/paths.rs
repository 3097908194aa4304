//! File paths as texts.
use crate::text;
use vstd::prelude::*;

verus! {

/// The last component of a path.
pub open spec fn file_part(path: Seq<char>) -> Seq<char> {
    text::after_last(path, '/')
}

/// A path whose last component every platform takes for the same ordinary file
/// name. Two separators at the start may begin the name of a server or a device,
/// which is no file name.
pub open spec fn is_plain_path(path: Seq<char>) -> bool {
    &&& !(path.len() > 1 && path[0] == '/' && path[1] == '/')
    &&& !path.contains('\\')
    &&& !file_part(path).contains(':')
    &&& file_part(path).len() > 0
    &&& file_part(path) != seq!['.']
    &&& file_part(path) != seq!['.', '.']
}

/// A file name without its extension: what stands before the last dot, and all of
/// it where there is no dot but one at the start.
pub open spec fn stem(name: Seq<char>) -> Seq<char> {
    let extension = text::after_last(name, '.');
    if extension.len() + 1 < name.len() {
        name.take(name.len() - extension.len() - 1)
    } else {
        name
    }
}

/// A plain path whose extension can be replaced. With a stem of a single dot, as
/// in `..log`, the name without the extension would be that of a parent
/// directory.
pub open spec fn has_plain_stem(path: Seq<char>) -> bool {
    is_plain_path(path) && stem(file_part(path)) != seq!['.']
}

/// A path with the extension of its last component replaced, or added where it has none.
pub open spec fn replace_extension(path: Seq<char>, extension: Seq<char>) -> Seq<char> {
    path.take(path.len() - file_part(path).len()) + stem(file_part(path)) + seq!['.'] + extension
}

/// `std::path::Path::with_extension`: the extension of the last component is
/// replaced, or added where there is none. How a path falls into components
/// depends on the platform, so the result is stated for plain paths alone, and
/// not for those with a stem of a single dot.
#[verifier::external_body]
pub(crate) fn with_extension(path: &str, extension: &str) -> (r: String)
    requires
        extension@.len() > 0,
        !extension@.contains('/'),
        !extension@.contains('\\'),
    ensures
        has_plain_stem(path@) ==> r@ == replace_extension(path@, extension@),
{
    std::path::Path::new(path).with_extension(extension).to_string_lossy().into_owned()
}

/// A path that some platform takes for absolute: it starts with a separator, or
/// it names a drive or a device before a colon.
pub open spec fn may_be_absolute(path: Seq<char>) -> bool {
    &&& path.len() > 0
    &&& path[0] == '/' || path[0] == '\\' || path.contains(':')
}

/// `std::path::Path::is_absolute`. What counts as absolute depends on the
/// platform: a leading `/`, or a prefix such as a drive with a root after it.
/// Stated is only that a path without any of these is absolute nowhere.
#[verifier::external_body]
pub(crate) fn is_absolute(path: &str) -> (r: bool)
    ensures
        r ==> may_be_absolute(path@),
{
    std::path::Path::new(path).is_absolute()
}

/// What a directory is called, as far as every platform agrees: by its last
/// component where it is a plain path, and by nothing where it is the root.
pub open spec fn is_name_of(name: Option<Seq<char>>, path: Seq<char>) -> bool {
    &&& is_plain_path(path) ==> name == Some(file_part(path))
    &&& path == seq!['/'] ==> name is None
}

/// `std::path::Path::file_name`, as text: the last component, where the path
/// ends in one; the root does not. Other paths than plain ones and the root are
/// left open, because how a path falls into components depends on the platform.
#[verifier::external_body]
pub(crate) fn file_name(path: &str) -> (r: Option<String>)
    ensures
        is_name_of(r.deep_view(), path@),
{
    std::path::Path::new(path).file_name().map(|name| name.to_string_lossy().into_owned())
}

} // verus!
