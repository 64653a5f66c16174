//! Document keys: paths as strings, the names of scratch documents, and the
//! directory in which scratch documents are kept.
//!
//! What a path means is the platform's business. The functions of
//! `std::path` that tell relative paths from others, join paths and find a
//! path's last name are called here; what each returns depends on its
//! arguments alone and has a name, and nothing more is assumed of it. The
//! rules that this crate adds around them (which directory, which file name,
//! which path is resolved against which) are stated exactly over those
//! names.

use crate::utils::text::{has_prefix, str_starts_with};
use vstd::prelude::*;
use vstd::string::StringExecFns;

verus! {

/// Whether `Path::is_relative` takes `path` as relative.
pub uninterp spec fn path_relative(path: Seq<char>) -> bool;

/// What `Path::join` makes of `path` adjoined to `base`.
pub uninterp spec fn path_joined(base: Seq<char>, path: Seq<char>) -> Seq<char>;

/// The last name that `Path::file_name` finds in `path`, where it finds one.
pub uninterp spec fn path_last_name(path: Seq<char>) -> Option<Seq<char>>;

/// `Path::is_relative`: whether the platform takes `path` as relative. The
/// answer depends on the path alone.
#[verifier::external_body]
pub(crate) fn path_is_relative(path: &str) -> (relative: bool)
    ensures
        relative == path_relative(path@),
{
    std::path::Path::new(path).is_relative()
}

/// `Path::join`: `path` adjoined to `base`, as the platform does it. The
/// result depends on the two paths alone.
#[verifier::external_body]
pub(crate) fn path_join(base: &str, path: &str) -> (joined: String)
    ensures
        joined@ == path_joined(base@, path@),
{
    std::path::Path::new(base).join(path).to_string_lossy().into_owned()
}

/// `Path::file_name`: the last name in `path`, where the platform finds one.
/// The result depends on the path alone.
#[verifier::external_body]
pub(crate) fn path_file_name(path: &str) -> (name: Option<String>)
    ensures
        name is Some == path_last_name(path@) is Some,
        name matches Some(n) ==> path_last_name(path@) == Some(n@),
{
    std::path::Path::new(path).file_name().map(|name| name.to_string_lossy().into_owned())
}

/// The characters of a string slice that may be missing.
pub open spec fn text_of(s: Option<&str>) -> Option<Seq<char>> {
    match s {
        Some(s) => Some(s@),
        None => None,
    }
}

/// The characters of a string that may be missing.
pub open spec fn string_text(s: Option<String>) -> Option<Seq<char>> {
    match s {
        Some(s) => Some(s@),
        None => None,
    }
}

/// The characters of a borrowed string that may be missing.
pub open spec fn borrowed_text(s: Option<&String>) -> Option<Seq<char>> {
    match s {
        Some(s) => Some(s@),
        None => None,
    }
}

/// The path to load or save for `path`: a relative one is taken below the
/// starting directory, where one is set; any other stays as it is.
pub open spec fn resolved_path(starting_directory: Option<Seq<char>>, path: Seq<char>) -> Seq<
    char,
> {
    match starting_directory {
        Some(dir) => if path_relative(path) {
            path_joined(dir, path)
        } else {
            path
        },
        None => path,
    }
}

/// The configuration directory: `.config/pyne` below the home directory
/// where that is known, else `pyne` below the application data directory,
/// else none.
pub open spec fn config_directory(home: Option<Seq<char>>, appdata: Option<Seq<char>>) -> Option<
    Seq<char>,
> {
    match home {
        Some(h) => Some(path_joined(h, ".config/pyne"@)),
        None => match appdata {
            Some(a) => Some(path_joined(a, "pyne"@)),
            None => None,
        },
    }
}

/// The directory for scratch documents: the starting directory where one is
/// set, else the configuration directory where one is known, else `config`.
pub open spec fn scratch_directory(
    starting_directory: Option<Seq<char>>,
    config_dir: Option<Seq<char>>,
) -> Seq<char> {
    match starting_directory {
        Some(s) => s,
        None => match config_dir {
            Some(c) => c,
            None => "config"@,
        },
    }
}

/// A digit of lower-case hexadecimal.
pub open spec fn is_lower_hex(c: char) -> bool {
    ('0' <= c && c <= '9') || ('a' <= c && c <= 'f')
}

/// The hyphenated form of a UUID: 32 lower-case hexadecimal digits in groups
/// of 8, 4, 4, 4 and 12, with hyphens between the groups.
pub open spec fn is_uuid_text(s: Seq<char>) -> bool {
    &&& s.len() == 36
    &&& forall|i: int|
        0 <= i < 36 ==> if i == 8 || i == 13 || i == 18 || i == 23 {
            #[trigger] s[i] == '-'
        } else {
            is_lower_hex(s[i])
        }
}

/// `Uuid::new_v4`, written out by its `Display`: a random UUID in hyphenated
/// lower-case form. Which one is a matter of chance.
#[verifier::external_body]
pub(crate) fn new_uuid_text() -> (id: String)
    ensures
        is_uuid_text(id@),
{
    uuid::Uuid::new_v4().to_string()
}

/// The file name of the scratch document with identifier `id`.
pub open spec fn scratch_name(id: Seq<char>) -> Seq<char> {
    "scratch_"@ + id + ".txt"@
}

/// Whether `name` follows the naming of scratch documents.
pub open spec fn is_scratch(name: Seq<char>) -> bool {
    has_prefix(name, "scratch_"@)
}

/// Whether `path` is that of a scratch document: whether its last name
/// follows the naming of scratch documents.
pub open spec fn is_scratch_path(path: Seq<char>) -> bool {
    path_last_name(path) matches Some(name) && is_scratch(name)
}

/// The key of the scratch document with identifier `id` in the directory
/// `dir`.
pub open spec fn scratch_key(dir: Seq<char>, id: Seq<char>) -> Seq<char> {
    path_joined(dir, scratch_name(id))
}

/// Every scratch file name follows the naming of scratch documents.
pub proof fn lemma_scratch_name_is_scratch(id: Seq<char>)
    ensures
        is_scratch(scratch_name(id)),
{
    let prefix = "scratch_"@;
    assert(scratch_name(id).subrange(0, prefix.len() as int) =~= prefix);
}

/// The file name of the scratch document with identifier `id`.
pub fn scratch_file_name(id: &str) -> (name: String)
    ensures
        name@ == scratch_name(id@),
        is_scratch(name@),
{
    proof {
        lemma_scratch_name_is_scratch(id@);
    }
    String::from_str("scratch_").concat(id).concat(".txt")
}

/// Whether `name` follows the naming of scratch documents.
pub fn is_scratch_name(name: &str) -> (b: bool)
    ensures
        b == is_scratch(name@),
{
    str_starts_with(name, "scratch_")
}

/// Whether a key with the file name `file_name` is that of a scratch
/// document: whether it has a file name, and one that follows the naming of
/// scratch documents.
pub fn is_scratch_file(file_name: &Option<String>) -> (b: bool)
    ensures
        b == (file_name matches Some(name) && is_scratch(name@)),
{
    match file_name {
        Some(name) => is_scratch_name(name.as_str()),
        None => false,
    }
}

/// The directory and the path below it that make up the configuration
/// directory: `.config/pyne` below the home directory where that is known,
/// else `pyne` below the application data directory, else nothing.
pub fn config_dir_parts<'a>(home: Option<&'a str>, appdata: Option<&'a str>) -> (parts: Option<
    (&'a str, &'static str),
>)
    ensures
        home matches Some(h) ==> parts matches Some((base, below)) && base@ == h@ && below@
            == ".config/pyne"@,
        home is None ==> (appdata matches Some(a) ==> parts matches Some((base, below)) && base@
            == a@ && below@ == "pyne"@),
        home is None && appdata is None ==> parts is None,
{
    match home {
        Some(h) => Some((h, ".config/pyne")),
        None => match appdata {
            Some(a) => Some((a, "pyne")),
            None => None,
        },
    }
}

/// The configuration directory, from the home directory and the application
/// data directory as the environment gives them.
pub fn get_config_dir(home: Option<&str>, appdata: Option<&str>) -> (dir: Option<String>)
    ensures
        dir is Some == config_directory(text_of(home), text_of(appdata)) is Some,
        dir matches Some(d) ==> config_directory(text_of(home), text_of(appdata)) == Some(d@),
{
    match config_dir_parts(home, appdata) {
        Some((base, below)) => Some(path_join(base, below)),
        None => None,
    }
}

/// The directory for scratch documents: the starting directory where one is
/// set, else the configuration directory where one is known, else `config`.
pub fn scratch_dir(starting_directory: Option<&String>, config_dir: Option<String>) -> (dir:
    String)
    ensures
        dir@ == scratch_directory(borrowed_text(starting_directory), string_text(config_dir)),
{
    match starting_directory {
        Some(s) => s.clone(),
        None => match config_dir {
            Some(c) => c,
            None => String::from_str("config"),
        },
    }
}

/// The path to load for `path`: `joined`, the path adjoined to the starting
/// directory, where the path is relative and a starting directory is set;
/// else `path` as it is.
pub fn pick_resolved(path: &str, relative: bool, joined: Option<String>) -> (resolved: String)
    ensures
        resolved@ == match joined {
            Some(j) => if relative {
                j@
            } else {
                path@
            },
            None => path@,
        },
{
    match joined {
        Some(j) => if relative {
            j
        } else {
            String::from_str(path)
        },
        None => String::from_str(path),
    }
}

/// The path to load for `path`: a relative one is taken below
/// `starting_directory`, where that is set; any other stays as it is.
pub fn resolve_path(starting_directory: Option<&String>, path: &str) -> (resolved: String)
    ensures
        resolved@ == resolved_path(borrowed_text(starting_directory), path@),
{
    let relative = path_is_relative(path);
    let joined = match starting_directory {
        Some(dir) => if relative {
            Some(path_join(dir.as_str(), path))
        } else {
            None
        },
        None => None,
    };
    pick_resolved(path, relative, joined)
}

} // verus!
