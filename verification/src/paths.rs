//! Paths as text: the few path operations the launcher needs, the stem of a
//! file name, and where Wisplet keeps its files.
use vstd::prelude::*;
use crate::text::{chars_of, lowercase_ends_with, string_from_chars, string_from_range};

verus! {

/// `base` with `part` adjoined, as `Path::join` builds it on the platform the crate is built for.
pub uninterp spec fn joined_path(base: Seq<char>, part: Seq<char>) -> Seq<char>;

/// The final component of `path`, as `Path::file_name` gives it on the platform the crate
/// is built for (`None` when the path ends in a root, a prefix or `..`).
pub uninterp spec fn file_name_of(path: Seq<char>) -> Option<Seq<char>>;

/// `path` without its final component, as `Path::parent` gives it on the platform the crate
/// is built for (`None` when the path ends in a root or a prefix, or is empty).
pub uninterp spec fn parent_of(path: Seq<char>) -> Option<Seq<char>>;

/// `path` with its extension replaced by `ext`, as `Path::with_extension` builds it on the
/// platform the crate is built for.
pub uninterp spec fn with_extension_of(path: Seq<char>, ext: Seq<char>) -> Seq<char>;

/// The current user's home directory, as `dirs::home_dir` finds it, as text (a path that is
/// not valid Unicode is converted lossily). What comes back depends on the environment and
/// the operating system, so nothing is stated of it.
#[verifier::external_body]
pub(crate) fn home_dir() -> Option<String> {
    match dirs::home_dir() {
        Some(p) => Some(p.to_string_lossy().into_owned()),
        None => None,
    }
}

/// The user's local data directory, as `dirs::data_local_dir` finds it, as text (converted
/// lossily when it is not valid Unicode). What comes back depends on the environment and the
/// operating system, so nothing is stated of it.
#[verifier::external_body]
pub(crate) fn data_local_dir() -> Option<String> {
    match dirs::data_local_dir() {
        Some(p) => Some(p.to_string_lossy().into_owned()),
        None => None,
    }
}

/// Joins `part` onto `base` with std `Path::join`; the result is `joined_path(base@, part@)`.
/// Both inputs are Unicode, so the joined path is too and the text conversion is exact.
#[verifier::external_body]
pub(crate) fn path_join(base: &str, part: &str) -> (r: String)
    ensures
        r@ == joined_path(base@, part@),
{
    std::path::Path::new(base).join(part).to_string_lossy().into_owned()
}

/// The final component of `path`, with std `Path::file_name`; the result is
/// `file_name_of(path@)`. A component of a Unicode path is Unicode, so the conversion is exact.
/// A component never holds `/`, which separates components on every platform.
#[verifier::external_body]
pub(crate) fn path_file_name(path: &str) -> (r: Option<String>)
    ensures
        r is Some <==> file_name_of(path@) is Some,
        r matches Some(n) ==> file_name_of(path@) == Some(n@),
        r matches Some(n) ==> forall|i: int| 0 <= i < n@.len() ==> n@[i] != '/',
{
    match std::path::Path::new(path).file_name() {
        Some(n) => Some(n.to_string_lossy().into_owned()),
        None => None,
    }
}

/// `path` without its final component, with std `Path::parent`; the result is
/// `parent_of(path@)`.
#[verifier::external_body]
pub(crate) fn path_parent(path: &str) -> (r: Option<String>)
    ensures
        r is Some <==> parent_of(path@) is Some,
        r matches Some(p) ==> parent_of(path@) == Some(p@),
{
    match std::path::Path::new(path).parent() {
        Some(p) => Some(p.to_string_lossy().into_owned()),
        None => None,
    }
}

/// `path` with the extension `ext`, with std `Path::with_extension`; the result is
/// `with_extension_of(path@, ext@)`. The call panics on an extension that holds a path
/// separator, so `ext` holds neither `/` nor `\`.
#[verifier::external_body]
pub(crate) fn path_with_extension(path: &str, ext: &str) -> (r: String)
    requires
        forall|i: int| 0 <= i < ext@.len() ==> ext@[i] != '/' && ext@[i] != '\\',
    ensures
        r@ == with_extension_of(path@, ext@),
{
    std::path::Path::new(path).with_extension(ext).to_string_lossy().into_owned()
}

// ---------------------------------------------------------------------------
// File stems
// ---------------------------------------------------------------------------
/// The index of the last `c` in `s`, or -1 when there is none.
pub open spec fn last_index_of(s: Seq<char>, c: char) -> int
    decreases s.len(),
{
    if s.len() == 0 {
        -1
    } else if s.last() == c {
        s.len() - 1
    } else {
        last_index_of(s.drop_last(), c)
    }
}

/// The stem of a file name, as `Path::file_stem` defines it: the whole name when it has no
/// `.`, or its only `.` is the first character (or the name is `..`); otherwise the part
/// before the final `.`.
pub open spec fn stem_of_name(name: Seq<char>) -> Seq<char> {
    if name == seq!['.', '.'] || last_index_of(name, '.') <= 0 {
        name
    } else {
        name.take(last_index_of(name, '.'))
    }
}

/// The text that the launcher shows for a path: the stem of its file name, or nothing when
/// the path has no file name.
pub open spec fn file_stem_text(path: Seq<char>) -> Seq<char> {
    match file_name_of(path) {
        Some(name) => stem_of_name(name),
        None => seq![],
    }
}

proof fn lemma_last_index_at(s: Seq<char>, c: char, k: int)
    requires
        -1 <= k < s.len(),
        k == -1 || s[k] == c,
        forall|i: int| k < i < s.len() ==> s[i] != c,
    ensures
        last_index_of(s, c) == k,
    decreases s.len(),
{
    if s.len() > 0 && s.last() != c {
        lemma_last_index_at(s.drop_last(), c, k);
    }
}

/// The position of the last `c` in `cs`, if any.
fn find_last(cs: &Vec<char>, c: char) -> (r: Option<usize>)
    ensures
        r is None ==> last_index_of(cs@, c) == -1,
        r matches Some(k) ==> last_index_of(cs@, c) == k && k < cs@.len(),
{
    let mut i = cs.len();
    while i > 0
        invariant
            i <= cs@.len(),
            forall|j: int| i <= j < cs@.len() ==> cs@[j] != c,
        decreases i,
    {
        if cs[i - 1] == c {
            proof {
                lemma_last_index_at(cs@, c, i - 1);
            }
            return Some(i - 1);
        }
        i = i - 1;
    }
    proof {
        lemma_last_index_at(cs@, c, -1);
    }
    None
}

/// The stem of a file name given as characters.
pub fn stem_of(name: &Vec<char>) -> (r: String)
    ensures
        r@ == stem_of_name(name@),
        r@.len() <= name@.len(),
        r@ == name@.take(r@.len() as int),
{
    let is_dot_dot = name.len() == 2 && name[0] == '.' && name[1] == '.';
    if is_dot_dot {
        proof {
            assert(name@ =~= seq!['.', '.']);
        }
        return string_from_chars(name);
    }
    proof {
        assert(name@ != seq!['.', '.']);
    }
    match find_last(name, '.') {
        Some(k) => {
            if k == 0 {
                string_from_chars(name)
            } else {
                proof {
                    assert(name@.subrange(0, k as int) =~= name@.take(k as int));
                }
                string_from_range(name, 0, k)
            }
        },
        None => string_from_chars(name),
    }
}

/// The stem of the file name of `path` (`Path::file_stem`), or the empty string when the path
/// has no file name.
pub fn file_stem(path: &str) -> (r: String)
    ensures
        r@ == file_stem_text(path@),
        forall|i: int| 0 <= i < r@.len() ==> r@[i] != '/',
{
    match path_file_name(path) {
        Some(name) => {
            let cs = chars_of(name.as_str());
            let r = stem_of(&cs);
            proof {
                assert forall|i: int| 0 <= i < r@.len() implies r@[i] != '/' by {
                    assert(r@[i] == name@[i]);
                }
            }
            r
        },
        None => String::new(),
    }
}

/// The path names an executable: lowercased, it ends in `.exe`.
pub open spec fn is_exe_path(path: Seq<char>) -> bool {
    crate::text::has_suffix(crate::text::lowercase_of(path), ".exe"@)
}

/// The path names a Windows shortcut: lowercased, it ends in `.lnk`.
pub open spec fn is_shortcut_path(path: Seq<char>) -> bool {
    crate::text::has_suffix(crate::text::lowercase_of(path), ".lnk"@)
}

/// Whether `path`, compared without regard to case, ends in `.exe`.
pub fn names_executable(path: &str) -> (r: bool)
    ensures
        r == is_exe_path(path@),
{
    lowercase_ends_with(path, ".exe")
}

/// Whether `path`, compared without regard to case, ends in `.lnk`.
pub fn names_shortcut(path: &str) -> (r: bool)
    ensures
        r == is_shortcut_path(path@),
{
    lowercase_ends_with(path, ".lnk")
}

// ---------------------------------------------------------------------------
// Where Wisplet keeps its files
// ---------------------------------------------------------------------------
/// Wisplet's own configuration directory under a home directory: `<home>/.config/wisplet`.
pub open spec fn config_dir_in(home: Seq<char>) -> Seq<char> {
    joined_path(joined_path(home, ".config"@), "wisplet"@)
}

/// Wisplet's apps file under a home directory: `<home>/.config/wisplet/apps.json`.
pub open spec fn apps_path_in(home: Seq<char>) -> Seq<char> {
    joined_path(config_dir_in(home), "apps.json"@)
}

/// Wisplet's icon directory under a home directory: `<home>/.config/wisplet/icons`.
pub open spec fn icons_dir_in(home: Seq<char>) -> Seq<char> {
    joined_path(config_dir_in(home), "icons"@)
}

/// The YASB launchpad file that seeds Wisplet's apps file once:
/// `<home>/.config/yasb/launchpad/apps.json`.
pub open spec fn yasb_apps_path_in(home: Seq<char>) -> Seq<char> {
    joined_path(joined_path(joined_path(joined_path(home, ".config"@), "yasb"@), "launchpad"@), "apps.json"@)
}

/// The crash log under a local data directory: `<data>/Wisplet/crash.log`.
pub open spec fn crash_log_in(data: Seq<char>) -> Seq<char> {
    joined_path(joined_path(data, "Wisplet"@), "crash.log"@)
}

/// Wisplet's configuration directory under the home directory `home`.
pub fn config_dir_under(home: &str) -> (r: String)
    ensures
        r@ == config_dir_in(home@),
{
    let c = path_join(home, ".config");
    path_join(c.as_str(), "wisplet")
}

/// Wisplet's apps file under the home directory `home`.
pub fn apps_path_under(home: &str) -> (r: String)
    ensures
        r@ == apps_path_in(home@),
{
    let d = config_dir_under(home);
    path_join(d.as_str(), "apps.json")
}

/// Wisplet's icon directory under the home directory `home`.
pub fn icons_dir_under(home: &str) -> (r: String)
    ensures
        r@ == icons_dir_in(home@),
{
    let d = config_dir_under(home);
    path_join(d.as_str(), "icons")
}

/// The YASB launchpad file under the home directory `home`.
pub fn yasb_apps_path_under(home: &str) -> (r: String)
    ensures
        r@ == yasb_apps_path_in(home@),
{
    let a = path_join(home, ".config");
    let b = path_join(a.as_str(), "yasb");
    let c = path_join(b.as_str(), "launchpad");
    path_join(c.as_str(), "apps.json")
}

/// The crash log under the local data directory `data`.
pub fn crash_log_under(data: &str) -> (r: String)
    ensures
        r@ == crash_log_in(data@),
{
    let a = path_join(data, "Wisplet");
    path_join(a.as_str(), "crash.log")
}

/// Wisplet's configuration directory, when the home directory can be found.
pub fn wisplet_config_dir() -> (r: Option<String>)
    ensures
        r matches Some(p) ==> exists|home: Seq<char>| p@ == config_dir_in(home),
{
    match home_dir() {
        Some(h) => Some(config_dir_under(h.as_str())),
        None => None,
    }
}

/// Wisplet's apps file (`~/.config/wisplet/apps.json`), when the home directory can be found.
pub fn wisplet_apps_path() -> (r: Option<String>)
    ensures
        r matches Some(p) ==> exists|home: Seq<char>| p@ == apps_path_in(home),
{
    match home_dir() {
        Some(h) => Some(apps_path_under(h.as_str())),
        None => None,
    }
}

/// Wisplet's icon directory (`~/.config/wisplet/icons`), when the home directory can be found.
pub fn wisplet_icons_dir() -> (r: Option<String>)
    ensures
        r matches Some(p) ==> exists|home: Seq<char>| p@ == icons_dir_in(home),
{
    match home_dir() {
        Some(h) => Some(icons_dir_under(h.as_str())),
        None => None,
    }
}

/// The YASB launchpad file (`~/.config/yasb/launchpad/apps.json`), when the home directory
/// can be found.
pub fn yasb_apps_path() -> (r: Option<String>)
    ensures
        r matches Some(p) ==> exists|home: Seq<char>| p@ == yasb_apps_path_in(home),
{
    match home_dir() {
        Some(h) => Some(yasb_apps_path_under(h.as_str())),
        None => None,
    }
}

/// The crash log (`<local data>/Wisplet/crash.log`), when the local data directory can be
/// found.
pub fn crash_log_path() -> (r: Option<String>)
    ensures
        r matches Some(p) ==> exists|data: Seq<char>| p@ == crash_log_in(data),
{
    match data_local_dir() {
        Some(d) => Some(crash_log_under(d.as_str())),
        None => None,
    }
}

} // verus!
