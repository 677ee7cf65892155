//! The launcher's apps: the app record, how the apps file is found, seeded,
//! read and saved, how a freshly picked executable is named and given an icon
//! file, and how an app is launched.
use vstd::prelude::*;
use vstd::string::*;
use crate::paths::{file_stem, names_executable, names_shortcut, path_file_name, path_join, path_parent, path_with_extension, stem_of};
use crate::text::{chars_of, char_is_alphanumeric, push_char, push_decimal, push_hex4, trim_end_nul, trim_whitespace, string_from_chars};

verus! {

/// One app of the launcher, as the apps file stores it.
#[derive(Clone, Debug)]
pub struct App {
    pub id: i64,
    pub title: String,
    pub path: String,
    pub icon: Option<String>,
    /// Stored under the key `type`.
    pub app_type: Option<String>,
    pub group: Option<String>,
}

/// The title and icon suggested for a freshly picked executable.
#[derive(Clone, Debug)]
pub struct AppSuggestion {
    pub title: String,
    pub icon: Option<String>,
}

/// The text of an optional string.
pub open spec fn opt_text(o: Option<String>) -> Option<Seq<char>> {
    match o {
        Some(s) => Some(s@),
        None => None,
    }
}

// ---------------------------------------------------------------------------
// Titles
// ---------------------------------------------------------------------------
/// The title suggested for `path`: an executable's own description, when it has one;
/// otherwise the stem of the file name.
pub open spec fn suggested_title(path: Seq<char>, description: Option<Seq<char>>) -> Seq<char> {
    if crate::paths::is_exe_path(path) && description is Some {
        description->0
    } else {
        crate::paths::file_stem_text(path)
    }
}

/// The title suggested for `path`, given the `FileDescription` of its version resource (which
/// is only looked up for executables, see `names_executable`).
pub fn suggest_title(path: &str, description: Option<String>) -> (r: String)
    ensures
        r@ == suggested_title(path@, opt_text(description)),
{
    if names_executable(path) {
        if let Some(d) = description {
            return d;
        }
    }
    file_stem(path)
}

/// What the editor suggests for a freshly picked file: the suggested title and the icon file
/// that was extracted for it, if any.
pub fn inspect_app(path: &str, description: Option<String>, icon: Option<String>) -> (s: AppSuggestion)
    ensures
        s.title@ == suggested_title(path@, opt_text(description)),
        opt_text(s.icon) == opt_text(icon),
{
    AppSuggestion { title: suggest_title(path, description), icon }
}

/// The query path of the `FileDescription` string in a version resource, for the given
/// language and code page: `\StringFileInfo\<lang><cp>\FileDescription`, each as four
/// lowercase hexadecimal digits.
pub fn version_query_path(lang: u16, codepage: u16) -> (r: String)
    ensures
        r@ == "\\StringFileInfo\\"@ + crate::text::hex4(lang) + crate::text::hex4(codepage)
            + "\\FileDescription"@,
{
    let mut r = String::from_str("\\StringFileInfo\\");
    push_hex4(&mut r, lang);
    push_hex4(&mut r, codepage);
    r.append("\\FileDescription");
    r
}

/// The description text held in a version resource string: decoded, without its trailing
/// NULs, trimmed.
pub open spec fn description_text(units: Seq<u16>) -> Seq<char> {
    crate::text::trim_ws(crate::text::trim_end_char(crate::utf16::utf16_decode(units), '\0'))
}

/// The description an executable's version resource gives, from the UTF-16 units of its
/// `FileDescription` value; `None` when nothing is left once it is cleaned.
pub fn exe_description(units: &[u16]) -> (r: Option<String>)
    ensures
        r is None <==> description_text(units@).len() == 0,
        r matches Some(d) ==> d@ == description_text(units@),
{
    let decoded = crate::utf16::decode_utf16_lossy(units);
    let cs = chars_of(decoded.as_str());
    let no_nul = trim_end_nul(&cs);
    let trimmed = trim_whitespace(&no_nul);
    if trimmed.len() == 0 {
        None
    } else {
        Some(string_from_chars(&trimmed))
    }
}

// ---------------------------------------------------------------------------
// Icon files
// ---------------------------------------------------------------------------
/// `c` in ASCII lowercase (`char::to_ascii_lowercase`): `A` to `Z` become `a` to `z`, every
/// other character stays.
pub open spec fn ascii_lower(c: char) -> char {
    if 'A' <= c && c <= 'Z' {
        ((c as u32) + 32) as char
    } else {
        c
    }
}

/// A character as it may appear in an icon file name: alphanumerics lowercased (ASCII),
/// everything else `_`.
pub open spec fn icon_name_char(c: char) -> char {
    if crate::text::is_alphanumeric_char(c) {
        ascii_lower(c)
    } else {
        '_'
    }
}

/// The file-name base for the icon of `path`: the stem of its file name (or `app` when it
/// has none), character by character as `icon_name_char` gives.
pub open spec fn icon_stem_text(path: Seq<char>) -> Seq<char> {
    let stem = match crate::paths::file_name_of(path) {
        Some(name) => crate::paths::stem_of_name(name),
        None => "app"@,
    };
    stem.map_values(|c: char| icon_name_char(c))
}

fn to_ascii_lower(c: char) -> (r: char)
    ensures
        r == ascii_lower(c),
{
    if 'A' <= c && c <= 'Z' {
        let v = (c as u32) + 32;
        match crate::utf16::char_from_u32(v) {
            Some(l) => {
                proof {
                    vstd::utf8::char_u32_cast(l, v);
                }
                l
            },
            None => c,
        }
    } else {
        c
    }
}

/// The file-name base for the icon of `path` (see `icon_stem_text`).
pub fn icon_stem(path: &str) -> (r: String)
    ensures
        r@ == icon_stem_text(path@),
{
    let stem = match path_file_name(path) {
        Some(name) => {
            let cs = chars_of(name.as_str());
            stem_of(&cs)
        },
        None => String::from_str("app"),
    };
    let cs = chars_of(stem.as_str());
    let mut out = String::new();
    let mut i: usize = 0;
    while i < cs.len()
        invariant
            i <= cs@.len(),
            out@ == cs@.take(i as int).map_values(|c: char| icon_name_char(c)),
        decreases cs.len() - i,
    {
        let c = cs[i];
        let mapped = if char_is_alphanumeric(c) {
            to_ascii_lower(c)
        } else {
            '_'
        };
        push_char(&mut out, mapped);
        proof {
            assert(cs@.take(i + 1).map_values(|c: char| icon_name_char(c)) =~= cs@.take(
                i as int,
            ).map_values(|c: char| icon_name_char(c)).push(icon_name_char(c)));
        }
        i = i + 1;
    }
    proof {
        assert(cs@.take(cs@.len() as int) =~= cs@);
    }
    out
}

/// The icon file name: `<stem>_<milliseconds>.png`.
pub open spec fn icon_file_name_text(stem: Seq<char>, millis: u128) -> Seq<char> {
    stem + "_"@ + crate::text::decimal(millis as nat) + ".png"@
}

/// The icon file name for a stem and the time of extraction in milliseconds since the Unix
/// epoch.
pub fn icon_file_name(stem: &str, millis: u128) -> (r: String)
    ensures
        r@ == icon_file_name_text(stem@, millis),
{
    let mut r = String::from_str(stem);
    r.append("_");
    push_decimal(&mut r, millis);
    r.append(".png");
    r
}

/// Where the icon extracted from `source` at `millis` is written, inside `icons_dir`.
pub fn icon_file_path(icons_dir: &str, source: &str, millis: u128) -> (r: String)
    ensures
        r@ == crate::paths::joined_path(icons_dir@, icon_file_name_text(icon_stem_text(source@), millis)),
{
    let stem = icon_stem(source);
    let name = icon_file_name(stem.as_str(), millis);
    path_join(icons_dir, name.as_str())
}

// ---------------------------------------------------------------------------
// Reading and saving the apps file
// ---------------------------------------------------------------------------
/// The message when the home directory cannot be found.
pub open spec fn no_home_text() -> Seq<char> {
    "Cannot resolve home directory"@
}

/// The message when the home directory cannot be found.
pub fn home_dir_missing() -> (r: String)
    ensures
        r@ == no_home_text(),
{
    String::from_str("Cannot resolve home directory")
}

/// What loading the apps does.
pub enum LoadPlan {
    /// Answer with this error.
    Fail(String),
    /// Answer with an empty list: there is neither an apps file nor a YASB file to seed it.
    Empty,
    /// First run: create `dir` (when there is one), copy the YASB file `from` to `to`, then
    /// read `to`.
    Seed { from: String, to: String, dir: Option<String> },
    /// Read and parse this file.
    Read(String),
}

/// Decides how to load the apps, given the apps file (if the home directory was found) and
/// whether it exists, and the YASB file (if known) and whether it exists. Wisplet's own file
/// wins; on the first run it is seeded once from YASB's launchpad; with neither, the list
/// is empty.
pub fn plan_load(apps_path: Option<String>, apps_exists: bool, yasb_path: Option<String>, yasb_exists: bool)
    -> (r: LoadPlan)
    ensures
        match apps_path {
            None => r matches LoadPlan::Fail(m) && m@ == no_home_text(),
            Some(p) => if apps_exists {
                r matches LoadPlan::Read(q) && q@ == p@
            } else {
                match yasb_path {
                    Some(y) => if yasb_exists {
                        r matches LoadPlan::Seed { from, to, dir } && from@ == y@ && to@ == p@
                            && opt_text(dir) == crate::paths::parent_of(p@)
                    } else {
                        r is Empty
                    },
                    None => r is Empty,
                }
            },
        },
{
    match apps_path {
        None => LoadPlan::Fail(home_dir_missing()),
        Some(p) => {
            if apps_exists {
                LoadPlan::Read(p)
            } else {
                match yasb_path {
                    Some(y) => {
                        if yasb_exists {
                            let dir = path_parent(p.as_str());
                            LoadPlan::Seed { from: y, to: p, dir }
                        } else {
                            LoadPlan::Empty
                        }
                    },
                    None => LoadPlan::Empty,
                }
            }
        },
    }
}

fn message3(a: &str, b: &str, c: &str, d: &str) -> (r: String)
    ensures
        r@ == a@ + b@ + c@ + d@,
{
    let mut r = String::from_str(a);
    r.append(b);
    r.append(c);
    r.append(d);
    r
}

/// The message when seeding from the YASB file fails.
pub fn seed_error(yasb_path: &str, err: &str) -> (r: String)
    ensures
        r@ == "Cannot seed from "@ + yasb_path@ + ": "@ + err@,
{
    message3("Cannot seed from ", yasb_path, ": ", err)
}

/// The message when the apps file cannot be read.
pub fn read_error(path: &str, err: &str) -> (r: String)
    ensures
        r@ == "Cannot read "@ + path@ + ": "@ + err@,
{
    message3("Cannot read ", path, ": ", err)
}

/// The message when the temporary apps file cannot be written.
pub fn write_error(path: &str, err: &str) -> (r: String)
    ensures
        r@ == "Cannot write "@ + path@ + ": "@ + err@,
{
    message3("Cannot write ", path, ": ", err)
}

/// How the apps are saved without ever leaving a half-written file: create `dir` (when there
/// is one), write the list to `temp`, then rename `temp` over `target`.
pub struct SavePlan {
    pub dir: Option<String>,
    pub temp: String,
    pub target: String,
}

/// Decides how to save the apps to the apps file (if the home directory was found): through
/// a temporary file next to it, whose extension is `json.tmp`.
pub fn plan_save(apps_path: Option<String>) -> (r: Result<SavePlan, String>)
    ensures
        match apps_path {
            None => r matches Err(m) && m@ == no_home_text(),
            Some(p) => r matches Ok(plan) && plan.target@ == p@ && plan.temp@
                == crate::paths::with_extension_of(p@, "json.tmp"@) && opt_text(plan.dir)
                == crate::paths::parent_of(p@),
        },
{
    match apps_path {
        None => Err(home_dir_missing()),
        Some(p) => {
            let dir = path_parent(p.as_str());
            proof {
                reveal_strlit("json.tmp");
            }
            let temp = path_with_extension(p.as_str(), "json.tmp");
            Ok(SavePlan { dir, temp, target: p })
        },
    }
}

// ---------------------------------------------------------------------------
// Launching
// ---------------------------------------------------------------------------
/// How an app is started: through `cmd /c start "" /B <path>`, in the directory of the
/// target so that it finds the files next to it, except for shortcuts, which carry their own
/// start directory.
pub struct LaunchCommand {
    pub program: String,
    pub args: Vec<String>,
    pub working_dir: Option<String>,
}

/// The texts of a list of strings.
pub open spec fn texts(v: Seq<String>) -> Seq<Seq<char>> {
    v.map_values(|s: String| s@)
}

/// The command that launches `path`.
pub fn launch_command(path: &str) -> (c: LaunchCommand)
    ensures
        c.program@ == "cmd"@,
        texts(c.args@) == seq!["/c"@, "start"@, ""@, "/B"@, path@],
        opt_text(c.working_dir) == (if crate::paths::is_shortcut_path(path@) {
            None
        } else {
            crate::paths::parent_of(path@)
        }),
{
    let mut args: Vec<String> = Vec::new();
    args.push(String::from_str("/c"));
    args.push(String::from_str("start"));
    args.push(String::from_str(""));
    args.push(String::from_str("/B"));
    args.push(String::from_str(path));
    let working_dir = if names_shortcut(path) {
        None
    } else {
        path_parent(path)
    };
    proof {
        assert(texts(args@) =~= seq!["/c"@, "start"@, ""@, "/B"@, path@]);
    }
    LaunchCommand { program: String::from_str("cmd"), args, working_dir }
}

} // verus!

verus! {

/// When no description is used (the path is no executable, or none was found), the suggested
/// title is the stem of the path's file name: the whole name when it has no inner `.`, and
/// otherwise the name cut before its last `.`, so that `Notes.lnk` becomes `Notes`. With no
/// file name the title is empty. An executable's description, when given, is the title.
pub proof fn law_title_is_stem_without_description(
    path: Seq<char>,
    description: Option<Seq<char>>,
    name: Seq<char>,
)
    ensures
        !(crate::paths::is_exe_path(path) && description is Some) ==> suggested_title(
            path,
            description,
        ) == crate::paths::file_stem_text(path),
        !(crate::paths::is_exe_path(path) && description is Some) && crate::paths::file_name_of(
            path,
        ) is None ==> suggested_title(path, description).len() == 0,
        !(crate::paths::is_exe_path(path) && description is Some) && crate::paths::file_name_of(path)
            == Some(name) && crate::paths::last_index_of(name, '.') > 0 && name != seq!['.', '.']
            ==> suggested_title(path, description) == name.take(
            crate::paths::last_index_of(name, '.'),
        ),
        !(crate::paths::is_exe_path(path) && description is Some) && crate::paths::file_name_of(path)
            == Some(name) && crate::paths::last_index_of(name, '.') <= 0 ==> suggested_title(
            path,
            description,
        ) == name,
        crate::paths::is_exe_path(path) && description is Some ==> suggested_title(path, description)
            == description->0,
{
}

} // verus!
