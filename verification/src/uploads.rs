//! Where uploaded files are stored.
//!
//! Folder and file names come from the client. Each is sanitized before it
//! becomes part of a path, so that a path never leaves the uploads root.

use vstd::prelude::*;
use vstd::string::*;
use crate::location::FilesToRunView;

verus! {

/// Whether a character never survives in a sanitized name: a path
/// separator, a character that file systems reserve, or a control
/// character.
pub open spec fn is_forbidden(c: char) -> bool {
    ||| c == '/'
    ||| c == '?'
    ||| c == '<'
    ||| c == '>'
    ||| c == '\\'
    ||| c == ':'
    ||| c == '*'
    ||| c == '|'
    ||| c == '"'
    ||| c as u32 <= 0x1f
    ||| 0x80 <= c as u32 <= 0x9f
}

/// Whether a name can stand for one entry of a directory and nothing else:
/// it holds no forbidden character and is neither `.` nor `..`.
pub open spec fn is_safe_name(name: Seq<char>) -> bool {
    &&& forall|i: int| 0 <= i < name.len() ==> !is_forbidden(#[trigger] name[i])
    &&& name != seq!['.']
    &&& name != seq!['.', '.']
}

/// Whether a character is an ASCII letter, an ASCII digit, `_`, `-` or `.`.
pub open spec fn is_plain(c: char) -> bool {
    ||| 'a' <= c <= 'z'
    ||| 'A' <= c <= 'Z'
    ||| '0' <= c <= '9'
    ||| c == '_'
    ||| c == '-'
    ||| c == '.'
}

/// Whether `c` is the lower-case letter `letter` or its upper-case form.
pub open spec fn is_letter(c: char, letter: char) -> bool {
    c == letter || c as int + 32 == letter as int
}

/// Whether `s` opens with the three given letters, in either case.
pub open spec fn spells(s: Seq<char>, first: char, second: char, third: char) -> bool {
    s.len() >= 3 && is_letter(s[0], first) && is_letter(s[1], second) && is_letter(s[2], third)
}

/// Whether `s` is the name of a device on Windows: `con`, `prn`, `aux`,
/// `nul`, or `com` or `lpt` with one digit, in either case.
pub open spec fn is_device_name(s: Seq<char>) -> bool {
    ||| s.len() == 3 && (spells(s, 'c', 'o', 'n') || spells(s, 'p', 'r', 'n') || spells(
        s,
        'a',
        'u',
        'x',
    ) || spells(s, 'n', 'u', 'l'))
    ||| s.len() == 4 && (spells(s, 'c', 'o', 'm') || spells(s, 'l', 'p', 't')) && '0' <= s[3]
        <= '9'
}

/// The length of the part of a name that stands before its first dot: of
/// the whole name, if it holds no dot.
pub open spec fn stem_len(name: Seq<char>) -> nat
    decreases name.len(),
{
    if name.len() == 0 || name[0] == '.' {
        0
    } else {
        1 + stem_len(name.drop_first())
    }
}

/// Whether sanitizing leaves a name as it is, on every platform: it has at
/// most 255 characters, each of them plain; it does not end in a dot; and
/// the part before its first dot is no device name.
pub open spec fn kept_as_it_is(name: Seq<char>) -> bool {
    &&& name.len() <= 255
    &&& forall|i: int| 0 <= i < name.len() ==> is_plain(#[trigger] name[i])
    &&& name.len() > 0 ==> name.last() != '.'
    &&& !is_device_name(name.take(stem_len(name) as int))
}

/// The folder of an upload, named `name`, below the uploads root.
pub open spec fn folder_path_of(name: Seq<char>) -> Seq<char> {
    "./uploaded_files/"@ + name
}

/// The file named `name` in the folder `folder`.
pub open spec fn file_path_of(folder: Seq<char>, name: Seq<char>) -> Seq<char> {
    folder + "/"@ + name
}

/// Why a request cannot be served.
#[derive(Clone, Copy, Debug, PartialEq, Eq, Structural)]
pub enum RequestError {
    /// The request names no folder.
    MissingFolder,
}

impl RequestError {
    /// The text that tells the client what is wrong.
    pub fn message(&self) -> (text: String)
        ensures
            text@ == "Folder name is missing"@,
    {
        "Folder name is missing".to_owned()
    }
}

/// Calls `sanitize_filename::sanitize`, which deletes from the name every
/// path separator, reserved character and control character, empties a name
/// made of dots only, and cuts what is left to 255 bytes; on Windows it
/// also empties device names and strips trailing dots and blanks.
///
/// Believed of it, not proved: the result holds no forbidden character and
/// is neither `.` nor `..`; and a name that gives none of these steps
/// anything to do, on Windows or elsewhere, comes back unchanged. What
/// remains of any other name is not stated, since that differs between
/// platforms.
#[verifier::external_body]
fn sanitize(name: &str) -> (clean: String)
    ensures
        is_safe_name(clean@),
        kept_as_it_is(name@) ==> clean@ == name@,
{
    sanitize_filename::sanitize(name)
}

/// The path of the upload folder with the given, already sanitized, name.
pub fn folder_path(name: &str) -> (path: String)
    ensures
        path@ == folder_path_of(name@),
{
    "./uploaded_files/".to_owned().concat(name)
}

/// The path of the file with the given, already sanitized, name in a
/// folder.
pub fn file_path(folder: &str, name: &str) -> (path: String)
    ensures
        path@ == file_path_of(folder@, name@),
{
    folder.to_owned().concat("/").concat(name)
}

/// The folder in which the uploads of a request are stored: the uploads
/// root followed by the sanitized form of the folder that the request
/// names. A request that names none is refused.
///
/// A folder name that sanitizing keeps as it is gives the folder of that
/// very name, so that two requests for it meet in one folder. Any other
/// name gives the folder of some safe name.
pub fn upload_folder(folder: Option<&str>) -> (path: Result<String, RequestError>)
    ensures
        folder is None <==> path is Err,
        path matches Err(e) ==> e == RequestError::MissingFolder,
        folder matches Some(requested) ==> (kept_as_it_is(requested@) ==> (path matches Ok(p)
            && p@ == folder_path_of(requested@))),
        path matches Ok(p) ==> exists|name: Seq<char>|
            is_safe_name(name) && p@ == #[trigger] folder_path_of(name),
{
    match folder {
        None => Err(RequestError::MissingFolder),
        Some(requested) => {
            let name = sanitize(requested);
            let path = folder_path(name.as_str());
            assert(is_safe_name(name@) && path@ == folder_path_of(name@));
            Ok(path)
        },
    }
}

/// The path under which an uploaded file is stored: the sanitized form of
/// the file name that the client gave, inside the folder.
///
/// A file name that sanitizing keeps as it is is stored under that very
/// name; any other under some safe name.
pub fn upload_file(folder: &str, filename: &str) -> (path: String)
    ensures
        kept_as_it_is(filename@) ==> path@ == file_path_of(folder@, filename@),
        exists|name: Seq<char>|
            is_safe_name(name) && path@ == #[trigger] file_path_of(folder@, name),
{
    let name = sanitize(filename);
    let path = file_path(folder, name.as_str());
    assert(is_safe_name(name@) && path@ == file_path_of(folder@, name@));
    path
}

/// A name that sanitizing keeps as it is is a safe name.
pub proof fn lemma_kept_name_is_safe(name: Seq<char>)
    requires
        kept_as_it_is(name),
    ensures
        is_safe_name(name),
{
    assert forall|i: int| 0 <= i < name.len() implies !is_forbidden(#[trigger] name[i]) by {
        assert(is_plain(name[i]));
    }
    if name == seq!['.'] || name == seq!['.', '.'] {
        assert(name.last() == '.');
    }
}

/// What is uploaded under names that sanitizing keeps lies where the judge
/// looks for it: the stored path of a file in a folder is the path that the
/// judge derives from the same folder and name, seen from the working
/// directory.
pub proof fn lemma_upload_lies_where_the_judge_looks(files: FilesToRunView)
    ensures
        file_path_of(folder_path_of(files.folder), files.name + ".s"@) == "./"@
            + files.assembly(),
        file_path_of(folder_path_of(files.folder), files.name + ".sy"@) == "./"@ + files.source(),
        file_path_of(folder_path_of(files.folder), files.name_without_suffix + ".in"@) == "./"@
            + files.input(),
        file_path_of(folder_path_of(files.folder), files.name_without_suffix + ".out"@) == "./"@
            + files.answer(),
{
    reveal_strlit("./uploaded_files/");
    reveal_strlit("uploaded_files/");
    reveal_strlit("./");
    assert("./uploaded_files/"@ =~= "./"@ + "uploaded_files/"@);
    assert(file_path_of(folder_path_of(files.folder), files.name + ".s"@) =~= "./"@
        + files.assembly());
    assert(file_path_of(folder_path_of(files.folder), files.name + ".sy"@) =~= "./"@
        + files.source());
    assert(file_path_of(folder_path_of(files.folder), files.name_without_suffix + ".in"@) =~= "./"@
        + files.input());
    assert(file_path_of(folder_path_of(files.folder), files.name_without_suffix + ".out"@)
        =~= "./"@ + files.answer());
}

/// A stored file lies directly in its folder, and the folder directly in
/// the uploads root: after the root the path holds the folder's name, one
/// separator and the file's name, and neither name holds a separator or
/// points upwards.
pub proof fn lemma_stored_file_stays_below_root(folder: Seq<char>, file: Seq<char>)
    requires
        is_safe_name(folder),
        is_safe_name(file),
    ensures
        file_path_of(folder_path_of(folder), file) == "./uploaded_files/"@ + folder + "/"@ + file,
        forall|i: int| 0 <= i < folder.len() ==> folder[i] != '/' && folder[i] != '\\',
        forall|i: int| 0 <= i < file.len() ==> file[i] != '/' && file[i] != '\\',
        folder != ".."@,
        file != ".."@,
        folder != "."@,
        file != "."@,
{
    reveal_strlit("..");
    reveal_strlit(".");
    assert forall|i: int| 0 <= i < folder.len() implies folder[i] != '/' && folder[i] != '\\' by {
        assert(!is_forbidden(folder[i]));
    }
    assert forall|i: int| 0 <= i < file.len() implies file[i] != '/' && file[i] != '\\' by {
        assert(!is_forbidden(file[i]));
    }
    assert(".."@ =~= seq!['.', '.']);
    assert("."@ =~= seq!['.']);
}

} // verus!
