use vstd::prelude::*;

use crate::non_empty_vec::{from_vec, NonEmptyVec};
use crate::text::{spec_u64_digits, str_eq, u64_to_string};

verus! {

/// A source file scheduled to be written into the work directory: its full
/// path there, and its text content.
#[derive(Debug)]
pub struct SourceFile {
    pub path: String,
    pub content: String,
}

/// Rejection of a request before any file is written or any process is
/// spawned.
#[derive(Debug)]
pub enum RequestError {
    /// The request carried no files at all.
    NoFiles(),
    /// A file entry has an empty name.
    EmptyFileName(),
    /// A file entry has empty content.
    EmptyFileContent(),
    /// A file's path does not lie under the work directory.
    StripWorkPath(),
}

/// The rendering of a [`RequestError`].
pub open spec fn spec_request_error_message(error: RequestError) -> Seq<char> {
    match error {
        RequestError::NoFiles() => "Error, no files were given"@,
        RequestError::EmptyFileName() => "Error, file with empty name"@,
        RequestError::EmptyFileContent() => "Error, file with empty content"@,
        RequestError::StripWorkPath() => "Failed to strip work path of file. prefix not found"@,
    }
}

impl RequestError {
    /// Renders the rejection as one line of text.
    pub fn to_message(&self) -> (r: String)
        ensures
            r@ == spec_request_error_message(*self),
    {
        match self {
            RequestError::NoFiles() => String::from_str("Error, no files were given"),
            RequestError::EmptyFileName() => String::from_str("Error, file with empty name"),
            RequestError::EmptyFileContent() => String::from_str(
                "Error, file with empty content",
            ),
            RequestError::StripWorkPath() => String::from_str(
                "Failed to strip work path of file. prefix not found",
            ),
        }
    }
}

/// Ok exactly when the condition holds; otherwise the given error.
pub fn err_if_false<E>(value: bool, err: E) -> (r: Result<(), E>)
    ensures
        r == if value {
            Result::<(), E>::Ok(())
        } else {
            Result::<(), E>::Err(err)
        },
{
    if value {
        Ok(())
    } else {
        Err(err)
    }
}

/// `name` appended under `base`: `name` itself when absolute; otherwise
/// `base` and `name` with exactly one `/` between them.
pub open spec fn spec_join_path(base: Seq<char>, name: Seq<char>) -> Seq<char> {
    if name.len() > 0 && name[0] == '/' {
        name
    } else if base.len() == 0 || base.last() == '/' {
        base + name
    } else {
        base + "/"@ + name
    }
}

/// Joins a file name onto a base directory path.
pub fn join_path(base: &str, name: &str) -> (r: String)
    ensures
        r@ == spec_join_path(base@, name@),
{
    let name_len = name.unicode_len();
    if name_len > 0 && name.get_char(0) == '/' {
        name.to_owned()
    } else {
        let base_len = base.unicode_len();
        let mut r = String::from_str(base);
        if !(base_len == 0 || base.get_char(base_len - 1) == '/') {
            r.append("/");
        }
        r.append(name);
        r
    }
}

/// The remainder of `path` under the directory `base`: all of `path` when
/// `base` is empty, the empty path when they are equal, and the text after
/// the separating `/` when `path` lies below `base`.
pub open spec fn spec_strip_path_prefix(base: Seq<char>, path: Seq<char>) -> Option<Seq<char>> {
    if base.len() == 0 {
        Some(path)
    } else if path == base {
        Some(Seq::empty())
    } else if path.len() > base.len() && path.take(base.len() as int) == base && path[base.len() as int]
        == '/' {
        Some(path.skip(base.len() as int + 1))
    } else {
        None
    }
}

fn prefix_eq(path: &str, base: &str) -> (r: bool)
    requires
        base@.len() <= path@.len(),
    ensures
        r == (path@.take(base@.len() as int) == base@),
{
    let base_len = base.unicode_len();
    let mut i: usize = 0;
    while i < base_len
        invariant
            i <= base_len,
            base_len == base@.len(),
            base@.len() <= path@.len(),
            forall|j: int| 0 <= j < i ==> path@[j] == base@[j],
        decreases base_len - i,
    {
        if path.get_char(i) != base.get_char(i) {
            proof {
                assert(path@.take(base@.len() as int)[i as int] != base@[i as int]);
            }
            return false;
        }
        i += 1;
    }
    proof {
        assert(path@.take(base@.len() as int) =~= base@);
    }
    true
}

/// Strips the directory `base` off the front of `path`.
pub fn strip_path_prefix(base: &str, path: &str) -> (r: Option<String>)
    ensures
        match r {
            Some(rest) => spec_strip_path_prefix(base@, path@) == Some(rest@),
            None => spec_strip_path_prefix(base@, path@) is None,
        },
{
    let base_len = base.unicode_len();
    let path_len = path.unicode_len();
    if base_len == 0 {
        Some(path.to_owned())
    } else if str_eq(base, path) {
        Some(String::new())
    } else if path_len > base_len && prefix_eq(path, base) && path.get_char(base_len) == '/' {
        let rest = path.substring_char(base_len + 1, path_len);
        Some(rest.to_owned())
    } else {
        None
    }
}

/// Joining a relative name under a directory and stripping that directory
/// off again returns the name unchanged.
pub proof fn lemma_join_then_strip(base: Seq<char>, name: Seq<char>)
    requires
        base.len() > 0,
        base.last() != '/',
        name.len() > 0,
        name[0] != '/',
    ensures
        spec_strip_path_prefix(base, spec_join_path(base, name)) == Some(name),
{
    let joined = spec_join_path(base, name);
    reveal_strlit("/");
    assert(joined == base + "/"@ + name);
    assert(joined.len() == base.len() + 1 + name.len());
    assert(joined != base);
    assert(joined.take(base.len() as int) =~= base);
    assert(joined[base.len() as int] == '/');
    assert(joined.skip(base.len() as int + 1) =~= name);
}

/// Validates one inbound file entry and places it under the work
/// directory: the name must be non-empty (checked first), the content must
/// be non-empty, and the file's path is the name joined under `base_path`.
pub fn file_from_request_file(base_path: &str, name: String, content: String) -> (r: Result<
    SourceFile,
    RequestError,
>)
    ensures
        name@.len() == 0 ==> r matches Err(RequestError::EmptyFileName()),
        name@.len() > 0 && content@.len() == 0 ==> r matches Err(RequestError::EmptyFileContent()),
        name@.len() > 0 && content@.len() > 0 ==> (r matches Ok(file) && file.path@
            == spec_join_path(base_path@, name@) && file.content == content),
{
    if name.as_str().is_empty() {
        Err(RequestError::EmptyFileName())
    } else if content.as_str().is_empty() {
        Err(RequestError::EmptyFileContent())
    } else {
        let path = join_path(base_path, name.as_str());
        Ok(SourceFile { path, content })
    }
}

/// The paths of the given files relative to the work directory, as the
/// non-empty list the resolver takes: fails with `StripWorkPath` when some
/// file does not lie under the work directory, and with `NoFiles` when
/// there are no files at all.
pub fn relative_file_paths(work_path: &str, files: Vec<SourceFile>) -> (r: Result<
    NonEmptyVec<String>,
    RequestError,
>)
    ensures
        r is Ok <==> files@.len() > 0 && (forall|i: int|
            0 <= i < files@.len() ==> spec_strip_path_prefix(work_path@, files@[i].path@) is Some),
        r matches Ok(nev) ==> {
            &&& nev.spec_items().len() == files@.len()
            &&& forall|i: int|
                0 <= i < files@.len() ==> Some(#[trigger] nev.spec_items()[i]@)
                    == spec_strip_path_prefix(work_path@, files@[i].path@)
        },
        (exists|i: int|
            0 <= i < files@.len() && spec_strip_path_prefix(work_path@, files@[i].path@) is None)
            ==> r matches Err(RequestError::StripWorkPath()),
        files@.len() == 0 ==> r matches Err(RequestError::NoFiles()),
{
    let mut names: Vec<String> = Vec::new();
    let mut i: usize = 0;
    while i < files.len()
        invariant
            i <= files@.len(),
            names@.len() == i,
            forall|j: int|
                0 <= j < i ==> Some(#[trigger] names@[j]@) == spec_strip_path_prefix(
                    work_path@,
                    files@[j].path@,
                ),
        decreases files@.len() - i,
    {
        match strip_path_prefix(work_path, files[i].path.as_str()) {
            Some(name) => {
                names.push(name);
            },
            None => {
                return Err(RequestError::StripWorkPath());
            },
        }
        i += 1;
    }
    proof {
        assert forall|j: int| 0 <= j < files@.len() implies spec_strip_path_prefix(
            work_path@,
            files@[j].path@,
        ) is Some by {
            assert(Some(names@[j]@) == spec_strip_path_prefix(work_path@, files@[j].path@));
        }
    }
    match from_vec(names) {
        Some(nev) => Ok(nev),
        None => Err(RequestError::NoFiles()),
    }
}

/// The command-line form `--path <dir>` selects the work directory; any
/// other argument shape selects none.
pub fn work_path_from_args(arguments: &Vec<String>) -> (r: Option<String>)
    ensures
        if arguments@.len() == 3 && arguments@[1]@ == "--path"@ {
            r matches Some(path) && path@ == arguments@[2]@
        } else {
            r is None
        },
{
    if arguments.len() == 3 && str_eq(arguments[1].as_str(), "--path") {
        Some(arguments[2].clone())
    } else {
        None
    }
}

/// The name of the default work directory for a request that arrived at
/// the given Unix timestamp (in whole seconds).
pub fn work_dir_name(timestamp_secs: u64) -> (r: String)
    ensures
        r@ == "glot-"@ + spec_u64_digits(timestamp_secs as int),
{
    let mut r = String::from_str("glot-");
    let digits = u64_to_string(timestamp_secs);
    r.append(digits.as_str());
    r
}

/// The shell command that unpacks the bootstrap archive into the current
/// work directory.
pub fn bootstrap_command(bootstrap_file: &str) -> (r: String)
    ensures
        r@ == "tar -zxf "@ + bootstrap_file@,
{
    let mut r = String::from_str("tar -zxf ");
    r.append(bootstrap_file);
    r
}

} // verus!
