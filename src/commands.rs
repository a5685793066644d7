//! Decisions behind the commands that the front-end invokes: where the API key
//! file lies and what its read yields, and how a folder is opened.
use vstd::prelude::*;
use vstd::string::StringExecFns;
use crate::platform::{folder_opener, spec_folder_opener, HostOs};
use crate::resolve::path_view;

verus! {

/// What `str::trim` returns for a string.
pub uninterp spec fn trimmed(s: Seq<char>) -> Seq<char>;

/// Relies on `str::trim`: the string without leading and trailing whitespace,
/// which depends on its characters alone; an empty string stays empty.
#[verifier::external_body]
fn trim_whitespace(s: &str) -> (r: String)
    ensures
        r@ == trimmed(s@),
        s@.len() == 0 ==> r@.len() == 0,
{
    s.trim().to_string()
}

/// Why the API key could not be had.
#[derive(Debug, PartialEq, Eq)]
pub enum KeyError {
    /// Neither the app-data nor the home directory is known.
    AppDataUnavailable { reason: String },
    /// No key file exists: the backend writes it when it runs.
    NotFound,
    /// The key file exists but could not be read.
    ReadFailed { reason: String },
}

impl KeyError {
    /// The text shown to the front-end.
    pub fn message(&self) -> (r: String)
        ensures
            r@ == match self {
                KeyError::AppDataUnavailable { reason } => "Failed to get app data dir: "@ + reason@,
                KeyError::NotFound => "API Key not found. Backend may not be running."@,
                KeyError::ReadFailed { reason } => "Failed to read API key: "@ + reason@,
            },
    {
        match self {
            KeyError::AppDataUnavailable { reason } => {
                String::from_str("Failed to get app data dir: ").concat(reason.as_str())
            },
            KeyError::NotFound => String::from_str("API Key not found. Backend may not be running."),
            KeyError::ReadFailed { reason } => {
                String::from_str("Failed to read API key: ").concat(reason.as_str())
            },
        }
    }
}

/// The app-data directory: `APPDATA` where it is set, else `.config` under
/// the home directory; the reason the home directory is unknown otherwise.
pub fn app_data_dir(appdata: Option<String>, home: Result<String, String>) -> (r: Result<String, KeyError>)
    ensures
        appdata is Some ==> r == Ok::<String, KeyError>(appdata->0),
        appdata is None ==> match home {
            Ok(h) => r matches Ok(d) && d@ == h@ + "/.config"@,
            Err(reason) => r == Err::<String, KeyError>(KeyError::AppDataUnavailable { reason }),
        },
{
    match appdata {
        Some(d) => Ok(d),
        None => match home {
            Ok(h) => Ok(h.concat("/.config")),
            Err(reason) => Err(KeyError::AppDataUnavailable { reason }),
        },
    }
}

/// Location of the key file: `<app data>/Nebula/.api_key`, as path segments.
pub fn key_file_path(app_data: &String) -> (r: Vec<String>)
    ensures
        path_view(r@) == seq![app_data@, "Nebula"@, ".api_key"@],
{
    let mut r: Vec<String> = Vec::new();
    r.push(app_data.clone());
    r.push(String::from_str("Nebula"));
    r.push(String::from_str(".api_key"));
    proof {
        assert(path_view(r@) =~= seq![app_data@, "Nebula"@, ".api_key"@]);
    }
    r
}

/// The key from the read of its file, where `None` says that no file exists
/// (and so none was read): the trimmed contents, or why there are none.
pub fn api_key_from_read(read: Option<Result<String, String>>) -> (r: Result<String, KeyError>)
    ensures
        read is None ==> r == Err::<String, KeyError>(KeyError::NotFound),
        read matches Some(Err(reason)) ==> r == Err::<String, KeyError>(KeyError::ReadFailed { reason }),
        read matches Some(Ok(contents)) ==> r matches Ok(key) && key@ == trimmed(contents@),
{
    match read {
        None => Err(KeyError::NotFound),
        Some(Err(reason)) => Err(KeyError::ReadFailed { reason }),
        Some(Ok(contents)) => Ok(trim_whitespace(contents.as_str())),
    }
}

/// How a folder is opened: the file-manager program and its arguments.
#[derive(Debug)]
pub struct FolderOpen {
    pub program: &'static str,
    pub args: Vec<String>,
}

/// The command that opens `path` in the file manager of `os`; `None` where the
/// OS has no such program, and then opening does nothing.
pub fn folder_open_command(os: HostOs, path: String) -> (r: Option<FolderOpen>)
    ensures
        r is Some == spec_folder_opener(os) is Some,
        r matches Some(c) ==> c.program@ == spec_folder_opener(os)->0 && c.args@ == seq![path],
{
    match folder_opener(os) {
        Some(program) => {
            let mut args: Vec<String> = Vec::new();
            args.push(path);
            Some(FolderOpen { program, args })
        },
        None => None,
    }
}

/// The text shown to the front-end when the file manager could not be launched.
pub fn open_folder_failure(reason: &String) -> (r: String)
    ensures
        r@ == "Failed to open folder: "@ + reason@,
{
    String::from_str("Failed to open folder: ").concat(reason.as_str())
}

} // verus!
