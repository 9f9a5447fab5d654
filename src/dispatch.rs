//! Choosing a transport, and turning what it reported into one outcome.
//!
//! The transports themselves (the HTTP request, the child process) are run
//! by the caller; this module decides what they are handed and what their
//! reports mean.
use vstd::prelude::*;
use crate::error::LimitError;
use crate::json::{is_json_text, parse_value};
use crate::payload::{argument_list, payload_text, texts, Credentials};
use crate::validate::LimitRequest;

verus! {

/// The text of `b` after decoding it as UTF-8, each invalid sequence
/// replaced by U+FFFD.
pub uninterp spec fn utf8_lossy(b: Seq<u8>) -> Seq<char>;

/// Relies on String::from_utf8_lossy: the decoded text of the bytes.
#[verifier::external_body]
fn decode_lossy(b: &Vec<u8>) -> (r: String)
    ensures
        r@ == utf8_lossy(b@),
{
    String::from_utf8_lossy(b.as_slice()).into_owned()
}

/// The file name of the companion executable on the given platform.
pub open spec fn executable_name(windows: bool) -> Seq<char> {
    if windows { "Bellande_Limit.exe"@ } else { "Bellande_Limit"@ }
}

/// Whether `c` separates path components on the given platform.
pub open spec fn is_separator(c: char, windows: bool) -> bool {
    c == '/' || (windows && c == '\\')
}

/// The separator that joining a path adds on the given platform.
pub open spec fn main_separator(windows: bool) -> char {
    if windows { '\\' } else { '/' }
}

/// The path of the companion executable within `dir`: the file name follows
/// the directory, with the platform's separator between them unless the
/// directory is empty or already ends with a separator.
pub open spec fn executable_path(dir: Seq<char>, windows: bool) -> Seq<char> {
    if dir.len() == 0 || is_separator(dir.last(), windows) {
        dir + executable_name(windows)
    } else {
        dir.push(main_separator(windows)) + executable_name(windows)
    }
}

/// The path of the companion executable, which lies in the directory of the
/// running tool; on Windows it carries the `.exe` extension.
pub fn get_executable_path(tool_dir: &str, windows: bool) -> (r: String)
    ensures
        r@ == executable_path(tool_dir@, windows),
{
    let n = tool_dir.unicode_len();
    let mut path = String::from_str(tool_dir);
    if n > 0 {
        let last = tool_dir.get_char(n - 1);
        let ends_in_separator = last == '/' || (windows && last == '\\');
        if !ends_in_separator {
            if windows {
                path.append("\\");
            } else {
                path.append("/");
            }
            proof {
                reveal_strlit("\\");
                reveal_strlit("/");
            }
        }
    }
    if windows {
        path.append("Bellande_Limit.exe");
    } else {
        path.append("Bellande_Limit");
    }
    proof {
        if n > 0 {
            assert(tool_dir@.last() == tool_dir@[n - 1]);
        }
    }
    path
}

/// What the caller is to do with a validated request.
pub enum Dispatch {
    /// Post `payload` to the remote service.
    Remote { payload: String },
    /// Run `program` with `args`.
    Local { program: String, args: Vec<String> },
}

/// Routes a validated request: to the companion executable where
/// `use_executable` is set, else to the remote service.
pub fn plan_dispatch(
    request: &LimitRequest,
    credentials: &Credentials,
    use_executable: bool,
    tool_dir: &str,
    windows: bool,
) -> (r: Dispatch)
    ensures
        use_executable ==> (r matches Dispatch::Local { program, args } && program@ == executable_path(tool_dir@, windows)
            && texts(args@) == argument_list(credentials.passcode_text(), request.fields())),
        !use_executable ==> (r matches Dispatch::Remote { payload }
            && payload@ == payload_text(request.fields(), credentials.key_literal())),
{
    if use_executable {
        Dispatch::Local {
            program: get_executable_path(tool_dir, windows),
            args: request.executable_args(credentials),
        }
    } else {
        Dispatch::Remote { payload: request.payload(credentials) }
    }
}

/// What came back from the remote service.
pub enum RemoteReport {
    /// No response was had; `detail` says why.
    Unreachable { detail: String },
    /// The service answered with this status and body.
    Responded { status: u16, body: String },
}

/// Whether an HTTP status means success.
pub open spec fn is_success_status(status: u16) -> bool {
    200 <= status && status < 300
}

/// The outcome of a remote call: the body where the service answered with
/// success and a JSON body, else a network error carrying the status and
/// body (or, where no response was had, the reason).
pub fn remote_outcome(report: RemoteReport) -> (r: Result<String, LimitError>)
    ensures
        match report {
            RemoteReport::Unreachable { detail } => r == Err::<String, LimitError>(LimitError::Network { status: None, body: detail }),
            RemoteReport::Responded { status, body } => if is_success_status(status) && is_json_text(body@) {
                r == Ok::<String, LimitError>(body)
            } else {
                r == Err::<String, LimitError>(LimitError::Network { status: Some(status), body })
            },
        },
{
    match report {
        RemoteReport::Unreachable { detail } => Err(LimitError::Network { status: None, body: detail }),
        RemoteReport::Responded { status, body } => {
            if 200 <= status && status < 300 && parse_value(body.as_str()).is_ok() {
                Ok(body)
            } else {
                Err(LimitError::Network { status: Some(status), body })
            }
        },
    }
}

/// What came of running the companion executable.
pub enum ProcessReport {
    /// It could not be started.
    NotLaunched,
    /// It ran to its end, with these outputs.
    Exited { success: bool, stdout: Vec<u8>, stderr: Vec<u8> },
}

/// The outcome of running the companion executable at `program`: its
/// standard output where it exited with success, else its error output; or,
/// where it could not be started, that it was not found.
pub fn local_outcome(report: ProcessReport, program: &str) -> (r: Result<String, LimitError>)
    ensures
        match report {
            ProcessReport::NotLaunched => r matches Err(LimitError::ExecutableNotFound { path }) && path@ == program@,
            ProcessReport::Exited { success, stdout, stderr } => if success {
                r matches Ok(out) && out@ == utf8_lossy(stdout@)
            } else {
                r matches Err(LimitError::Subprocess { stderr: err }) && err@ == utf8_lossy(stderr@)
            },
        },
{
    match report {
        ProcessReport::NotLaunched => Err(LimitError::ExecutableNotFound { path: String::from_str(program) }),
        ProcessReport::Exited { success, stdout, stderr } => {
            if success {
                Ok(decode_lossy(&stdout))
            } else {
                Err(LimitError::Subprocess { stderr: decode_lossy(&stderr) })
            }
        },
    }
}

} // verus!
