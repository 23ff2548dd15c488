//! Contextual error codes for `ds` error messages. The codes have an M:N
//! relationship to actual errors and give users something they can look up
//! in the `ds` documentation.

use vstd::prelude::*;

verus! {

/// Contextual error codes, each with the values its message names.
#[derive(Debug, Clone, PartialEq, Eq)]
pub enum DsErrContext {
    /// Failed to get the location of the current `ds` binary.
    DS1000,
    /// `ds shell` failed to execute the given Node.js binary.
    DS1001(String),
    /// A home directory is required for the patch scripts.
    DS1002,
    /// Failed to create the data directory at the given path.
    DS1003(String),
    /// Failed to write the dstopic data file at the given path.
    DS1004(String),
    /// Invalid package arg.
    DS1005(String),
    /// A registry spec without a name.
    DS1006(String),
    /// Neither a name nor a spec.
    DS1007,
    /// Invalid registry arg string.
    DS1008(String),
    /// No package name in a registry arg.
    DS1009(String),
    /// Failed to parse a registry URL.
    DS1010(String),
    /// Failed to parse a response body.
    DS1011,
    /// No versions in the packument for the named package.
    DS1012(String),
    /// An unexpected kind of package arg.
    DS1013(String),
    /// No version matched the request.
    DS1014(String),
    /// A ping failed.
    DS1015 { registry: String, message: String },
    /// Failed to get a response body.
    DS1016,
    /// No response from the registry.
    DS1017(String),
    /// A package arg failed to parse; the message holds the actual error.
    DS1018 { input: String, msg: String },
}

/// The value of a `DsErrContext`.
pub enum DsErrView {
    DS1000,
    DS1001(Seq<char>),
    DS1002,
    DS1003(Seq<char>),
    DS1004(Seq<char>),
    DS1005(Seq<char>),
    DS1006(Seq<char>),
    DS1007,
    DS1008(Seq<char>),
    DS1009(Seq<char>),
    DS1010(Seq<char>),
    DS1011,
    DS1012(Seq<char>),
    DS1013(Seq<char>),
    DS1014(Seq<char>),
    DS1015 { registry: Seq<char>, message: Seq<char> },
    DS1016,
    DS1017(Seq<char>),
    DS1018 { input: Seq<char>, msg: Seq<char> },
}

impl View for DsErrContext {
    type V = DsErrView;

    open spec fn view(&self) -> DsErrView {
        match self {
            DsErrContext::DS1000 => DsErrView::DS1000,
            DsErrContext::DS1001(s) => DsErrView::DS1001(s@),
            DsErrContext::DS1002 => DsErrView::DS1002,
            DsErrContext::DS1003(s) => DsErrView::DS1003(s@),
            DsErrContext::DS1004(s) => DsErrView::DS1004(s@),
            DsErrContext::DS1005(s) => DsErrView::DS1005(s@),
            DsErrContext::DS1006(s) => DsErrView::DS1006(s@),
            DsErrContext::DS1007 => DsErrView::DS1007,
            DsErrContext::DS1008(s) => DsErrView::DS1008(s@),
            DsErrContext::DS1009(s) => DsErrView::DS1009(s@),
            DsErrContext::DS1010(s) => DsErrView::DS1010(s@),
            DsErrContext::DS1011 => DsErrView::DS1011,
            DsErrContext::DS1012(s) => DsErrView::DS1012(s@),
            DsErrContext::DS1013(s) => DsErrView::DS1013(s@),
            DsErrContext::DS1014(s) => DsErrView::DS1014(s@),
            DsErrContext::DS1015 { registry, message } => DsErrView::DS1015 {
                registry: registry@,
                message: message@,
            },
            DsErrContext::DS1016 => DsErrView::DS1016,
            DsErrContext::DS1017(s) => DsErrView::DS1017(s@),
            DsErrContext::DS1018 { input, msg } => DsErrView::DS1018 { input: input@, msg: msg@ },
        }
    }
}

/// How Rust's `Debug` writes a string: quoted, with escapes.
pub uninterp spec fn str_debug(s: Seq<char>) -> Seq<char>;

/// The message of an error context: its code, a colon and the text that
/// the code stands for, with the values it names in their places.
pub open spec fn message_of(e: DsErrView) -> Seq<char> {
    match e {
        DsErrView::DS1000 => "DS1000: Failed to get the location of the current ds binary."@,
        DsErrView::DS1001(s) => "DS1001: Failed to execute node binary at `"@ + s + "`"@,
        DsErrView::DS1002 => "DS1002: A home directory is required for ds patch scripts."@,
        DsErrView::DS1003(p) => "DS1003: Failed to create data directory at `"@ + str_debug(p)
            + "`"@,
        DsErrView::DS1004(p) => "DS1004: Failed to write dstopic data file at `"@ + str_debug(p)
            + "`"@,
        DsErrView::DS1005(s) => "DS1005: Invalid package arg: `"@ + s + "`"@,
        DsErrView::DS1006(s) => "DS1006: Tried to resolve a registry spec ("@ + s
            + ") without a name."@,
        DsErrView::DS1007 => "DS1007: Neither a name nor a spec were passed in. Failed to resolve."@,
        DsErrView::DS1008(s) => "DS1008: Invalid registry arg string: `"@ + s + "`"@,
        DsErrView::DS1009(s) => "DS1009: No package name found in registry arg: `"@ + s + "`"@,
        DsErrView::DS1010(s) => "DS1010: Failed to parse registry URL from `"@ + s + "`"@,
        DsErrView::DS1011 => "DS1011: Failed to parse response body"@,
        DsErrView::DS1012(s) => "DS1012: No versions were present in the packument for `"@ + s
            + "`"@,
        DsErrView::DS1013(s) => "DS1013: Received an unexpected PackageArg type: `"@ + s + "`"@,
        DsErrView::DS1014(s) => "DS1014: No versions could be found because `"@ + s
            + "` did not match any existing versions"@,
        DsErrView::DS1015 { registry, message } => "DS1015: Ping failed for "@ + registry
            + ": "@ + message,
        DsErrView::DS1016 => "DS1016: Failed to get response body."@,
        DsErrView::DS1017(s) => "DS1017: No response from registry at "@ + s,
        DsErrView::DS1018 { input, msg } => "DS1018: Package arg `"@ + input
            + "` failed to parse:\n"@ + msg,
    }
}

/// Writes a string as Rust's `Debug` does. Claims that the result is what
/// `str_debug` names.
#[verifier::external_body]
pub(crate) fn debug_text(s: &str) -> (r: String)
    ensures
        r@ == str_debug(s@),
{
    format!("{:?}", s)
}

/// `a`, then `b`, then `c`, as a new string.
fn join3(a: &str, b: &str, c: &str) -> (r: String)
    ensures
        r@ == a@ + b@ + c@,
{
    let mut r = a.to_owned();
    r.append(b);
    r.append(c);
    r
}

impl DsErrContext {
    /// The message that the error code stands for, as its display.
    pub fn message(&self) -> (r: String)
        ensures
            r@ == message_of(self@),
    {
        match self {
            DsErrContext::DS1000 => "DS1000: Failed to get the location of the current ds binary.".to_owned(),
            DsErrContext::DS1001(s) => join3("DS1001: Failed to execute node binary at `", s, "`"),
            DsErrContext::DS1002 => "DS1002: A home directory is required for ds patch scripts.".to_owned(),
            DsErrContext::DS1003(p) => {
                let d = debug_text(p);
                join3("DS1003: Failed to create data directory at `", &d, "`")
            },
            DsErrContext::DS1004(p) => {
                let d = debug_text(p);
                join3("DS1004: Failed to write dstopic data file at `", &d, "`")
            },
            DsErrContext::DS1005(s) => join3("DS1005: Invalid package arg: `", s, "`"),
            DsErrContext::DS1006(s) => join3(
                "DS1006: Tried to resolve a registry spec (",
                s,
                ") without a name.",
            ),
            DsErrContext::DS1007 => "DS1007: Neither a name nor a spec were passed in. Failed to resolve.".to_owned(),
            DsErrContext::DS1008(s) => join3("DS1008: Invalid registry arg string: `", s, "`"),
            DsErrContext::DS1009(s) => join3(
                "DS1009: No package name found in registry arg: `",
                s,
                "`",
            ),
            DsErrContext::DS1010(s) => join3("DS1010: Failed to parse registry URL from `", s, "`"),
            DsErrContext::DS1011 => "DS1011: Failed to parse response body".to_owned(),
            DsErrContext::DS1012(s) => join3(
                "DS1012: No versions were present in the packument for `",
                s,
                "`",
            ),
            DsErrContext::DS1013(s) => join3(
                "DS1013: Received an unexpected PackageArg type: `",
                s,
                "`",
            ),
            DsErrContext::DS1014(s) => join3(
                "DS1014: No versions could be found because `",
                s,
                "` did not match any existing versions",
            ),
            DsErrContext::DS1015 { registry, message } => {
                let mut r = join3("DS1015: Ping failed for ", registry, ": ");
                r.append(message);
                r
            },
            DsErrContext::DS1016 => "DS1016: Failed to get response body.".to_owned(),
            DsErrContext::DS1017(s) => crate::text::concat("DS1017: No response from registry at ", s),
            DsErrContext::DS1018 { input, msg } => {
                let mut r = join3("DS1018: Package arg `", input, "` failed to parse:\n");
                r.append(msg);
                r
            },
        }
    }
}

} // verus!
