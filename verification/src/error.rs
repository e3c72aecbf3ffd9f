//! The failures that the front end reports, with their wording.

use vstd::prelude::*;

verus! {

/// Everything that can end a run before, during or after the engine's work.
#[derive(Debug, PartialEq, Eq)]
pub enum MtrError {
    /// The target is neither a resolvable name nor a literal address.
    HostResolutionError(String),
    /// A literal address was malformed; holds what the address parser said.
    InvalidIpAddress(String),
    /// The whole search ended without a usable engine.
    TrippyNotFound,
    /// The attempt to install the engine could not be carried out.
    TrippyInstallFailed(String),
    /// The engine was found but could not be started.
    TrippyExecutionFailed(String),
    /// The engine lacked the rights to open its sockets.
    InsufficientPrivileges,
    /// An option holds a value that is out of range or contradicts another.
    InvalidOption(String),
    /// A protocol was chosen that needs a port, and none was given. Holds the
    /// protocol's name and the letter of the flag that chooses it.
    PortRequired(String, char),
    /// The surroundings of the process are broken; holds the system's words.
    IoError(String),
    /// Anything else.
    Other(String),
}

/// An error with its texts as sequences of characters.
pub enum ErrorView {
    HostResolutionError(Seq<char>),
    InvalidIpAddress(Seq<char>),
    TrippyNotFound,
    TrippyInstallFailed(Seq<char>),
    TrippyExecutionFailed(Seq<char>),
    InsufficientPrivileges,
    InvalidOption(Seq<char>),
    PortRequired(Seq<char>, char),
    IoError(Seq<char>),
    Other(Seq<char>),
}

impl View for MtrError {
    type V = ErrorView;

    open spec fn view(&self) -> ErrorView {
        match *self {
            MtrError::HostResolutionError(host) => ErrorView::HostResolutionError(host@),
            MtrError::InvalidIpAddress(reason) => ErrorView::InvalidIpAddress(reason@),
            MtrError::TrippyNotFound => ErrorView::TrippyNotFound,
            MtrError::TrippyInstallFailed(reason) => ErrorView::TrippyInstallFailed(reason@),
            MtrError::TrippyExecutionFailed(reason) => ErrorView::TrippyExecutionFailed(reason@),
            MtrError::InsufficientPrivileges => ErrorView::InsufficientPrivileges,
            MtrError::InvalidOption(reason) => ErrorView::InvalidOption(reason@),
            MtrError::PortRequired(protocol, flag) => ErrorView::PortRequired(protocol@, flag),
            MtrError::IoError(reason) => ErrorView::IoError(reason@),
            MtrError::Other(reason) => ErrorView::Other(reason@),
        }
    }
}

/// The exit code of a run that ended without any usable engine, and of one
/// whose engine left no exit code behind.
pub const EXIT_FALLBACK: i32 = 2;

/// The exit code of every other failure of the front end itself.
pub const EXIT_FAILURE: i32 = 1;

/// What is said when the search for the engine ends without one.
pub const NOT_FOUND_TEXT: &'static str = "Trippy binary not found at any of the expected locations";

/// What is said when the engine lacks the rights it needs, with the way to
/// give them to it.
pub const PRIVILEGES_TEXT: &'static str =
    "Administrator privileges are required to run traceroute\n\n\
     Please right-click on the command prompt/terminal and select 'Run as administrator' \
     before running windows-mtr.";

/// The ways to get hold of the engine by hand.
pub const GUIDANCE_TEXT: &'static str = "To fix this issue, please try one of the following:\n\
     1. Place 'trippy.exe' in the same directory as this executable\n\
     2. Install trippy manually: cargo install trippy\n\
     3. Download the full release package from GitHub which includes trippy\n   \
     https://github.com/benjisho/windows-mtr/releases";

/// The line that an error shows to the user.
pub open spec fn message_text(error: ErrorView) -> Seq<char> {
    match error {
        ErrorView::HostResolutionError(host) => "Failed to resolve hostname: "@ + host,
        ErrorView::InvalidIpAddress(reason) => "Invalid IP address: "@ + reason,
        ErrorView::TrippyNotFound => NOT_FOUND_TEXT@,
        ErrorView::TrippyInstallFailed(reason) => "Failed to install trippy: "@ + reason,
        ErrorView::TrippyExecutionFailed(reason) => "Failed to execute trippy: "@ + reason,
        ErrorView::InsufficientPrivileges => PRIVILEGES_TEXT@,
        ErrorView::InvalidOption(reason) => "Invalid command-line option: "@ + reason,
        ErrorView::PortRequired(protocol, flag) => "Port option required for "@ + protocol
            + " protocol\n\nExample: windows-mtr.exe -"@ + seq![flag] + " -P 443 8.8.8.8"@,
        ErrorView::IoError(reason) => "I/O error: "@ + reason,
        ErrorView::Other(reason) => "Error: "@ + reason,
    }
}

/// What the user can do about an error, beyond what its message says. Only a
/// missing engine comes with such advice; for every other error it is empty.
pub open spec fn guidance_text(error: ErrorView) -> Seq<char> {
    match error {
        ErrorView::TrippyNotFound => GUIDANCE_TEXT@,
        _ => Seq::empty(),
    }
}

/// The exit code that goes with an error.
pub open spec fn exit_code_of(error: ErrorView) -> i32 {
    match error {
        ErrorView::TrippyNotFound => EXIT_FALLBACK,
        _ => EXIT_FAILURE,
    }
}

/// `String::push`: appends one character to the end of the string.
#[verifier::external_body]
fn push_char(text: &mut String, c: char)
    ensures
        final(text)@ == old(text)@.push(c),
{
    text.push(c)
}

fn prefixed(prefix: &str, rest: &String) -> (text: String)
    ensures
        text@ == prefix@ + rest@,
{
    let mut text = String::from_str(prefix);
    text.append(rest.as_str());
    text
}

impl MtrError {
    /// The line that this error shows to the user.
    pub fn message(&self) -> (text: String)
        ensures
            text@ == message_text(self@),
    {
        match self {
            MtrError::HostResolutionError(host) => prefixed("Failed to resolve hostname: ", host),
            MtrError::InvalidIpAddress(reason) => prefixed("Invalid IP address: ", reason),
            MtrError::TrippyNotFound => String::from_str(NOT_FOUND_TEXT),
            MtrError::TrippyInstallFailed(reason) => prefixed("Failed to install trippy: ", reason),
            MtrError::TrippyExecutionFailed(reason) => prefixed(
                "Failed to execute trippy: ",
                reason,
            ),
            MtrError::InsufficientPrivileges => String::from_str(PRIVILEGES_TEXT),
            MtrError::InvalidOption(reason) => prefixed("Invalid command-line option: ", reason),
            MtrError::PortRequired(protocol, flag) => {
                let mut text = prefixed("Port option required for ", protocol);
                text.append(" protocol\n\nExample: windows-mtr.exe -");
                push_char(&mut text, *flag);
                text.append(" -P 443 8.8.8.8");
                assert(text@ =~= message_text(self@));
                text
            },
            MtrError::IoError(reason) => prefixed("I/O error: ", reason),
            MtrError::Other(reason) => prefixed("Error: ", reason),
        }
    }

    /// What the user can do about this error, beyond what its message says.
    pub fn guidance(&self) -> (text: String)
        ensures
            text@ == guidance_text(self@),
    {
        match self {
            MtrError::TrippyNotFound => String::from_str(GUIDANCE_TEXT),
            _ => String::new(),
        }
    }

    /// The exit code that goes with this error.
    pub fn exit_code(&self) -> (code: i32)
        ensures
            code == exit_code_of(self@),
    {
        match self {
            MtrError::TrippyNotFound => EXIT_FALLBACK,
            _ => EXIT_FAILURE,
        }
    }
}

} // verus!
