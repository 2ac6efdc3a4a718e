//! The operations exposed to the GUI layer.
//!
//! The GUI host invokes three operations: an installed-check, a
//! command-forwarder and an install trigger. Each one's outside work
//! (probing paths, spawning the resolved binary, opening a browser) happens
//! in the surrounding application; the functions here make the decisions
//! and build the exact strings handed back to the GUI.
use vstd::prelude::*;

verus! {

/// The fixed greeting returned for a given name.
pub open spec fn greeting_of(name: Seq<char>) -> Seq<char> {
    "Hello, "@ + name + "! You've been greeted from Rust!"@
}

/// Builds the greeting string shown by the GUI placeholder command.
pub fn greet(name: &str) -> (r: String)
    ensures
        r@ == greeting_of(name@),
{
    let mut s = String::from_str("Hello, ");
    s.append(name);
    s.append("! You've been greeted from Rust!");
    s
}

/// Why a forwarded command produced no output.
pub enum OllamaError {
    /// No candidate path responded to the version probe.
    NotFound,
    /// The resolved binary could not be started; carries the text of the
    /// operating-system error.
    Spawn { message: String },
    /// The resolved binary ran but exited non-zero; carries the captured
    /// standard-error text.
    NonZeroExit { stderr: String },
}

/// The error-tagged text the GUI receives for each kind of failure.
pub open spec fn error_text_of(e: OllamaError) -> Seq<char> {
    match e {
        OllamaError::NotFound => "Error: Ollama not found"@,
        OllamaError::Spawn { message } => "Error: "@ + message@,
        OllamaError::NonZeroExit { stderr } => "Error: "@ + stderr@,
    }
}

impl OllamaError {
    /// Renders the error as the error-tagged string handed to the GUI.
    pub fn to_text(&self) -> (r: String)
        ensures
            r@ == error_text_of(*self),
    {
        match self {
            OllamaError::NotFound => String::from_str("Error: Ollama not found"),
            OllamaError::Spawn { message } => {
                let mut s = String::from_str("Error: ");
                s.append(message.as_str());
                s
            },
            OllamaError::NonZeroExit { stderr } => {
                let mut s = String::from_str("Error: ");
                s.append(stderr.as_str());
                s
            },
        }
    }
}

/// Every error text begins with the tag `"Error: "`, and what follows the
/// tag is the failure's own text verbatim: the not-found notice, the
/// operating-system error, or the captured standard error. The GUI layer
/// can tell a failure from captured output by the tag alone, provided the
/// output itself never begins with it.
pub proof fn lemma_error_text_tagged(e: OllamaError)
    ensures
        error_text_of(e).len() >= 7,
        error_text_of(e).take(7) == "Error: "@,
        error_text_of(e).skip(7) == match e {
            OllamaError::NotFound => "Ollama not found"@,
            OllamaError::Spawn { message } => message@,
            OllamaError::NonZeroExit { stderr } => stderr@,
        },
{
    reveal_strlit("Error: ");
    reveal_strlit("Error: Ollama not found");
    reveal_strlit("Ollama not found");
    match e {
        OllamaError::NotFound => {
            assert(error_text_of(e).take(7) =~= "Error: "@);
            assert(error_text_of(e).skip(7) =~= "Ollama not found"@);
        },
        OllamaError::Spawn { message } => {
            assert(error_text_of(e).take(7) =~= "Error: "@);
            assert(error_text_of(e).skip(7) =~= message@);
        },
        OllamaError::NonZeroExit { stderr } => {
            assert(error_text_of(e).take(7) =~= "Error: "@);
            assert(error_text_of(e).skip(7) =~= stderr@);
        },
    }
}

/// Classifies one captured run of the resolved binary: on a zero exit the
/// captured standard output is the result, on a non-zero exit the captured
/// standard error becomes the failure.
pub fn interpret_output(exit_ok: bool, stdout: String, stderr: String) -> (r: Result<
    String,
    OllamaError,
>)
    ensures
        exit_ok ==> (r matches Ok(out) && out@ == stdout@),
        !exit_ok ==> (r matches Err(e) && e == (OllamaError::NonZeroExit { stderr })),
{
    if exit_ok {
        Ok(stdout)
    } else {
        Err(OllamaError::NonZeroExit { stderr })
    }
}

/// True iff the locator resolved a path: the installed-check shown to the
/// GUI.
pub fn check_ollama_installed(located: &Option<String>) -> (r: bool)
    ensures
        r == located.is_some(),
{
    located.is_some()
}

/// The text a forwarded command hands back to the GUI: the captured
/// standard output verbatim on success, the error-tagged text otherwise.
pub fn run_ollama_command(outcome: Result<String, OllamaError>) -> (r: String)
    ensures
        outcome matches Ok(out) ==> r@ == out@,
        outcome matches Err(e) ==> r@ == error_text_of(e),
{
    match outcome {
        Ok(out) => out,
        Err(e) => e.to_text(),
    }
}

/// The page opened in the default browser when an install is triggered.
pub fn download_url() -> (r: String)
    ensures
        r@ == "https://ollama.com/download"@,
{
    String::from_str("https://ollama.com/download")
}

/// Reports the install trigger's outcome to the GUI. Opening the download
/// page is best-effort: the report is success whether or not the browser
/// actually opened.
pub fn install_ollama(browser_opened: bool) -> (r: bool)
    ensures
        r,
{
    let _ = browser_opened;
    true
}

} // verus!
