//! The process bridge: how one run of the external script is judged.
//!
//! The host spawns the interpreter, writes the request, drains both output
//! streams and waits; this module decides what that run amounts to.
use vstd::prelude::*;
use crate::text::{contains, decimal, decimal_text, lemma_contains_middle};

verus! {

#[verifier::external_type_specification]
#[verifier::external_body]
pub struct ExJsonValue(serde_json::Value);

/// Whether `serde_json::from_str` accepts `text` as one JSON document.
pub uninterp spec fn json_accepts(text: Seq<char>) -> bool;

/// Relies on `serde_json::from_str::<Value>`: it succeeds exactly on the texts
/// it accepts as one JSON document; its error is kept as its rendered text.
#[verifier::external_body]
fn parse_json(text: &str) -> (r: Result<serde_json::Value, String>)
    ensures
        r is Ok <==> json_accepts(text@),
{
    serde_json::from_str::<serde_json::Value>(text).map_err(|e| e.to_string())
}

/// The top-level `error` member of the JSON document `text`: absent, or
/// present with its text when it is a string (`Some(None)` otherwise).
pub uninterp spec fn json_error_member(text: Seq<char>) -> Option<Option<Seq<char>>>;

/// What an `error` member read from a document amounts to, as text.
pub open spec fn error_view(e: Option<Option<String>>) -> Option<Option<Seq<char>>> {
    match e {
        None => None,
        Some(None) => Some(None),
        Some(Some(m)) => Some(Some(m@)),
    }
}

/// Relies on `serde_json::from_str::<Value>` and `serde_json::Value::get`: on a
/// text that parses, the top-level `error` member of the document, if it has
/// one, and its text if that member is a string.
#[verifier::external_body]
fn error_member(text: &str) -> (r: Option<Option<String>>)
    ensures
        json_accepts(text@) ==> error_view(r) == json_error_member(text@),
{
    match serde_json::from_str::<serde_json::Value>(text) {
        Err(_) => None,
        Ok(doc) => match doc.get("error") {
            None => None,
            Some(serde_json::Value::String(s)) => Some(Some(s.clone())),
            Some(_) => Some(None),
        },
    }
}

/// The step of the exchange whose input or output stream failed.
#[derive(Debug, Clone, Copy, PartialEq, Eq, Structural)]
pub enum IoStage {
    WriteInput,
    ReadOutput,
    ReadErrors,
    Wait,
}

/// Every way a conversion can fail, from a missing script to an empty result.
#[derive(Debug, Clone)]
pub enum BridgeError {
    /// The script is not on disk; `script` is the path as the host shows it.
    ScriptNotFound { script: String },
    /// The interpreter could not be started.
    SpawnFailure { reason: String, interpreter: String },
    /// The request could not be encoded.
    EncodeFailure { reason: String },
    /// A stream of the child failed.
    IoFailure { stage: IoStage, reason: String },
    /// The child exited unsuccessfully; `-1` stands for an unknown code.
    ProcessFailure { code: i32, stderr: String },
    /// The child's output is not one JSON document.
    ProtocolError { reason: String, output: String },
    /// The response names an error of its own.
    DomainError { message: String },
    /// A parse response held no rows.
    NoRows,
}

pub open spec fn unknown_error_text() -> Seq<char> {
    "Unknown error"@
}

pub open spec fn no_rows_text() -> Seq<char> {
    "未能从PDF中提取到有效的表格数据"@
}

impl IoStage {
    pub open spec fn describe_spec(&self) -> Seq<char> {
        match self {
            IoStage::WriteInput => "Failed to write to Python stdin: "@,
            IoStage::ReadOutput => "Failed to read Python stdout: "@,
            IoStage::ReadErrors => "Failed to read Python stderr: "@,
            IoStage::Wait => "Failed to wait for Python: "@,
        }
    }

    fn describe(&self) -> (r: &'static str)
        ensures
            r@ == self.describe_spec(),
    {
        match self {
            IoStage::WriteInput => "Failed to write to Python stdin: ",
            IoStage::ReadOutput => "Failed to read Python stdout: ",
            IoStage::ReadErrors => "Failed to read Python stderr: ",
            IoStage::Wait => "Failed to wait for Python: ",
        }
    }
}

impl BridgeError {
    /// The one human-readable line that the shell is shown.
    pub open spec fn message_spec(&self) -> Seq<char> {
        match self {
            BridgeError::ScriptNotFound { script } => "Python script not found: "@ + script@,
            BridgeError::SpawnFailure { reason, interpreter } => "Failed to start Python: "@
                + reason@ + " (path: "@ + interpreter@ + ")"@,
            BridgeError::EncodeFailure { reason } => "Failed to serialize JSON: "@ + reason@,
            BridgeError::IoFailure { stage, reason } => stage.describe_spec() + reason@,
            BridgeError::ProcessFailure { code, stderr } => "Python process failed: "@ + decimal(
                *code as int,
            ) + " (stderr: "@ + stderr@ + ")"@,
            BridgeError::ProtocolError { reason, output } => "Failed to parse Python output: "@
                + reason@ + " (output: "@ + output@ + ")"@,
            BridgeError::DomainError { message } => message@,
            BridgeError::NoRows => no_rows_text(),
        }
    }

    pub fn message(&self) -> (r: String)
        ensures
            r@ == self.message_spec(),
    {
        match self {
            BridgeError::ScriptNotFound { script } => {
                String::from_str("Python script not found: ").concat(script.as_str())
            },
            BridgeError::SpawnFailure { reason, interpreter } => {
                let r = String::from_str("Failed to start Python: ").concat(reason.as_str()).concat(
                    " (path: ",
                ).concat(interpreter.as_str()).concat(")");
                r
            },
            BridgeError::EncodeFailure { reason } => {
                String::from_str("Failed to serialize JSON: ").concat(reason.as_str())
            },
            BridgeError::IoFailure { stage, reason } => {
                String::from_str(stage.describe()).concat(reason.as_str())
            },
            BridgeError::ProcessFailure { code, stderr } => {
                let code_text = decimal_text(*code);
                String::from_str("Python process failed: ").concat(code_text.as_str()).concat(
                    " (stderr: ",
                ).concat(stderr.as_str()).concat(")")
            },
            BridgeError::ProtocolError { reason, output } => {
                String::from_str("Failed to parse Python output: ").concat(reason.as_str()).concat(
                    " (output: ",
                ).concat(output.as_str()).concat(")")
            },
            BridgeError::DomainError { message } => message.clone(),
            BridgeError::NoRows => String::from_str("未能从PDF中提取到有效的表格数据"),
        }
    }
}

/// The run may start only when the script is on disk.
pub fn check_script(script_exists: bool, script: String) -> (r: Result<(), BridgeError>)
    ensures
        script_exists ==> r is Ok,
        !script_exists ==> r == Err::<(), BridgeError>(BridgeError::ScriptNotFound { script }),
{
    if script_exists {
        Ok(())
    } else {
        Err(BridgeError::ScriptNotFound { script })
    }
}

/// Judges a well-formed response by its `error` member (as `error_member`
/// reads it from the response's text): a named error wins over the zero exit code that came before.
pub fn classify_document(doc: serde_json::Value, error: Option<Option<String>>) -> (r: Result<
    serde_json::Value,
    BridgeError,
>)
    ensures
        error is None ==> r == Ok::<serde_json::Value, BridgeError>(doc),
        error matches Some(Some(m)) ==> r == Err::<serde_json::Value, BridgeError>(
            BridgeError::DomainError { message: m },
        ),
        error matches Some(None) ==> (r matches Err(BridgeError::DomainError { message })
            && message@ == unknown_error_text()),
{
    match error {
        None => Ok(doc),
        Some(Some(message)) => Err(BridgeError::DomainError { message }),
        Some(None) => Err(BridgeError::DomainError { message: String::from_str("Unknown error") }),
    }
}

/// Judges a finished run from its exit code (`None` when there is none), its
/// output text and its error text, in this order: an unsuccessful exit, then
/// output that is not JSON, then an `error` member of the response.
pub fn classify_output(exit_code: Option<i32>, stdout: &str, stderr: &str) -> (r: Result<
    serde_json::Value,
    BridgeError,
>)
    ensures
        exit_code != Some(0i32) ==> (r matches Err(BridgeError::ProcessFailure { code, stderr: e })
            && code == (match exit_code {
            Some(c) => c,
            None => -1i32,
        }) && e@ == stderr@),
        exit_code == Some(0i32) && !json_accepts(stdout@) ==> (r matches Err(
            BridgeError::ProtocolError { output, .. },
        ) && output@ == stdout@),
        exit_code == Some(0i32) && json_accepts(stdout@) ==> match json_error_member(stdout@) {
            None => r is Ok,
            Some(Some(m)) => r matches Err(BridgeError::DomainError { message }) && message@ == m,
            Some(None) => r matches Err(BridgeError::DomainError { message }) && message@
                == unknown_error_text(),
        },
{
    match exit_code {
        Some(0i32) => {},
        _ => {
            let code: i32 = match exit_code {
                Some(c) => c,
                None => -1,
            };
            return Err(BridgeError::ProcessFailure { code, stderr: String::from_str(stderr) });
        },
    }
    match parse_json(stdout) {
        Err(reason) => Err(BridgeError::ProtocolError { reason, output: String::from_str(stdout) }),
        Ok(doc) => {
            let error = error_member(stdout);
            classify_document(doc, error)
        },
    }
}

/// A failed run's message shows the exit code in decimal and the whole error
/// text of the child, unchanged.
pub proof fn lemma_failure_message_shows_code_and_stderr(code: i32, stderr: String)
    ensures
        contains(BridgeError::ProcessFailure { code, stderr }.message_spec(), decimal(code as int)),
        contains(BridgeError::ProcessFailure { code, stderr }.message_spec(), stderr@),
{
    let head = "Python process failed: "@;
    let mid = " (stderr: "@;
    let tail = ")"@;
    let d = decimal(code as int);
    let m = BridgeError::ProcessFailure { code, stderr }.message_spec();
    assert(m =~= head + d + (mid + stderr@ + tail));
    lemma_contains_middle(head, d, mid + stderr@ + tail);
    assert(m =~= (head + d + mid) + stderr@ + tail);
    lemma_contains_middle(head + d + mid, stderr@, tail);
}

} // verus!
