//! The command dispatcher: the fixed table from framework tag to scaffolding
//! command, and the interpretation of what came back from running one.

use vstd::prelude::*;
use crate::errors::ErrorKind;

verus! {

/// The fixed command for a framework tag: the whole table of supported
/// scaffolds. Any tag outside it is unsupported.
pub open spec fn command_spec(framework: Seq<char>) -> Option<Seq<char>> {
    if framework == "Next"@ {
        Some("npx create-next-app@latest my-next-project"@)
    } else if framework == "React"@ {
        Some("npx create-react-app my-react-app"@)
    } else if framework == "Angular"@ {
        Some("npx @angular/cli new my-angular-app"@)
    } else if framework == "HTML"@ {
        Some("mkdir my-html-project && touch index.html"@)
    } else {
        None
    }
}

/// Each supported framework tag maps to exactly one fixed command string: the
/// four entries of the table, written out.
pub proof fn lemma_command_table()
    ensures
        command_spec("Next"@) == Some("npx create-next-app@latest my-next-project"@),
        command_spec("React"@) == Some("npx create-react-app my-react-app"@),
        command_spec("Angular"@) == Some("npx @angular/cli new my-angular-app"@),
        command_spec("HTML"@) == Some("mkdir my-html-project && touch index.html"@),
{
    reveal_strlit("Next");
    reveal_strlit("React");
    reveal_strlit("Angular");
    reveal_strlit("HTML");
    assert("Next"@.len() == 4 && "React"@.len() == 5 && "Angular"@.len() == 7
        && "HTML"@.len() == 4);
    assert("HTML"@[0] == 'H' && "Next"@[0] == 'N');
}

/// The table is total only over the enumerated set: any other tag is rejected.
pub proof fn lemma_unsupported_rejected(framework: Seq<char>)
    requires
        framework != "Next"@,
        framework != "React"@,
        framework != "Angular"@,
        framework != "HTML"@,
    ensures
        command_spec(framework) is None,
{
}

/// Looks the framework tag up in the table. A supported tag yields exactly its
/// fixed command string; any other tag is rejected, so the caller spawns
/// nothing for it.
pub fn command_for_framework(framework: &str) -> (r: Result<String, ErrorKind>)
    ensures
        command_spec(framework@) matches Some(cmd) ==> (r matches Ok(s) && s@ == cmd),
        command_spec(framework@) is None ==> (r matches Err(e) && e matches
            ErrorKind::UnsupportedFramework),
{
    let f: String = framework.to_owned();
    if f == String::from_str("Next") {
        Ok(String::from_str("npx create-next-app@latest my-next-project"))
    } else if f == String::from_str("React") {
        Ok(String::from_str("npx create-react-app my-react-app"))
    } else if f == String::from_str("Angular") {
        Ok(String::from_str("npx @angular/cli new my-angular-app"))
    } else if f == String::from_str("HTML") {
        Ok(String::from_str("mkdir my-html-project && touch index.html"))
    } else {
        Err(ErrorKind::UnsupportedFramework)
    }
}

/// What came back from attempting to run a shell command.
pub enum SpawnOutcome {
    /// The process ran to completion, with its exit information and captured
    /// standard output.
    Spawned { success: bool, code: Option<i32>, stdout: Vec<u8> },
    /// The operating system could not start the process; carries the OS error
    /// text.
    Failed { os_error: String },
}

/// The text that lossy UTF-8 decoding yields for a byte sequence.
pub uninterp spec fn utf8_lossy(bytes: Seq<u8>) -> Seq<char>;

/// Relies on String::from_utf8_lossy: the decoding depends on the bytes alone,
/// replacing invalid sequences with the replacement character, and an empty
/// input decodes to the empty string.
#[verifier::external_body]
fn utf8_lossy_string(bytes: &Vec<u8>) -> (r: String)
    ensures
        r@ == utf8_lossy(bytes@),
        bytes@.len() == 0 ==> r@.len() == 0,
{
    String::from_utf8_lossy(bytes.as_slice()).into_owned()
}

/// Turns the outcome of running a scaffolding command into the dispatcher's
/// result: a spawn failure surfaces the OS error; a non-zero exit fails with
/// the exit code and discards whatever was captured; a zero exit returns the
/// captured standard output decoded as text.
pub fn interpret_spawn(outcome: SpawnOutcome) -> (r: Result<String, ErrorKind>)
    ensures
        outcome matches SpawnOutcome::Failed { os_error } ==> (r matches Err(e)
            && e matches ErrorKind::SpawnError(m) && m@ == os_error@),
        outcome matches SpawnOutcome::Spawned { success, stdout, .. } ==> (success ==> (r
            matches Ok(s) && s@ == utf8_lossy(stdout@))),
        outcome matches SpawnOutcome::Spawned { success, code, .. } ==> (!success ==> (r
            matches Err(e) && e matches ErrorKind::CommandFailed(c) && c == code)),
{
    match outcome {
        SpawnOutcome::Failed { os_error } => Err(ErrorKind::SpawnError(os_error)),
        SpawnOutcome::Spawned { success, code, stdout } => {
            if success {
                Ok(utf8_lossy_string(&stdout))
            } else {
                Err(ErrorKind::CommandFailed(code))
            }
        },
    }
}

} // verus!
