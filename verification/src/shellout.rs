//! Interpretation of a finished shell command.
//!
//! The host runs git, php and composer as child processes; what comes back
//! is always the same triple — did it succeed, what it printed, what it
//! complained.  The rule for turning that triple into a caller-visible
//! result lives here, as does the check that an artisan command line holds
//! at least one word.

use vstd::prelude::*;

use crate::validate::is_blank;

verus! {

/// The caller-visible result of a finished command: its standard output on
/// success, its standard error as the error otherwise.
pub fn select_output(success: bool, stdout: String, stderr: String) -> (r: Result<String, String>)
    ensures
        success ==> r == Ok::<String, String>(stdout),
        !success ==> r == Err::<String, String>(stderr),
{
    if success {
        Ok(stdout)
    } else {
        Err(stderr)
    }
}

/// Refuses an artisan command line that holds no words at all — one that
/// splitting on whitespace would leave empty.  Any line with a word is
/// accepted; what the words mean is for artisan itself to judge.
pub fn validate_artisan_command(command: &str) -> (r: Result<(), String>)
    ensures
        r is Ok <==> !is_blank(command@),
        r matches Err(m) ==> m@ == "Empty command"@,
{
    if crate::validate::check_blank(command) {
        Err("Empty command".to_owned())
    } else {
        Ok(())
    }
}

} // verus!
