//! The command surface: the synchronous entry points the host's dispatch
//! layer invokes.
//!
//! Each command is a thin wrapper over one registry operation; the only
//! behaviour beyond forwarding is turning the structured error into the
//! message string callers see.  Creating a session hands back the read
//! handle for its output stream: the host starts that session's reader
//! pump with it on a thread of its own.

use vstd::prelude::*;

use crate::pty::ReaderHandle;
use crate::registry::{SessionRegistry, SessionView};

verus! {

/// The host-managed state behind the command surface: the session
/// registry.  The host keeps one value of this type for the process and
/// serializes access to it; the commands below are its only mutators.
pub struct TerminalState {
    pub registry: SessionRegistry,
}

impl View for TerminalState {
    type V = Map<Seq<char>, SessionView>;

    open spec fn view(&self) -> Map<Seq<char>, SessionView> {
        self.registry@
    }
}

impl TerminalState {
    /// Well-formedness: the registry holds at most one session per id.
    pub open spec fn wf(&self) -> bool {
        self.registry.wf()
    }
}

impl Default for TerminalState {
    /// A state with no live sessions.
    fn default() -> (r: TerminalState)
        ensures
            r.wf(),
            r@ == Map::<Seq<char>, SessionView>::empty(),
    {
        TerminalState { registry: SessionRegistry::new() }
    }
}

/// Creates the session `id` with the given geometry, spawning the given
/// shell in the given working directory, and returns the read handle the
/// host's reader pump drains.  On failure nothing is registered and the
/// error message says what went wrong.
pub fn create_terminal(
    state: &mut TerminalState,
    id: &String,
    cols: u16,
    rows: u16,
    shell: &String,
    cwd: &String,
) -> (r: Result<ReaderHandle, String>)
    requires
        old(state).wf(),
    ensures
        final(state).wf(),
        r is Ok ==> final(state)@ == old(state)@.insert(id@, SessionView { rows, cols }),
        r is Err ==> final(state)@ == old(state)@,
{
    match state.registry.create(id, cols, rows, shell, cwd) {
        Ok(reader) => Ok(reader),
        Err(e) => Err(e.message),
    }
}

/// Sends text to the session's shell input.  An unknown id is a silent
/// success; a failure can only come from a live session's handle.
pub fn write_terminal(state: &mut TerminalState, id: &String, data: &String) -> (r: Result<
    (),
    String,
>)
    requires
        old(state).wf(),
    ensures
        final(state).wf(),
        final(state)@ == old(state)@,
        !old(state)@.contains_key(id@) ==> r is Ok,
        r is Err ==> old(state)@.contains_key(id@),
{
    match state.registry.write(id, data.as_str()) {
        Ok(()) => Ok(()),
        Err(e) => Err(e.message),
    }
}

/// Changes the session's window geometry.  An unknown id is a silent
/// success; on success against a live session the new geometry is
/// recorded, and the session itself lives on.
pub fn resize_terminal(state: &mut TerminalState, id: &String, cols: u16, rows: u16) -> (r: Result<
    (),
    String,
>)
    requires
        old(state).wf(),
    ensures
        final(state).wf(),
        !old(state)@.contains_key(id@) ==> r is Ok && final(state)@ == old(state)@,
        r is Ok && old(state)@.contains_key(id@) ==> final(state)@ == old(state)@.insert(
            id@,
            SessionView { rows, cols },
        ),
        r is Err ==> old(state)@.contains_key(id@) && final(state)@ == old(state)@,
{
    match state.registry.resize(id, cols, rows) {
        Ok(()) => Ok(()),
        Err(e) => Err(e.message),
    }
}

/// Kills the session `id`.  Always succeeds, and killing an id twice, or
/// an id that never existed, succeeds just the same: afterwards no session
/// with that id is live.
pub fn kill_terminal(state: &mut TerminalState, id: &String) -> (r: Result<(), String>)
    requires
        old(state).wf(),
    ensures
        final(state).wf(),
        r is Ok,
        final(state)@ == old(state)@.remove(id@),
{
    state.registry.kill(id);
    Ok(())
}

} // verus!
