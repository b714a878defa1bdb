//! The trusted boundary to the operating system's pseudo-terminal
//! facility, through the portable_pty crate.
//!
//! Each handle type wraps one side of a pty as an opaque value: the
//! verified registry owns and routes the handles but never looks inside
//! them.  Each function below performs one operation of portable_pty or of
//! the I/O traits its handles implement, converting arguments and results
//! between plain values and the crate's types.  Nothing is promised of
//! outcomes the operating system decides: any of these calls may fail, and
//! the contracts only say what a success means.

use vstd::prelude::*;

use crate::errors::{IoError, SpawnError};

verus! {

/// The controlling side of a pty: reads the shell's output, changes the
/// window geometry the shell observes.
#[verifier::external_body]
pub struct MasterHandle {
    inner: Box<dyn portable_pty::MasterPty + Send>,
}

/// The subordinate side of a pty, to which a shell process is bound at
/// spawn time.
#[verifier::external_body]
pub struct SlaveHandle {
    inner: Box<dyn portable_pty::SlavePty + Send>,
}

/// The write side of a pty master: bytes written here reach the shell's
/// standard input.
#[verifier::external_body]
pub struct WriterHandle {
    inner: Box<dyn std::io::Write + Send>,
}

/// A cloned read handle on a pty master: the shell's output is read here.
/// It stays readable after the master is dropped, returning end of stream
/// or an error once the other side is gone.
#[verifier::external_body]
pub struct ReaderHandle {
    inner: Box<dyn std::io::Read + Send>,
}

/// Relies on `portable_pty::native_pty_system` and `PtySystem::openpty`: on
/// success a fresh master/slave pair with the requested geometry exists,
/// owned by the two returned handles.
#[verifier::external_body]
pub fn open_pty(rows: u16, cols: u16) -> (r: Result<(MasterHandle, SlaveHandle), SpawnError>) {
    let size = portable_pty::PtySize { rows, cols, pixel_width: 0, pixel_height: 0 };
    match portable_pty::native_pty_system().openpty(size) {
        Ok(pair) => Ok((
            MasterHandle { inner: pair.master },
            SlaveHandle { inner: pair.slave },
        )),
        Err(e) => Err(SpawnError { message: e.to_string() }),
    }
}

/// The spawned shell process itself, kept so that killing the session can
/// end the shell with bounded latency rather than waiting for it to notice
/// its handles are gone.
#[verifier::external_body]
pub struct ChildHandle {
    inner: Box<dyn portable_pty::Child + Send + Sync>,
}

/// Relies on `portable_pty::SlavePty::spawn_command`: on success the given
/// shell runs in the given working directory, bound to the subordinate side
/// of the pty, and the returned handle controls the spawned process.  The
/// subordinate handle is consumed either way.
#[verifier::external_body]
pub fn spawn_shell(slave: SlaveHandle, shell: &str, cwd: &str) -> (r: Result<
    ChildHandle,
    SpawnError,
>) {
    let mut cmd = portable_pty::CommandBuilder::new(shell);
    cmd.cwd(cwd);
    match slave.inner.spawn_command(cmd) {
        Ok(child) => Ok(ChildHandle { inner: child }),
        Err(e) => Err(SpawnError { message: e.to_string() }),
    }
}

/// Relies on `portable_pty::ChildKiller::kill`: on success the shell
/// process is dead or about to die — a hangup first, escalating if it is
/// ignored.  Failure includes a process that is already gone.
#[verifier::external_body]
pub fn kill_child(child: &mut ChildHandle) -> (r: Result<(), IoError>) {
    match child.inner.kill() {
        Ok(()) => Ok(()),
        Err(e) => Err(IoError { message: e.to_string() }),
    }
}

/// Relies on `portable_pty::Child::wait`: on return the shell process has
/// exited and is reaped.  The call blocks until then, so it is made only
/// after the process was told to die.
#[verifier::external_body]
pub fn wait_child(child: &mut ChildHandle) -> (r: Result<(), IoError>) {
    match child.inner.wait() {
        Ok(_status) => Ok(()),
        Err(e) => Err(IoError { message: e.to_string() }),
    }
}

/// Relies on `portable_pty::MasterPty::try_clone_reader`: on success the
/// returned handle reads the output stream of the pty.
#[verifier::external_body]
pub fn clone_reader(master: &MasterHandle) -> (r: Result<ReaderHandle, SpawnError>) {
    match master.inner.try_clone_reader() {
        Ok(reader) => Ok(ReaderHandle { inner: reader }),
        Err(e) => Err(SpawnError { message: e.to_string() }),
    }
}

/// Relies on `portable_pty::MasterPty::take_writer`: on success the
/// returned handle is the single write side of the pty — taking it twice
/// from one master is an error, so the registry takes it once, at creation.
#[verifier::external_body]
pub fn take_writer(master: &MasterHandle) -> (r: Result<WriterHandle, SpawnError>) {
    match master.inner.take_writer() {
        Ok(writer) => Ok(WriterHandle { inner: writer }),
        Err(e) => Err(SpawnError { message: e.to_string() }),
    }
}

/// Relies on `portable_pty::MasterPty::resize`: on success the kernel's
/// window size for the pty is the given geometry and the shell is told of
/// the change.
#[verifier::external_body]
pub fn resize_master(master: &MasterHandle, rows: u16, cols: u16) -> (r: Result<(), IoError>) {
    let size = portable_pty::PtySize { rows, cols, pixel_width: 0, pixel_height: 0 };
    match master.inner.resize(size) {
        Ok(()) => Ok(()),
        Err(e) => Err(IoError { message: e.to_string() }),
    }
}

/// Relies on `std::io::Write::write_all`: on success every byte of the
/// text, in order, was handed to the pty's input.
#[verifier::external_body]
pub fn write_bytes(writer: &mut WriterHandle, data: &str) -> (r: Result<(), IoError>) {
    match writer.inner.write_all(data.as_bytes()) {
        Ok(()) => Ok(()),
        Err(e) => Err(IoError { message: e.to_string() }),
    }
}

/// Relies on `std::io::Read::read` with a one-kilobyte buffer: a success
/// hands back the bytes read, in order, at most the buffer's worth; an
/// empty result means the stream has ended.  The call blocks until the
/// shell produces output, the stream ends, or the read fails.
#[verifier::external_body]
pub fn read_chunk(reader: &mut ReaderHandle) -> (r: Result<Vec<u8>, IoError>)
    ensures
        r matches Ok(v) ==> v@.len() <= 1024,
{
    let mut buf = [0u8; 1024];
    match reader.inner.read(&mut buf) {
        Ok(n) => Ok(buf[..n].to_vec()),
        Err(e) => Err(IoError { message: e.to_string() }),
    }
}

} // verus!
