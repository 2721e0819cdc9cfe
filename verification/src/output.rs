//! Output sinks: exclusive-access destinations the layer writes rendered
//! records into.

use std::io::Write;
use vstd::prelude::*;
use vstd::rwlock::RwLock;
use vstd::rwlock::RwLockPredicate;
use vstd::string::StringExecFns;

verus! {

/// An exclusive-access destination for rendered log records.
///
/// One call carries all the lines of one logical record (the reprinted span
/// headers plus the line that triggered them), so that two records written
/// from different threads are never interleaved within one another.
pub trait Output {
    /// Writes one complete rendered record to the destination.
    fn write_record(&self, rec: &String);
}

/// An implementation of [`Output`] that writes to standard output.
#[derive(Debug, Clone, Copy, Eq, PartialEq)]
pub struct Stdout;

/// Relies on std's locked standard-output writer (`std::io::stdout`): writes
/// the bytes of `rec` there; a failed write is discarded.
#[verifier::external_body]
fn write_stdout(rec: &String) {
    let _ = std::io::stdout().lock().write_all(rec.as_bytes());
}

/// Relies on std's locked standard-error writer (`std::io::stderr`): writes
/// the bytes of `rec` there; a failed write is discarded.
#[verifier::external_body]
fn write_stderr(rec: &String) {
    let _ = std::io::stderr().lock().write_all(rec.as_bytes());
}

impl Output for Stdout {
    fn write_record(&self, rec: &String) {
        write_stdout(rec);
    }
}

/// An implementation of [`Output`] that writes to standard error.
#[derive(Debug, Clone, Copy, Eq, PartialEq)]
pub struct Stderr;

impl Output for Stderr {
    fn write_record(&self, rec: &String) {
        write_stderr(rec);
    }
}

/// The lock invariant of the buffer behind [`Memory`]: any text is allowed.
pub struct MemoryInv;

impl RwLockPredicate<String> for MemoryInv {
    open spec fn inv(self, v: String) -> bool {
        true
    }
}

/// An implementation of [`Output`] that appends records to an in-memory text
/// buffer behind a mutual-exclusion lock; useful for tests.
pub struct Memory {
    buffer: RwLock<String, MemoryInv>,
}

impl Memory {
    /// Builds a new [`Memory`] starting with the given buffer contents.
    pub fn new(buffer: String) -> Memory {
        Memory { buffer: RwLock::new(buffer, Ghost(MemoryInv)) }
    }

    /// Takes the text accumulated so far, leaving the buffer empty.
    pub fn take(&self) -> String {
        let (v, handle) = self.buffer.acquire_write();
        handle.release_write(String::new());
        v
    }
}

impl Output for Memory {
    fn write_record(&self, rec: &String) {
        let (mut v, handle) = self.buffer.acquire_write();
        v.append(rec.as_str());
        handle.release_write(v);
    }
}

} // verus!
