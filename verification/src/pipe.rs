//! The guest log channel: a unidirectional byte pipe with its capacity
//! raised to 1 MiB (the default OS capacity is too small for verbose
//! kernel logs and would stall the guest) and both ends set non-blocking,
//! plus a drain-until-empty read primitive that consumes exactly the
//! bytes currently buffered without waiting for more.

use vstd::prelude::*;

use std::io::Read;

use crate::fatal::{fatal_with, Fatal, FatalClass};

verus! {

#[verifier::external_type_specification]
#[verifier::external_body]
pub struct ExPipeReader(os_pipe::PipeReader);

#[verifier::external_type_specification]
#[verifier::external_body]
pub struct ExPipeWriter(os_pipe::PipeWriter);

/// Capacity the guest log channel is raised to.
pub const LINUX_QEMU_PIPE_LEN: i32 = 1024 * 1024;

/// Size of one read chunk while draining.
pub const DRAIN_CHUNK_LEN: usize = 4096;

/// Upper bound on read rounds of one drain: far more than the channel can
/// hold, so an empty read is always reached unless a writer floods the
/// channel faster than it is drained.
pub const DRAIN_MAX_ROUNDS: u32 = 4096;

/// Relies on `os_pipe::pipe`: creates a unidirectional pipe and returns
/// its (read, write) ends.
#[verifier::external_body]
fn pipe_new() -> (r: Result<(os_pipe::PipeReader, os_pipe::PipeWriter), String>) {
    match os_pipe::pipe() {
        Ok(p) => Ok(p),
        Err(e) => Err(format!("{}", e)),
    }
}

/// Relies on `nix::fcntl::fcntl` with `F_SETPIPE_SZ`: sets the pipe's
/// buffer capacity to at least `len` bytes.
#[verifier::external_body]
fn pipe_set_capacity(wp: &os_pipe::PipeWriter, len: i32) -> (r: Result<(), String>) {
    match nix::fcntl::fcntl(wp, nix::fcntl::FcntlArg::F_SETPIPE_SZ(len)) {
        Ok(_) => Ok(()),
        Err(e) => Err(format!("{}", e)),
    }
}

/// Relies on `nix::fcntl::fcntl` with `F_SETFL(O_NONBLOCK)`: makes reads
/// from the pipe's read end fail with `WouldBlock` instead of waiting.
#[verifier::external_body]
fn pipe_reader_nonblocking(rp: &os_pipe::PipeReader) -> (r: Result<(), String>) {
    match nix::fcntl::fcntl(rp, nix::fcntl::FcntlArg::F_SETFL(nix::fcntl::OFlag::O_NONBLOCK)) {
        Ok(_) => Ok(()),
        Err(e) => Err(format!("{}", e)),
    }
}

/// Relies on `nix::fcntl::fcntl` with `F_SETFL(O_NONBLOCK)`: makes writes
/// to the pipe's write end fail with `WouldBlock` instead of waiting.
#[verifier::external_body]
fn pipe_writer_nonblocking(wp: &os_pipe::PipeWriter) -> (r: Result<(), String>) {
    match nix::fcntl::fcntl(wp, nix::fcntl::FcntlArg::F_SETFL(nix::fcntl::OFlag::O_NONBLOCK)) {
        Ok(_) => Ok(()),
        Err(e) => Err(format!("{}", e)),
    }
}

/// Relies on `os_pipe::PipeWriter::try_clone`: duplicates the write end,
/// so the guest's standard output and standard error can both feed the
/// same channel.
#[verifier::external_body]
pub fn pipe_writer_clone(wp: &os_pipe::PipeWriter) -> (r: Result<os_pipe::PipeWriter, String>) {
    match wp.try_clone() {
        Ok(w) => Ok(w),
        Err(e) => Err(format!("{}", e)),
    }
}

/// What one non-blocking read step yielded.
pub enum ReadStep {
    /// `n` bytes were received into the front of the buffer.
    Data(usize),
    /// Nothing is buffered; a blocking read would have waited.
    Empty,
    /// The channel is closed and fully consumed.
    Closed,
    /// The read failed for another reason.
    Failed(String),
}

/// Relies on `std::io::Read::read` through `os_pipe`'s `Read` impl for
/// `&PipeReader` (reads go through a shared handle): receives at most
/// `buf.len()` buffered bytes into the front of `buf`; 0 bytes means end
/// of stream, and `WouldBlock` means nothing is buffered right now.
#[verifier::external_body]
fn pipe_read_step(rp: &os_pipe::PipeReader, buf: &mut Vec<u8>) -> (r: ReadStep)
    ensures
        final(buf)@.len() == old(buf)@.len(),
        r matches ReadStep::Data(n) ==> 1 <= n <= final(buf)@.len(),
{
    let mut h = rp;
    match h.read(buf.as_mut_slice()) {
        Ok(0) => ReadStep::Closed,
        Ok(n) => ReadStep::Data(n),
        Err(e) => {
            if e.kind() == std::io::ErrorKind::WouldBlock {
                ReadStep::Empty
            } else {
                ReadStep::Failed(format!("{}", e))
            }
        },
    }
}

/// Relies on `std::io::Read::read_to_string` through `os_pipe`'s `Read`
/// impl for `&PipeReader`: reads the stream to its end and returns
/// everything as one string, or the error text when the stream is not
/// UTF-8 or a read fails.
#[verifier::external_body]
pub fn pipe_read_all(rp: &os_pipe::PipeReader) -> (r: Result<String, String>) {
    let mut s = String::new();
    let mut h = rp;
    match h.read_to_string(&mut s) {
        Ok(_) => Ok(s),
        Err(e) => Err(format!("{}", e)),
    }
}

/// Creates the enlarged, non-blocking guest log channel: a fresh pipe with
/// its capacity raised to [`LINUX_QEMU_PIPE_LEN`] and both ends set
/// non-blocking. Any failure to create or configure it is an OS-level
/// unrecoverable failure.
pub fn long_pipe() -> (r: Result<(os_pipe::PipeReader, os_pipe::PipeWriter), Fatal>)
    ensures
        r is Err ==> r->Err_0.class == FatalClass::Os,
{
    let (rp, wp) = match pipe_new() {
        Ok(p) => p,
        Err(e) => {
            return Err(fatal_with(FatalClass::Os, "Fail to creat pipe:", e));
        },
    };
    match pipe_set_capacity(&wp, LINUX_QEMU_PIPE_LEN) {
        Ok(_) => {},
        Err(e) => {
            return Err(fatal_with(FatalClass::Os, "Fail to set pipe size:", e));
        },
    }
    match pipe_writer_nonblocking(&wp) {
        Ok(_) => {},
        Err(e) => {
            return Err(fatal_with(FatalClass::Os, "Fail to set flag on pipe:", e));
        },
    }
    match pipe_reader_nonblocking(&rp) {
        Ok(_) => {},
        Err(e) => {
            return Err(fatal_with(FatalClass::Os, "Fail to set flag on pipe:", e));
        },
    }
    Ok((rp, wp))
}

/// Appends onto `out`, in order, the `n` bytes a read step received into
/// the front of `buf`: exactly `buf[0 .. n]`, nothing else.
fn absorb_chunk(out: &mut Vec<u8>, buf: &Vec<u8>, n: usize)
    requires
        n <= buf@.len(),
    ensures
        final(out)@ == old(out)@ + buf@.subrange(0, n as int),
{
    let mut i: usize = 0;
    proof {
        assert(out@ =~= old(out)@ + buf@.subrange(0, 0));
    }
    while i < n
        invariant
            i <= n <= buf@.len(),
            out@ == old(out)@ + buf@.subrange(0, i as int),
        decreases n - i,
    {
        out.push(buf[i]);
        proof {
            assert(buf@.subrange(0, i + 1 as int) =~= buf@.subrange(0, i as int).push(buf@[i as int]));
            assert(out@ =~= old(out)@ + buf@.subrange(0, i + 1 as int));
        }
        i += 1;
    }
}

/// Drain-until-empty: repeatedly reads whatever is buffered into a
/// growable result until a read would block (or the channel is closed),
/// then returns exactly the bytes read so far — the concatenation, in
/// order, of the chunks the read steps received, each absorbed whole by
/// [`absorb_chunk`]. On a channel with nothing buffered this returns an
/// empty result without waiting.
pub fn read_until_block(rp: &os_pipe::PipeReader) -> (r: Result<Vec<u8>, Fatal>)
    ensures
        r is Err ==> r->Err_0.class == FatalClass::Os,
{
    let mut out: Vec<u8> = Vec::new();
    let mut buf: Vec<u8> = vec![0u8; DRAIN_CHUNK_LEN];
    let mut rounds: u32 = 0;
    while rounds < DRAIN_MAX_ROUNDS
        invariant
            buf@.len() == DRAIN_CHUNK_LEN,
        decreases DRAIN_MAX_ROUNDS - rounds,
    {
        match pipe_read_step(rp, &mut buf) {
            ReadStep::Data(n) => {
                absorb_chunk(&mut out, &buf, n);
            },
            ReadStep::Empty => {
                return Ok(out);
            },
            ReadStep::Closed => {
                return Ok(out);
            },
            ReadStep::Failed(e) => {
                return Err(fatal_with(FatalClass::Os, "Fail to read pipe:", e));
            },
        }
        rounds += 1;
    }
    Ok(out)
}

} // verus!
