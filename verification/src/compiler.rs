//! Shader bookkeeping and compile/link validation.
//!
//! `ShaderCompiler` tracks the shader objects created so far, keyed by the
//! handle that the GPU command interface returned and the path of the source
//! file submitted for it. The set is never cleared: a repeated validation
//! sweep re-checks the same shaders by design.
//!
//! The GPU calls themselves (creating a shader, submitting source, querying
//! compile or link status and info logs) are performed by the caller, which
//! feeds the queried values into `check`, `check_program` and
//! `info_log_wanted` and prints the diagnostics those functions call for.

use vstd::prelude::*;
use vstd::string::StringExecFns;

verus! {

/// A shader object awaiting its compile-status check: the handle the GPU
/// interface returned for it, and the path of the source file it was built
/// from.
pub struct ShaderUnit {
    pub handle: u32,
    pub path: String,
}

/// Tracks created shader objects and decides the outcome of validation
/// sweeps over them.
pub struct ShaderCompiler {
    units: Vec<ShaderUnit>,
}

/// A sweep over queried compile statuses succeeds exactly when every status
/// reports success (the status value `1`).
pub open spec fn all_compiled(statuses: Seq<i32>) -> bool {
    forall|i: int| 0 <= i < statuses.len() ==> statuses[i] == 1
}

impl ShaderCompiler {
    /// The pending-check set: each created shader's handle with the
    /// characters of its source path, in creation order.
    pub closed spec fn pending(&self) -> Seq<(u32, Seq<char>)> {
        self.units@.map_values(|u: ShaderUnit| (u.handle, u.path@))
    }

    /// A fresh compiler with nothing awaiting a check.
    pub fn new() -> (c: ShaderCompiler)
        ensures
            c.pending() == Seq::<(u32, Seq<char>)>::empty(),
    {
        let c = ShaderCompiler { units: Vec::new() };
        proof {
            assert(c.pending() =~= Seq::<(u32, Seq<char>)>::empty());
        }
        c
    }

    /// Registers a newly created shader object in the pending-check set and
    /// hands its handle back. The caller has already created the shader on
    /// the GPU interface, submitted its source and triggered compilation;
    /// no success or failure is observed here — status is read later by a
    /// `check` sweep.
    pub fn create(&mut self, shader_handle: u32, file_name: &str) -> (handle: u32)
        ensures
            handle == shader_handle,
            final(self).pending() == old(self).pending().push((shader_handle, file_name@)),
    {
        let path = String::from_str(file_name);
        self.units.push(ShaderUnit { handle: shader_handle, path });
        proof {
            assert(self.pending() =~= old(self).pending().push((shader_handle, file_name@)));
        }
        shader_handle
    }

    /// How many shaders await a compile-status check.
    pub fn num_pending(&self) -> (n: usize)
        ensures
            n == self.pending().len(),
    {
        self.units.len()
    }

    /// The handle of the pending shader at position `i`.
    pub fn handle_at(&self, i: usize) -> (handle: u32)
        requires
            i < self.pending().len(),
        ensures
            handle == self.pending()[i as int].0,
    {
        self.units[i].handle
    }

    /// The source path of the pending shader at position `i`.
    pub fn path_at(&self, i: usize) -> (path: &str)
        requires
            i < self.pending().len(),
        ensures
            path@ == self.pending()[i as int].1,
    {
        self.units[i].path.as_str()
    }

    /// Aggregates a validation sweep: `statuses[i]` is the compile status
    /// the caller queried for the `i`-th pending shader. The sweep succeeds
    /// exactly when every pending shader compiled; a single failure does not
    /// stop the sweep, so diagnostics for every shader are still gathered by
    /// the caller.
    pub fn check(&self, statuses: &Vec<i32>) -> (ok: bool)
        requires
            statuses@.len() == self.pending().len(),
        ensures
            ok <==> all_compiled(statuses@),
    {
        let mut success = true;
        let mut i: usize = 0;
        while i < statuses.len()
            invariant
                i <= statuses@.len(),
                success <==> (forall|j: int| 0 <= j < i ==> statuses@[j] == 1),
            decreases statuses@.len() - i,
        {
            success = success && statuses[i] == 1;
            i += 1;
        }
        success
    }

    /// Whether a link-status query should be issued for a program handle at
    /// all: the zero handle never names a valid program, so it is rejected
    /// without any query.
    pub fn status_query_needed(&self, program_name: u32) -> (needed: bool)
        ensures
            needed <==> program_name != 0,
    {
        program_name != 0
    }

    /// The outcome of program validation: the zero handle fails outright
    /// (no status was ever queried for it, see `status_query_needed`), and
    /// otherwise the program is valid exactly when the queried link status
    /// reports success.
    pub fn check_program(&self, program_name: u32, link_status: i32) -> (ok: bool)
        ensures
            ok <==> program_name != 0 && link_status == 1,
    {
        if program_name == 0 {
            return false;
        }
        link_status == 1
    }
}

/// Whether an info log should be retrieved and printed for a shader or
/// program: only after a failed status, and only when the reported log
/// length is positive — a zero-length log suppresses retrieval entirely.
pub fn info_log_wanted(status: i32, info_log_length: i32) -> (wanted: bool)
    ensures
        wanted <==> status != 1 && info_log_length > 0,
{
    status != 1 && info_log_length > 0
}

/// The source text to submit for a shader: the file's contents where the
/// read succeeded, and otherwise a sentinel that names the missing file, so
/// that a handle is always produced and the failure surfaces through the
/// compiler's own diagnostic channel instead of an early abort.
pub fn source_or_fallback(file_name: &str, contents: Option<String>) -> (source: String)
    ensures
        source@ == match contents {
            Some(text) => text@,
            None => "File "@ + file_name@ + " not found"@,
        },
{
    match contents {
        Some(text) => text,
        None => {
            let mut sentinel = String::from_str("File ");
            sentinel.append(file_name);
            sentinel.append(" not found");
            sentinel
        },
    }
}

} // verus!
