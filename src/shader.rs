//! Shader programs that recompile when their source files change.
//!
//! Reading file metadata and compiling are left to the caller; this module
//! decides when a recompilation is due and what a unit holds afterwards.
//! Modification times are nanoseconds since the Unix epoch.
use vstd::prelude::*;

verus! {

/// Relies on `String::push_str`: appends `tail` to `s`.
#[verifier::external_body]
fn append(s: &mut String, tail: &str)
    ensures
        final(s)@ == old(s)@ + tail@,
{
    s.push_str(tail);
}

/// Source path of the fragment shader of unit `name`: `shaders/<name>.frag`,
/// or `shaders/<name>_shadowmap.frag` for the shadow-pass variant.
pub open spec fn frag_path_of(name: Seq<char>, shadowmap: bool) -> Seq<char> {
    if shadowmap {
        "shaders/"@ + name + "_shadowmap.frag"@
    } else {
        "shaders/"@ + name + ".frag"@
    }
}

/// Source path of the vertex shader of unit `name`: `shaders/<name>.vert`.
pub open spec fn vert_path_of(name: Seq<char>) -> Seq<char> {
    "shaders/"@ + name + ".vert"@
}

/// The fragment and vertex source paths of unit `name`.
pub fn shader_paths(name: &str, shadowmap: bool) -> (r: (String, String))
    ensures
        r.0@ == frag_path_of(name@, shadowmap),
        r.1@ == vert_path_of(name@),
{
    let mut frag = "shaders/".to_owned();
    append(&mut frag, name);
    if shadowmap {
        append(&mut frag, "_shadowmap.frag");
    } else {
        append(&mut frag, ".frag");
    }
    let mut vert = "shaders/".to_owned();
    append(&mut vert, name);
    append(&mut vert, ".vert");
    (frag, vert)
}

/// The later of two modification times.
pub open spec fn max_time(a: u128, b: u128) -> u128 {
    if a >= b {
        a
    } else {
        b
    }
}

/// The change time of a unit: the newer of its two sources' modification
/// times, or nothing when either could not be read.
pub fn get_shader_change_time(frag_time: Option<u128>, vert_time: Option<u128>) -> (r: Option<
    u128,
>)
    ensures
        r == (match (frag_time, vert_time) {
            (Some(f), Some(v)) => Some(max_time(f, v)),
            _ => None,
        }),
{
    match (frag_time, vert_time) {
        (Some(f), Some(v)) => Some(if f >= v {
            f
        } else {
            v
        }),
        _ => None,
    }
}

/// The time to recompile for, given the time the program was built from and
/// the change time just observed: only a newer change calls for it.
pub open spec fn stale_time(program_time: u128, observed: Option<u128>) -> Option<u128> {
    match observed {
        Some(t) => if t > program_time {
            Some(t)
        } else {
            None
        },
        None => None,
    }
}

/// A compiled program (of any handle type) and the sources it was built from.
pub struct Shader<P> {
    pub program: P,
    /// Change time of the sources when `program` was compiled.
    pub program_time: u128,
    pub frag_path: String,
    pub vert_path: String,
}

impl<P> Shader<P> {
    /// A unit around a freshly compiled program.
    pub fn new(program: P, program_time: u128, frag_path: String, vert_path: String) -> (r: Self)
        ensures
            r.program == program,
            r.program_time == program_time,
            r.frag_path@ == frag_path@,
            r.vert_path@ == vert_path@,
    {
        Shader { program, program_time, frag_path, vert_path }
    }

    /// Whether to recompile, and for which change time, given the change
    /// time observed this frame (`None` when the sources could not be read).
    pub fn reload_target(&self, observed: Option<u128>) -> (r: Option<u128>)
        ensures
            r == stale_time(self.program_time, observed),
    {
        match observed {
            Some(t) => if t > self.program_time {
                Some(t)
            } else {
                None
            },
            None => None,
        }
    }

    /// Takes in the outcome of a recompilation for change time `new_time`.
    /// A new program replaces the old one together with its time; on failure
    /// the unit is left exactly as it was and the error is handed back for
    /// reporting, so that the next check tries again.
    pub fn finish_reload<E>(&mut self, new_time: u128, outcome: Result<P, E>) -> (r: Option<E>)
        ensures
            match outcome {
                Ok(p) => {
                    &&& r is None
                    &&& final(self).program == p
                    &&& final(self).program_time == new_time
                    &&& final(self).frag_path == old(self).frag_path
                    &&& final(self).vert_path == old(self).vert_path
                },
                Err(e) => {
                    &&& r == Some(e)
                    &&& *final(self) == *old(self)
                },
            },
    {
        match outcome {
            Ok(p) => {
                self.program = p;
                self.program_time = new_time;
                None
            },
            Err(e) => Some(e),
        }
    }
}

/// Program time of a unit after one check: the observed change time when a
/// recompilation was due and succeeded, the old time otherwise.
pub open spec fn time_after_check(program_time: u128, observed: Option<u128>, compiled: bool) -> u128 {
    match stale_time(program_time, observed) {
        Some(t) => if compiled {
            t
        } else {
            program_time
        },
        None => program_time,
    }
}

/// Checking twice with no change in between: once the first check has left
/// a working program (nothing was due, or the recompilation succeeded), the
/// second check calls for no recompilation. A newer change time (a touched
/// file, even with the same content) calls for exactly one.
pub proof fn lemma_reload_idempotent(program_time: u128, observed: Option<u128>, newer: u128)
    requires
        newer > program_time,
    ensures
        stale_time(time_after_check(program_time, observed, true), observed) is None,
        stale_time(program_time, Some(newer)) == Some(newer),
        stale_time(time_after_check(program_time, Some(newer), true), Some(newer)) is None,
{
}

/// A failed recompilation is retried at the next check with the same
/// observation, since the unit keeps its old time.
pub proof fn lemma_failed_reload_retried(program_time: u128, observed: Option<u128>)
    ensures
        time_after_check(program_time, observed, false) == program_time,
        stale_time(time_after_check(program_time, observed, false), observed) == stale_time(
            program_time,
            observed,
        ),
{
}

} // verus!
