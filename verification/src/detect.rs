//! Best-effort interpreter detection.
//!
//! Detection is an ordered, first-match-wins search: first an embedded
//! interpreter shipped next to the application's executable, then a list of
//! system command names (version-specific names before generic ones, the
//! platform launcher first where it exists), each accepted only when a probe
//! reports version 3.11 or higher. When nothing qualifies, a generic
//! platform-default command is returned as a last resort, flagged as coming
//! from no probe so callers re-validate it.
//!
//! Running an interpreter is the embedding application's work; it asks
//! [`Detector::next_action`] what to probe, feeds each probe's parsed report
//! into [`Detector::record_probe`], and stops at the first `Detection`.

use vstd::prelude::*;

use crate::version::{meets_minimum, spec_meets_minimum, PythonInfo};

verus! {

/// The file name of an interpreter bundled with the application.
pub fn python_exe_name(windows: bool) -> (r: String)
    ensures
        windows ==> r@ == "python.exe"@,
        !windows ==> r@ == "python3"@,
{
    if windows {
        String::from_str("python.exe")
    } else {
        String::from_str("python3")
    }
}

/// The generic platform-default command used as a last resort.
pub fn fallback_command(windows: bool) -> (r: String)
    ensures
        windows ==> r@ == "python"@,
        !windows ==> r@ == "python3"@,
{
    if windows {
        String::from_str("python")
    } else {
        String::from_str("python3")
    }
}

/// The directories searched for an embedded interpreter, relative to the
/// directory of the application's own executable, in order.
pub open spec fn spec_embedded_dirs() -> Seq<Seq<Seq<char>>> {
    seq![
        seq!["python"@],
        seq!["resources"@, "python"@],
        seq![".."@, "Resources"@, "python"@],
        seq!["_internal"@, "python"@],
        seq!["lib"@, "python"@],
    ]
}

/// The directories of [`spec_embedded_dirs`], each as its path segments.
pub fn embedded_dir_segments() -> (r: Vec<Vec<String>>)
    ensures
        r@.map_values(|d: Vec<String>| d@.map_values(|s: String| s@)) == spec_embedded_dirs(),
{
    let mut out: Vec<Vec<String>> = Vec::new();
    let mut d0: Vec<String> = Vec::new();
    d0.push(String::from_str("python"));
    out.push(d0);
    let mut d1: Vec<String> = Vec::new();
    d1.push(String::from_str("resources"));
    d1.push(String::from_str("python"));
    out.push(d1);
    let mut d2: Vec<String> = Vec::new();
    d2.push(String::from_str(".."));
    d2.push(String::from_str("Resources"));
    d2.push(String::from_str("python"));
    out.push(d2);
    let mut d3: Vec<String> = Vec::new();
    d3.push(String::from_str("_internal"));
    d3.push(String::from_str("python"));
    out.push(d3);
    let mut d4: Vec<String> = Vec::new();
    d4.push(String::from_str("lib"));
    d4.push(String::from_str("python"));
    out.push(d4);
    proof {
        assert(out@.map_values(|d: Vec<String>| d@.map_values(|s: String| s@))
            =~~= spec_embedded_dirs());
    }
    out
}

/// The ordered system command candidates: on the platform with the `py`
/// launcher, its version-specific invocations first; then version-specific
/// command names; generic names last.
pub open spec fn spec_system_candidates(windows: bool) -> Seq<Seq<char>> {
    if windows {
        seq![
            "py -3.11"@,
            "py -3.12"@,
            "py -3.13"@,
            "python3.11"@,
            "python3.12"@,
            "python3.13"@,
            "python3"@,
            "python"@,
        ]
    } else {
        seq!["python3.11"@, "python3.12"@, "python3.13"@, "python3"@, "python"@]
    }
}

/// Build the candidate list of [`spec_system_candidates`].
pub fn system_candidates(windows: bool) -> (r: Vec<String>)
    ensures
        r@.map_values(|s: String| s@) == spec_system_candidates(windows),
{
    let mut out: Vec<String> = Vec::new();
    if windows {
        out.push(String::from_str("py -3.11"));
        out.push(String::from_str("py -3.12"));
        out.push(String::from_str("py -3.13"));
    }
    out.push(String::from_str("python3.11"));
    out.push(String::from_str("python3.12"));
    out.push(String::from_str("python3.13"));
    out.push(String::from_str("python3"));
    out.push(String::from_str("python"));
    proof {
        assert(out@.map_values(|s: String| s@) =~~= spec_system_candidates(windows));
    }
    out
}

/// Pick the first of `paths` that exists, given the existence probe
/// `present` of each: the embedded-interpreter selection rule.
pub fn first_existing(paths: &Vec<String>, present: &Vec<bool>) -> (r: Option<usize>)
    requires
        paths@.len() == present@.len(),
    ensures
        (r is Some) == (exists|i: int| 0 <= i < present@.len() && present@[i]),
        r matches Some(j) ==> j < paths@.len() && present@[j as int] && (forall|k: int|
            0 <= k < j ==> !present@[k]),
{
    let n = present.len();
    let mut i: usize = 0;
    while i < n
        invariant
            i <= n,
            n == present@.len(),
            paths@.len() == present@.len(),
            forall|k: int| 0 <= k < i ==> !present@[k],
        decreases n - i,
    {
        if present[i] {
            return Some(i);
        }
        i += 1;
    }
    None
}

/// The interpreter a start or a probe uses: the explicit override when one
/// was given, the detected command otherwise.
pub fn resolve_interpreter(override_cmd: Option<String>, detected: String) -> (r: String)
    ensures
        override_cmd matches Some(c) ==> r@ == c@,
        override_cmd is None ==> r@ == detected@,
{
    match override_cmd {
        Some(c) => c,
        None => detected,
    }
}

/// The result of a detection: the command to use, and whether it came from a
/// qualifying probe. The last-resort fallback comes from no probe and may
/// not meet the version floor, so callers must re-validate it.
pub struct Detection {
    pub command: String,
    pub from_probe: bool,
}

/// What detection asks for next.
pub enum DetectAction {
    /// Probe this command with a version query and feed the parsed report to
    /// [`Detector::record_probe`].
    Probe(String),
    /// Detection is finished.
    Done(Detection),
}

/// The detection search: the embedded interpreter, if one was found on disk,
/// then the system candidates in order.
pub struct Detector {
    /// Candidates follow the platform-launcher ordering.
    pub windows: bool,
    /// The path of an embedded interpreter found next to the application, if
    /// any.
    pub embedded: Option<String>,
    /// The system command candidates, in probing order.
    pub candidates: Vec<String>,
    /// The next candidate to probe.
    pub pos: usize,
    /// The embedded interpreter (when there is one) has been probed and did
    /// not qualify.
    pub embedded_done: bool,
}

impl Detector {
    /// The candidate list belongs to the platform and the position is in
    /// range.
    pub open spec fn wf(&self) -> bool {
        &&& self.candidates@.map_values(|s: String| s@) == spec_system_candidates(self.windows)
        &&& self.pos <= self.candidates@.len()
        &&& (self.embedded is None ==> self.embedded_done)
    }

    /// The command the next probe would run.
    pub open spec fn spec_current(&self) -> Seq<char> {
        if !self.embedded_done {
            self.embedded.unwrap()@
        } else {
            self.candidates@[self.pos as int]@
        }
    }

    /// A probe is still pending.
    pub open spec fn spec_pending(&self) -> bool {
        !self.embedded_done || self.pos < self.candidates@.len()
    }

    /// Start a detection; `embedded` is the embedded interpreter path found
    /// on disk, if any.
    pub fn new(windows: bool, embedded: Option<String>) -> (d: Detector)
        ensures
            d.wf(),
            d.windows == windows,
            d.embedded == embedded,
            d.pos == 0,
            d.embedded_done == (embedded is None),
    {
        let embedded_done = embedded.is_none();
        Detector { windows, embedded, candidates: system_candidates(windows), pos: 0, embedded_done }
    }

    /// A probe is still pending.
    pub fn has_pending(&self) -> (b: bool)
        ensures
            b == self.spec_pending(),
    {
        !self.embedded_done || self.pos < self.candidates.len()
    }

    /// What to do next: probe the embedded interpreter, then each system
    /// candidate in order; when everything is exhausted, finish with the
    /// last-resort fallback, flagged as coming from no probe.
    pub fn next_action(&self) -> (a: DetectAction)
        requires
            self.wf(),
        ensures
            self.spec_pending() ==> (a matches DetectAction::Probe(c) && c@ == self.spec_current()),
            !self.spec_pending() ==> (a matches DetectAction::Done(d) && !d.from_probe && (
            self.windows ==> d.command@ == "python"@) && (!self.windows ==> d.command@
                == "python3"@)),
    {
        if !self.embedded_done {
            match &self.embedded {
                Some(path) => DetectAction::Probe(path.clone()),
                None => unreached(),
            }
        } else if self.pos < self.candidates.len() {
            DetectAction::Probe(self.candidates[self.pos].clone())
        } else {
            DetectAction::Done(Detection { command: fallback_command(self.windows), from_probe: false })
        }
    }

    /// Record what the pending probe reported. A report of version 3.11 or
    /// higher ends the search with that command, flagged as probed; anything
    /// else moves on to the next candidate. No command is ever accepted from
    /// a probe reporting a major version other than 3 or a minor below 11.
    pub fn record_probe(&mut self, info: &Option<PythonInfo>) -> (r: Option<Detection>)
        requires
            old(self).wf(),
            old(self).spec_pending(),
        ensures
            final(self).wf(),
            final(self).windows == old(self).windows,
            (r is Some) == (info matches Some(i) && spec_meets_minimum(i.major, i.minor)),
            r matches Some(d) ==> d.command@ == old(self).spec_current() && d.from_probe,
            r is None ==> (!old(self).embedded_done ==> final(self).embedded_done && final(self).pos
                == old(self).pos),
            r is None ==> (old(self).embedded_done ==> final(self).pos == old(self).pos + 1),
    {
        let qualifies = match info {
            Some(i) => meets_minimum(i.major, i.minor),
            None => false,
        };
        if qualifies {
            let command = if !self.embedded_done {
                match &self.embedded {
                    Some(path) => path.clone(),
                    None => unreached(),
                }
            } else {
                self.candidates[self.pos].clone()
            };
            Some(Detection { command, from_probe: true })
        } else {
            if !self.embedded_done {
                self.embedded_done = true;
            } else {
                let n = self.candidates.len();
                proof {
                    assert(self.pos < n);
                }
                self.pos = self.pos + 1;
            }
            None
        }
    }
}

} // verus!
