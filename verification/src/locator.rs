//! Probing an ordered list of candidate paths for a responding binary.
//!
//! The shim looks for the `ollama` binary by invoking each candidate path
//! with a version flag and taking the first one whose probe process exits
//! successfully. Spawning the probes is left to the caller: a [`Locator`]
//! hands out the next path to try and is told whether the probe succeeded,
//! so the caller stops probing as soon as one candidate responds.
use vstd::prelude::*;

verus! {

/// The fixed candidate paths, in probe order: the bare name resolved on the
/// search path, then the common install locations.
pub open spec fn default_candidates_spec() -> Seq<Seq<char>> {
    seq!["ollama"@, "/usr/local/bin/ollama"@, "/opt/homebrew/bin/ollama"@]
}

/// Builds the fixed candidate path list probed for the binary.
pub fn default_candidates() -> (r: Vec<String>)
    ensures
        r.deep_view() == default_candidates_spec(),
{
    let mut v: Vec<String> = Vec::new();
    v.push(String::from_str("ollama"));
    v.push(String::from_str("/usr/local/bin/ollama"));
    v.push(String::from_str("/opt/homebrew/bin/ollama"));
    proof {
        assert(v.deep_view() =~= default_candidates_spec());
    }
    v
}

/// Index of the first successful outcome in a sequence of probe outcomes,
/// if any probe succeeded.
pub open spec fn first_success(oks: Seq<bool>) -> Option<int>
    decreases oks.len(),
{
    if oks.len() == 0 {
        None
    } else if oks[0] {
        Some(0)
    } else {
        match first_success(oks.skip(1)) {
            Some(i) => Some(i + 1),
            None => None,
        }
    }
}

/// If every probe fails, no candidate is selected.
pub proof fn lemma_no_success(oks: Seq<bool>)
    requires
        forall|j: int| 0 <= j < oks.len() ==> !oks[j],
    ensures
        first_success(oks) is None,
    decreases oks.len(),
{
    if oks.len() > 0 {
        assert(forall|j: int| 0 <= j < oks.skip(1).len() ==> !oks.skip(1)[j]);
        lemma_no_success(oks.skip(1));
    }
}

/// The first successful probe selects its candidate: if probe `i` succeeds
/// and every earlier probe failed, the locator picks index `i`.
pub proof fn lemma_first_success_at(oks: Seq<bool>, i: int)
    requires
        0 <= i < oks.len(),
        oks[i],
        forall|j: int| 0 <= j < i ==> !oks[j],
    ensures
        first_success(oks) == Some(i),
    decreases i,
{
    if i > 0 {
        assert(forall|j: int| 0 <= j < i - 1 ==> !oks.skip(1)[j]);
        lemma_first_success_at(oks.skip(1), i - 1);
    }
}

/// Walks an ordered list of candidate paths, handing out one candidate at a
/// time to be probed and recording each probe's outcome, until a probe
/// succeeds or the candidates run out.
pub struct Locator {
    candidates: Vec<String>,
    next: usize,
    outcomes: Ghost<Seq<bool>>,
}

impl Locator {
    /// Views of the candidate paths, in probe order.
    pub closed spec fn candidates_view(self) -> Seq<Seq<char>> {
        self.candidates.deep_view()
    }

    /// Outcomes of the probes recorded so far, in probe order.
    pub closed spec fn outcomes_view(self) -> Seq<bool> {
        self.outcomes@
    }

    /// One outcome has been recorded for each candidate handed out so far.
    pub closed spec fn wf(self) -> bool {
        self.next == self.outcomes@.len() && self.next <= self.candidates.len()
    }

    /// Starts a probe walk over the given candidates.
    pub fn new(candidates: Vec<String>) -> (l: Locator)
        ensures
            l.wf(),
            l.candidates_view() == candidates.deep_view(),
            l.outcomes_view() == Seq::<bool>::empty(),
    {
        Locator { candidates, next: 0, outcomes: Ghost(Seq::empty()) }
    }

    /// The next candidate to probe, or `None` once every candidate has been
    /// probed without success.
    pub fn pending(&self) -> (r: Option<String>)
        requires
            self.wf(),
        ensures
            match r {
                Some(p) => self.outcomes_view().len() < self.candidates_view().len()
                    && p@ == self.candidates_view()[self.outcomes_view().len() as int],
                None => self.outcomes_view().len() == self.candidates_view().len(),
            },
    {
        if self.next < self.candidates.len() {
            Some(self.candidates[self.next].clone())
        } else {
            None
        }
    }

    /// Records the outcome of probing the pending candidate. On success the
    /// probed path is returned and the walk is over; on failure the walk
    /// moves to the next candidate.
    pub fn record_probe(&mut self, ok: bool) -> (r: Option<String>)
        requires
            old(self).wf(),
            old(self).outcomes_view().len() < old(self).candidates_view().len(),
        ensures
            final(self).wf(),
            final(self).candidates_view() == old(self).candidates_view(),
            final(self).outcomes_view() == old(self).outcomes_view().push(ok),
            match r {
                Some(p) => ok && p@ == old(self).candidates_view()[old(self).outcomes_view().len() as int],
                None => !ok,
            },
    {
        let r = if ok {
            Some(self.candidates[self.next].clone())
        } else {
            None
        };
        self.next = self.next + 1;
        proof {
            self.outcomes@ = self.outcomes@.push(ok);
        }
        r
    }
}

/// Resolves the first candidate path whose probe succeeded, given one probe
/// outcome per candidate. Outcomes after the first success are not examined.
pub fn get_ollama_path(candidates: Vec<String>, probe_ok: &Vec<bool>) -> (r: Option<String>)
    requires
        candidates@.len() == probe_ok@.len(),
    ensures
        first_success(probe_ok@) matches Some(i) ==> (r matches Some(p) && p@
            == candidates.deep_view()[i]),
        first_success(probe_ok@) is None ==> r is None,
{
    let n = probe_ok.len();
    let mut loc = Locator::new(candidates);
    let mut i: usize = 0;
    while i < n
        invariant
            n == probe_ok@.len(),
            loc.wf(),
            loc.candidates_view() == candidates.deep_view(),
            loc.candidates_view().len() == n,
            i == loc.outcomes_view().len(),
            i <= n,
            loc.outcomes_view() == probe_ok@.take(i as int),
            forall|j: int| 0 <= j < i ==> !probe_ok@[j],
        decreases n - i,
    {
        let ok = probe_ok[i];
        let picked = loc.record_probe(ok);
        proof {
            assert(probe_ok@.take(i as int).push(ok) =~= probe_ok@.take(i as int + 1));
        }
        match picked {
            Some(p) => {
                proof {
                    lemma_first_success_at(probe_ok@, i as int);
                }
                return Some(p);
            },
            None => {},
        }
        i = i + 1;
    }
    proof {
        assert(probe_ok@.take(n as int) =~= probe_ok@);
        lemma_no_success(probe_ok@);
    }
    None
}

} // verus!
