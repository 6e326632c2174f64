//! One polling cycle over the configured targets: the per-cycle result
//! mapping and the function that collects one classified result per target.

use vstd::prelude::*;
use crate::probe::{HealthCheckResult, ProbeOutcome, classify_probe, spec_classify};

verus! {

/// No two entries share a URL.
pub open spec fn unique_keys(s: Seq<(String, HealthCheckResult)>) -> bool {
    forall|i: int, j: int| 0 <= i < j < s.len() ==> s[i].0@ != s[j].0@
}

/// Some entry has this URL.
pub open spec fn contains_key(s: Seq<(String, HealthCheckResult)>, url: Seq<char>) -> bool {
    exists|i: int| 0 <= i < s.len() && s[i].0@ == url
}

/// The result recorded under a URL, if any.
pub open spec fn spec_lookup(
    s: Seq<(String, HealthCheckResult)>,
    url: Seq<char>,
) -> Option<HealthCheckResult>
    decreases s.len(),
{
    if s.len() == 0 {
        None
    } else if s.last().0@ == url {
        Some(s.last().1)
    } else {
        spec_lookup(s.drop_last(), url)
    }
}

/// The results of one polling cycle: one entry per configured target, keyed
/// by URL, in the order the targets were probed.
pub struct HealthCycleResults {
    entries: Vec<(String, HealthCheckResult)>,
}

impl View for HealthCycleResults {
    type V = Seq<(String, HealthCheckResult)>;

    closed spec fn view(&self) -> Seq<(String, HealthCheckResult)> {
        self.entries@
    }
}

impl HealthCycleResults {
    /// The URLs on the entries are pairwise distinct.
    pub open spec fn wf(self) -> bool {
        unique_keys(self@)
    }

    /// An empty mapping, at the start of a cycle.
    pub fn new() -> (r: HealthCycleResults)
        ensures
            r@ == Seq::<(String, HealthCheckResult)>::empty(),
            r.wf(),
    {
        HealthCycleResults { entries: Vec::new() }
    }

    /// How many targets have a result.
    pub fn len(&self) -> (n: usize)
        ensures
            n == self@.len(),
    {
        self.entries.len()
    }

    /// The entry at a position, in probe order.
    pub fn entry_at(&self, i: usize) -> (e: &(String, HealthCheckResult))
        requires
            i < self@.len(),
        ensures
            *e == self@[i as int],
    {
        &self.entries[i]
    }

    /// Record the result for a URL that has no entry yet.
    pub fn insert(&mut self, url: String, result: HealthCheckResult)
        requires
            old(self).wf(),
            !contains_key(old(self)@, url@),
        ensures
            final(self)@ == old(self)@.push((url, result)),
            final(self).wf(),
    {
        self.entries.push((url, result));
    }

    /// The result recorded for a URL, if the URL has one.
    pub fn get(&self, url: &String) -> (r: Option<&HealthCheckResult>)
        requires
            self.wf(),
        ensures
            match r {
                Some(v) => spec_lookup(self@, url@) == Some(*v),
                None => spec_lookup(self@, url@) is None,
            },
    {
        let n = self.entries.len();
        for i in 0..n
            invariant
                n == self@.len(),
                self.wf(),
                forall|j: int| 0 <= j < i ==> (#[trigger] self@[j]).0@ != url@,
        {
            if self.entries[i].0 == *url {
                proof {
                    lemma_lookup_at(self@, url@, i as int);
                }
                return Some(&self.entries[i].1);
            }
        }
        proof {
            lemma_lookup_absent(self@, url@);
        }
        None
    }
}

/// Under unique keys, the lookup finds the entry that holds the URL.
proof fn lemma_lookup_at(s: Seq<(String, HealthCheckResult)>, url: Seq<char>, i: int)
    requires
        unique_keys(s),
        0 <= i < s.len(),
        s[i].0@ == url,
    ensures
        spec_lookup(s, url) == Some(s[i].1),
    decreases s.len(),
{
    if i == s.len() - 1 {
    } else {
        assert(s.last().0@ != url);
        assert(s.drop_last()[i] == s[i]);
        lemma_lookup_at(s.drop_last(), url, i);
    }
}

/// A URL with no entry has no lookup result.
proof fn lemma_lookup_absent(s: Seq<(String, HealthCheckResult)>, url: Seq<char>)
    requires
        !contains_key(s, url),
    ensures
        spec_lookup(s, url) is None,
    decreases s.len(),
{
    if s.len() > 0 {
        assert(s[s.len() - 1].0@ != url);
        assert(forall|i: int| 0 <= i < s.drop_last().len() ==> s.drop_last()[i] == s[i]);
        lemma_lookup_absent(s.drop_last(), url);
    }
}

/// Probe every target once, in list order, and collect one result per
/// target. The caller performs the network calls and hands over one outcome
/// per URL, in the same order; this function classifies each outcome and
/// builds the cycle's mapping. The mapping has exactly one entry per target.
pub fn run_health_checks(urls: &Vec<String>, outcomes: Vec<ProbeOutcome>) -> (r:
    HealthCycleResults)
    requires
        urls@.len() == outcomes@.len(),
        forall|i: int, j: int| 0 <= i < j < urls@.len() ==> urls@[i]@ != urls@[j]@,
    ensures
        r.wf(),
        r@.len() == urls@.len(),
        forall|i: int|
            0 <= i < urls@.len() ==> r@[i].0@ == urls@[i]@ && r@[i].1 == spec_classify(
                #[trigger] outcomes@[i],
            ),
        forall|i: int|
            0 <= i < urls@.len() ==> spec_lookup(r@, (#[trigger] urls@[i])@) == Some(
                spec_classify(outcomes@[i]),
            ),
{
    let ghost all_outcomes = outcomes@;
    let mut remaining = outcomes;
    let mut results = HealthCycleResults::new();
    let mut i: usize = 0;
    let n = urls.len();
    while i < n
        invariant
            n == urls@.len(),
            all_outcomes.len() == n,
            forall|p: int, q: int| 0 <= p < q < urls@.len() ==> urls@[p]@ != urls@[q]@,
            i <= n,
            remaining@ == all_outcomes.subrange(i as int, n as int),
            results.wf(),
            results@.len() == i,
            forall|j: int| 0 <= j < i ==> (#[trigger] results@[j]).0@ == urls@[j]@,
            forall|j: int|
                0 <= j < i ==> results@[j].1 == spec_classify(#[trigger] all_outcomes[j]),
        decreases n - i,
    {
        let outcome = remaining.remove(0);
        proof {
            assert(outcome == all_outcomes[i as int]);
            assert(remaining@ =~= all_outcomes.subrange(i + 1, n as int));
            let ghost key = urls@[i as int]@;
            assert(!contains_key(results@, key)) by {
                assert forall|j: int|
                    0 <= j < results@.len() implies (#[trigger] results@[j]).0@ != key by {
                    assert(results@[j].0@ == urls@[j]@);
                }
            }
        }
        let url = urls[i].clone();
        let result = classify_probe(outcome);
        results.insert(url, result);
        i = i + 1;
    }
    proof {
        assert forall|i: int|
            0 <= i < urls@.len() implies spec_lookup(results@, (#[trigger] urls@[i])@) == Some(
            spec_classify(all_outcomes[i]),
        ) by {
            lemma_lookup_at(results@, urls@[i]@, i);
        }
    }
    results
}

} // verus!
