use vstd::prelude::*;
use crate::finding::{char_vec, Finding, FindingKey, ScannerKind};

verus! {

pub open spec fn min3(x: nat, y: nat, z: nat) -> nat {
    if x <= y && x <= z {
        x
    } else if y <= z {
        y
    } else {
        z
    }
}

/// The edit distance between `a` and `b`: the least number of single-character
/// insertions, deletions and substitutions that turn one into the other.
pub open spec fn edit_distance(a: Seq<char>, b: Seq<char>) -> nat
    decreases a.len() + b.len(),
{
    if a.len() == 0 {
        b.len()
    } else if b.len() == 0 {
        a.len()
    } else {
        min3(
            edit_distance(a.drop_last(), b) + 1,
            edit_distance(a, b.drop_last()) + 1,
            edit_distance(a.drop_last(), b.drop_last()) + if a.last() == b.last() { 0nat } else { 1nat },
        )
    }
}

/// The edit distance is never more than the longer of the two lengths.
pub proof fn lemma_edit_distance_bound(a: Seq<char>, b: Seq<char>)
    ensures
        edit_distance(a, b) <= if a.len() >= b.len() { a.len() } else { b.len() },
    decreases a.len() + b.len(),
{
    if a.len() > 0 && b.len() > 0 {
        lemma_edit_distance_bound(a.drop_last(), b.drop_last());
    }
}

/// A string is at distance zero from itself.
pub proof fn lemma_edit_distance_self(a: Seq<char>)
    ensures
        edit_distance(a, a) == 0,
    decreases a.len(),
{
    if a.len() > 0 {
        lemma_edit_distance_self(a.drop_last());
    }
}

/// Computes the edit distance of `a` and `b`, one row of the table at a time.
pub fn distance(a: &Vec<char>, b: &Vec<char>) -> (r: usize)
    requires
        a@.len() < usize::MAX,
        b@.len() < usize::MAX,
    ensures
        r == edit_distance(a@, b@),
{
    let n = a.len();
    let m = b.len();
    let mut prev: Vec<usize> = Vec::new();
    let mut j: usize = 0;
    while j <= m
        invariant
            j <= m + 1,
            m == b@.len(),
            m < usize::MAX,
            prev@.len() == j,
            forall|k: int| 0 <= k < j ==> prev@[k] == edit_distance(a@.take(0), b@.take(k)),
        decreases m + 1 - j,
    {
        prev.push(j);
        proof {
            lemma_take_zero(a@, b@.take(j as int));
        }
        j = j + 1;
    }
    let mut i: usize = 1;
    while i <= n
        invariant
            1 <= i <= n + 1,
            n == a@.len(),
            m == b@.len(),
            n < usize::MAX,
            m < usize::MAX,
            prev@.len() == m + 1,
            forall|k: int| 0 <= k <= m ==> prev@[k] == edit_distance(a@.take(i - 1), b@.take(k)),
        decreases n + 1 - i,
    {
        let mut cur: Vec<usize> = Vec::new();
        proof {
            assert(a@.take(i as int).len() == i);
        }
        cur.push(i);
        let mut j: usize = 1;
        while j <= m
            invariant
                1 <= i <= n,
                1 <= j <= m + 1,
                n == a@.len(),
                m == b@.len(),
                n < usize::MAX,
                m < usize::MAX,
                prev@.len() == m + 1,
                cur@.len() == j,
                forall|k: int| 0 <= k <= m ==> prev@[k] == edit_distance(a@.take(i - 1), b@.take(k)),
                forall|k: int| 0 <= k < j ==> cur@[k] == edit_distance(a@.take(i as int), b@.take(k)),
            decreases m + 1 - j,
        {
            let ghost ai = a@.take(i as int);
            let ghost bj = b@.take(j as int);
            proof {
                assert(ai.drop_last() =~= a@.take(i - 1));
                assert(bj.drop_last() =~= b@.take(j - 1));
                assert(ai.last() == a@[i - 1]);
                assert(bj.last() == b@[j - 1]);
                lemma_edit_distance_bound(a@.take(i - 1), b@.take(j as int));
                lemma_edit_distance_bound(ai, b@.take(j - 1));
                lemma_edit_distance_bound(a@.take(i - 1), b@.take(j - 1));
            }
            let del = prev[j] + 1;
            let ins = cur[j - 1] + 1;
            let sub = if a[i - 1] == b[j - 1] { prev[j - 1] } else { prev[j - 1] + 1 };
            let best = if del <= ins && del <= sub {
                del
            } else if ins <= sub {
                ins
            } else {
                sub
            };
            cur.push(best);
            j = j + 1;
        }
        prev = cur;
        i = i + 1;
    }
    assert(a@.take(n as int) =~= a@);
    assert(b@.take(m as int) =~= b@);
    prev[m]
}

proof fn lemma_take_zero(a: Seq<char>, b: Seq<char>)
    ensures
        edit_distance(a.take(0), b) == b.len(),
{
}

/// The well-known names that near-miss impersonations usually copy.
pub open spec fn default_references() -> Seq<Seq<char>> {
    seq![
        "svchost.exe"@, "explorer.exe"@, "lsass.exe"@, "csrss.exe"@, "winlogon.exe"@,
        "services.exe"@, "smss.exe"@, "wininit.exe"@, "spoolsv.exe"@, "taskhost.exe"@,
    ]
}

/// The distance up to which a name counts as a near miss, unless configured otherwise.
pub const DEFAULT_THRESHOLD: usize = 2;

/// Whether `name` is a near miss of `reference`: close, but not the same.
pub open spec fn near_miss(name: Seq<char>, reference: Seq<char>, threshold: nat) -> bool {
    0 < edit_distance(name, reference) <= threshold
}

/// The findings that the reference names `refs` give for a file with base name `name`.
pub open spec fn levenshtein_findings(refs: Seq<Seq<char>>, threshold: nat, file: Seq<char>, name: Seq<char>) -> Seq<FindingKey>
    decreases refs.len(),
{
    if refs.len() == 0 {
        seq![]
    } else {
        let prev = levenshtein_findings(refs.drop_last(), threshold, file, name);
        if near_miss(name, refs.last(), threshold) {
            prev.push((ScannerKind::Levenshtein, file, refs.last()))
        } else {
            prev
        }
    }
}

/// A reference name is reported for a base name exactly when the name is a near
/// miss of it: at distance at least one and at most the threshold. A name equal
/// to a reference is never reported for it.
pub proof fn lemma_near_miss_exact(refs: Seq<Seq<char>>, threshold: nat, file: Seq<char>, name: Seq<char>, reference: Seq<char>)
    ensures
        levenshtein_findings(refs, threshold, file, name).contains((ScannerKind::Levenshtein, file, reference))
            <==> refs.contains(reference) && near_miss(name, reference, threshold),
        name == reference ==> !levenshtein_findings(refs, threshold, file, name).contains((ScannerKind::Levenshtein, file, reference)),
    decreases refs.len(),
{
    lemma_edit_distance_self(name);
    if refs.len() > 0 {
        let prev = refs.drop_last();
        lemma_near_miss_exact(prev, threshold, file, name, reference);
        let key = (ScannerKind::Levenshtein, file, reference);
        let all = levenshtein_findings(refs, threshold, file, name);
        let before = levenshtein_findings(prev, threshold, file, name);
        if refs.contains(reference) && near_miss(name, reference, threshold) {
            let i = choose|i: int| 0 <= i < refs.len() && refs[i] == reference;
            if i < refs.len() - 1 {
                assert(prev[i] == reference);
                let j = choose|j: int| 0 <= j < before.len() && before[j] == key;
                assert(all[j] == key);
            } else {
                assert(all.last() == key);
            }
        }
        if all.contains(key) {
            let j = choose|j: int| 0 <= j < all.len() && all[j] == key;
            if j < before.len() {
                assert(before[j] == key);
                let i = choose|i: int| 0 <= i < prev.len() && prev[i] == reference;
                assert(refs[i] == reference);
            } else {
                assert(refs[refs.len() - 1] == reference);
            }
        }
    }
}

/// Reports base names that are within a small edit distance of a reference name,
/// without being equal to it.
pub struct LevenshteinScanner {
    references: Vec<String>,
    threshold: usize,
}

impl LevenshteinScanner {
    pub closed spec fn spec_references(&self) -> Seq<Seq<char>> {
        self.references@.map_values(|s: String| s@)
    }

    pub closed spec fn spec_threshold(&self) -> nat {
        self.threshold as nat
    }

    /// Every reference name has a length that the distance table can index.
    pub open spec fn wf(&self) -> bool {
        forall|i: int| 0 <= i < self.spec_references().len() ==> (#[trigger] self.spec_references()[i]).len() < usize::MAX
    }

    pub fn new(references: Vec<String>, threshold: usize) -> (r: LevenshteinScanner)
        requires
            forall|i: int| 0 <= i < references@.len() ==> (#[trigger] references@[i])@.len() < usize::MAX,
        ensures
            r.wf(),
            r.spec_references() == references@.map_values(|s: String| s@),
            r.spec_threshold() == threshold,
    {
        LevenshteinScanner { references, threshold }
    }

    /// The scanner over the well-known system process names, with the default threshold.
    pub fn default() -> (r: LevenshteinScanner)
        ensures
            r.wf(),
            r.spec_references() == default_references(),
            r.spec_threshold() == DEFAULT_THRESHOLD,
    {
        let references = vec![
            "svchost.exe".to_string(), "explorer.exe".to_string(), "lsass.exe".to_string(),
            "csrss.exe".to_string(), "winlogon.exe".to_string(), "services.exe".to_string(),
            "smss.exe".to_string(), "wininit.exe".to_string(), "spoolsv.exe".to_string(),
            "taskhost.exe".to_string(),
        ];
        let r = LevenshteinScanner { references, threshold: DEFAULT_THRESHOLD };
        assert(r.spec_references() =~= default_references());
        proof {
            reveal_strlit("svchost.exe");
            reveal_strlit("explorer.exe");
            reveal_strlit("lsass.exe");
            reveal_strlit("csrss.exe");
            reveal_strlit("winlogon.exe");
            reveal_strlit("services.exe");
            reveal_strlit("smss.exe");
            reveal_strlit("wininit.exe");
            reveal_strlit("spoolsv.exe");
            reveal_strlit("taskhost.exe");
        }
        r
    }

    /// Reports every reference name of which `name`, the base name of `file`, is a near miss.
    pub fn scan(&self, file: &String, name: &String) -> (r: Vec<Finding>)
        requires
            self.wf(),
            name@.len() < usize::MAX,
        ensures
            r@.map_values(|f: Finding| f.key()) == levenshtein_findings(self.spec_references(), self.spec_threshold(), file@, name@),
    {
        let name_chars = char_vec(name.as_str());
        let mut out: Vec<Finding> = Vec::new();
        let mut i: usize = 0;
        while i < self.references.len()
            invariant
                i <= self.references@.len(),
                name_chars@ == name@,
                name@.len() < usize::MAX,
                self.wf(),
                out@.map_values(|f: Finding| f.key()) == levenshtein_findings(self.spec_references().take(i as int), self.spec_threshold(), file@, name@),
            decreases self.references@.len() - i,
        {
            let reference = &self.references[i];
            let ref_chars = char_vec(reference.as_str());
            let ghost before = out@;
            assert(self.spec_references().take(i + 1).drop_last() =~= self.spec_references().take(i as int));
            assert(self.spec_references().take(i + 1).last() == reference@);
            assert(ref_chars@.len() < usize::MAX);
            let d = distance(&name_chars, &ref_chars);
            if 0 < d && d <= self.threshold {
                out.push(Finding::new(ScannerKind::Levenshtein, file, reference.clone()));
                assert(out@.map_values(|f: Finding| f.key()) =~= before.map_values(|f: Finding| f.key()).push(out@.last().key()));
            }
            i = i + 1;
        }
        assert(self.spec_references().take(i as int) =~= self.spec_references());
        out
    }
}

} // verus!
