use vstd::prelude::*;
use vstd::string::StrSliceExecFns;

verus! {

/// The detection technique that produced a finding.
#[derive(PartialEq, Eq, Structural, Clone, Copy, Debug)]
pub enum ScannerKind {
    Filename,
    Levenshtein,
    Hash,
}

impl ScannerKind {
    pub open spec fn spec_name(self) -> Seq<char> {
        match self {
            ScannerKind::Filename => "Filename"@,
            ScannerKind::Levenshtein => "Levenshtein"@,
            ScannerKind::Hash => "Hash"@,
        }
    }

    /// The name under which findings of this scanner are reported.
    pub fn name(&self) -> (r: String)
        ensures
            r@ == self.spec_name(),
    {
        match self {
            ScannerKind::Filename => "Filename".to_string(),
            ScannerKind::Levenshtein => "Levenshtein".to_string(),
            ScannerKind::Hash => "Hash".to_string(),
        }
    }
}

/// The characters of a string, one by one.
pub fn char_vec(s: &str) -> (r: Vec<char>)
    ensures
        r@ == s@,
{
    let n = s.unicode_len();
    let mut out: Vec<char> = Vec::new();
    let mut i: usize = 0;
    while i < n
        invariant
            n == s@.len(),
            i <= n,
            out@ == s@.take(i as int),
        decreases n - i,
    {
        out.push(s.get_char(i));
        assert(out@ =~= s@.take(i + 1));
        i = i + 1;
    }
    assert(s@.take(n as int) =~= s@);
    out
}

/// The identity of a finding: which scanner, for which file, on which rule.
pub type FindingKey = (ScannerKind, Seq<char>, Seq<char>);

/// One detection event of one scanner for one file.
#[derive(Clone, Debug)]
pub struct Finding {
    pub scanner: ScannerKind,
    pub file: String,
    pub identifier: String,
    pub strings: Vec<String>,
}

impl Finding {
    pub open spec fn key(self) -> FindingKey {
        (self.scanner, self.file@, self.identifier@)
    }

    pub fn new(scanner: ScannerKind, file: &String, identifier: String) -> (r: Finding)
        ensures
            r.key() == (scanner, file@, identifier@),
            r.strings@.len() == 0,
    {
        Finding { scanner, file: file.clone(), identifier, strings: Vec::new() }
    }

    pub fn with_strings(self, strings: Vec<String>) -> (r: Finding)
        ensures
            r.key() == self.key(),
            r.strings@ == strings@,
    {
        Finding { strings, ..self }
    }
}

/// The keys of a sequence of findings, in order.
pub open spec fn keys(s: Seq<Finding>) -> Seq<FindingKey> {
    s.map_values(|f: Finding| f.key())
}

/// All findings for one file, in the order the scanners ran.
pub struct ScanResult {
    path: String,
    findings: Vec<Finding>,
}

impl ScanResult {
    pub closed spec fn spec_path(&self) -> Seq<char> {
        self.path@
    }

    pub closed spec fn spec_findings(&self) -> Seq<Finding> {
        self.findings@
    }

    pub fn from(path: &String) -> (r: ScanResult)
        ensures
            r.spec_path() == path@,
            r.spec_findings().len() == 0,
    {
        ScanResult { path: path.clone(), findings: Vec::new() }
    }

    pub fn path(&self) -> (r: &String)
        ensures
            r@ == self.spec_path(),
    {
        &self.path
    }

    pub fn add_finding(&mut self, finding: Finding)
        ensures
            final(self).spec_path() == old(self).spec_path(),
            final(self).spec_findings() == old(self).spec_findings().push(finding),
    {
        self.findings.push(finding);
    }

    /// Appends the findings of one scanner, keeping their order.
    pub fn add_findings(&mut self, more: Vec<Finding>)
        ensures
            final(self).spec_path() == old(self).spec_path(),
            final(self).spec_findings() == old(self).spec_findings() + more@,
    {
        let mut more = more;
        self.findings.append(&mut more);
    }

    pub fn findings(&self) -> (r: &Vec<Finding>)
        ensures
            r@ == self.spec_findings(),
    {
        &self.findings
    }

    pub fn has_findings(&self) -> (r: bool)
        ensures
            r == (self.spec_findings().len() > 0),
    {
        self.findings.len() > 0
    }
}

} // verus!
