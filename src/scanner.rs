use vstd::prelude::*;
use crate::filename::{filename_findings, FilenameScanner};
use crate::finding::{Finding, FindingKey, ScanResult};
use crate::hash::{digest_findings, digests_of, HashScanner};
use crate::levenshtein::{levenshtein_findings, LevenshteinScanner};

verus! {

/// One regular file handed to a worker: its path and its base name.
#[derive(Clone, Debug)]
pub struct FileEntry {
    pub path: String,
    pub name: String,
}

/// One detection technique, configured once before the run.
pub enum Scanner {
    Filename(FilenameScanner),
    Levenshtein(LevenshteinScanner),
    Hash(HashScanner),
}

impl Scanner {
    pub open spec fn wf(&self) -> bool {
        match self {
            Scanner::Levenshtein(s) => s.wf(),
            _ => true,
        }
    }

    /// What this scanner reports for a file. `content` is `None` when the file
    /// could not be read: a scanner that needs the content then reports nothing.
    pub open spec fn spec_scan(&self, path: Seq<char>, name: Seq<char>, content: Option<Seq<u8>>) -> Seq<FindingKey> {
        match self {
            Scanner::Filename(s) => filename_findings(s.spec_patterns(), path, name),
            Scanner::Levenshtein(s) => levenshtein_findings(s.spec_references(), s.spec_threshold(), path, name),
            Scanner::Hash(s) => match content {
                Some(c) => digest_findings(s.spec_hashes(), path, digests_of(c)),
                None => seq![],
            },
        }
    }

    pub fn scan_file(&self, entry: &FileEntry, content: &Option<Vec<u8>>) -> (r: Vec<Finding>)
        requires
            self.wf(),
            entry.name@.len() < usize::MAX,
        ensures
            r@.map_values(|f: Finding| f.key()) == self.spec_scan(entry.path@, entry.name@, opt_view(content)),
    {
        match self {
            Scanner::Filename(s) => s.scan(&entry.path, &entry.name),
            Scanner::Levenshtein(s) => s.scan(&entry.path, &entry.name),
            Scanner::Hash(s) => match content {
                Some(c) => s.scan(&entry.path, c),
                None => Vec::new(),
            },
        }
    }
}

pub open spec fn opt_view(content: &Option<Vec<u8>>) -> Option<Seq<u8>> {
    match content {
        Some(c) => Some(c@),
        None => None,
    }
}

pub open spec fn all_wf(scanners: Seq<Scanner>) -> bool {
    forall|i: int| 0 <= i < scanners.len() ==> (#[trigger] scanners[i]).wf()
}

/// What the scanner set reports for one file: each scanner's findings, in the
/// order of the set.
pub open spec fn scan_all(scanners: Seq<Scanner>, path: Seq<char>, name: Seq<char>, content: Option<Seq<u8>>) -> Seq<FindingKey>
    decreases scanners.len(),
{
    if scanners.len() == 0 {
        seq![]
    } else {
        scan_all(scanners.drop_last(), path, name, content) + scanners.last().spec_scan(path, name, content)
    }
}

/// Runs every scanner of the set on one file, in order, and gathers their
/// findings into the file's result.
pub fn handle_file(scanners: &Vec<Scanner>, entry: &FileEntry, content: &Option<Vec<u8>>) -> (r: ScanResult)
    requires
        all_wf(scanners@),
        entry.name@.len() < usize::MAX,
    ensures
        r.spec_path() == entry.path@,
        r.spec_findings().map_values(|f: Finding| f.key()) == scan_all(scanners@, entry.path@, entry.name@, opt_view(content)),
{
    let mut result = ScanResult::from(&entry.path);
    let mut i: usize = 0;
    while i < scanners.len()
        invariant
            i <= scanners@.len(),
            all_wf(scanners@),
            entry.name@.len() < usize::MAX,
            result.spec_path() == entry.path@,
            result.spec_findings().map_values(|f: Finding| f.key()) == scan_all(scanners@.take(i as int), entry.path@, entry.name@, opt_view(content)),
        decreases scanners@.len() - i,
    {
        let found = scanners[i].scan_file(entry, content);
        assert(scanners@.take(i + 1).drop_last() =~= scanners@.take(i as int));
        let ghost before = result.spec_findings();
        result.add_findings(found);
        assert(result.spec_findings().map_values(|f: Finding| f.key()) =~= before.map_values(|f: Finding| f.key()) + found@.map_values(|f: Finding| f.key()));
        i = i + 1;
    }
    assert(scanners@.take(i as int) =~= scanners@);
    result
}

} // verus!
