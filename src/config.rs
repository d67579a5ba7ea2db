use vstd::prelude::*;
use crate::filename::{regex_compiles, FilenameScanner};
use crate::hash::{valid_hash_text, HashScanner};
use crate::levenshtein::{default_references, DEFAULT_THRESHOLD, LevenshteinScanner};
use crate::output::{OutputFormat, OutputMethods};
use crate::scanner::{all_wf, Scanner};

verus! {

/// Why a run cannot start.
#[derive(PartialEq, Eq, Clone, Debug)]
pub enum ConfigError {
    /// A filename pattern that is not a valid regular expression.
    InvalidRegex(String),
    /// A hash value that is not a well-formed MD5, SHA-1 or SHA-256 digest.
    InvalidHash(String),
}

/// The settings of one run, resolved from the operator's options.
pub struct Dionysos {
    pub path: String,
    pub filenames: Vec<String>,
    pub file_hashes: Vec<String>,
    pub levenshtein: bool,
    pub threads: usize,
    pub output_format: OutputFormat,
    pub print_strings: bool,
}

pub open spec fn all_regexes_compile(ps: Seq<String>) -> bool {
    forall|i: int| 0 <= i < ps.len() ==> regex_compiles(#[trigger] ps[i]@)
}

pub open spec fn all_hashes_valid(hs: Seq<String>) -> bool {
    forall|i: int| 0 <= i < hs.len() ==> valid_hash_text(#[trigger] hs[i]@)
}

impl Dionysos {
    pub fn new(
        path: String,
        filenames: Vec<String>,
        file_hashes: Vec<String>,
        levenshtein: bool,
        threads: usize,
        output_format: OutputFormat,
        print_strings: bool,
    ) -> (r: Dionysos)
        ensures
            r.path@ == path@,
            r.filenames@ == filenames@,
            r.file_hashes@ == file_hashes@,
            r.levenshtein == levenshtein,
            r.threads == threads,
            r.output_format == output_format,
            r.print_strings == print_strings,
    {
        Dionysos { path, filenames, file_hashes, levenshtein, threads, output_format, print_strings }
    }

    /// The scanner set that the settings ask for: the filename scanner when
    /// patterns are given, the fuzzy-filename scanner when enabled, the hash
    /// scanner when hashes are given, in that order.
    pub open spec fn scanners_match(&self, s: Seq<Scanner>) -> bool {
        let nf: int = if self.filenames@.len() > 0 { 1 } else { 0 };
        let nl: int = if self.levenshtein { 1 } else { 0 };
        let nh: int = if self.file_hashes@.len() > 0 { 1 } else { 0 };
        &&& s.len() == nf + nl + nh
        &&& nf == 1 ==> (s[0] matches Scanner::Filename(f)
            && f.spec_patterns() == self.filenames@.map_values(|p: String| p@))
        &&& nl == 1 ==> (s[nf] matches Scanner::Levenshtein(l)
            && l.spec_references() == default_references() && l.spec_threshold() == DEFAULT_THRESHOLD)
        &&& nh == 1 ==> (s[nf + nl] matches Scanner::Hash(h) && h.spec_hashes().len() == self.file_hashes@.len()
            && forall|i: int| 0 <= i < self.file_hashes@.len() ==> (#[trigger] h.spec_hashes()[i]).parsed_from(self.file_hashes@[i]@))
    }

    /// Builds the scanner set once, before any file is scanned. Fails on the
    /// first filename pattern that does not compile, else on the first
    /// malformed hash value.
    pub fn init_scanners(&self) -> (r: Result<Vec<Scanner>, ConfigError>)
        ensures
            r is Ok <==> all_regexes_compile(self.filenames@) && all_hashes_valid(self.file_hashes@),
            r is Ok ==> self.scanners_match(r->Ok_0@) && all_wf(r->Ok_0@),
            (r is Err && r->Err_0 is InvalidRegex) <==> !all_regexes_compile(self.filenames@),
            (r is Err && r->Err_0 is InvalidRegex) ==> exists|i: int|
                0 <= i < self.filenames@.len() && #[trigger] self.filenames@[i]@ == r->Err_0->InvalidRegex_0@
                && !regex_compiles(r->Err_0->InvalidRegex_0@),
            (r is Err && r->Err_0 is InvalidHash) ==> exists|i: int|
                0 <= i < self.file_hashes@.len() && #[trigger] self.file_hashes@[i] == r->Err_0->InvalidHash_0
                && !valid_hash_text(r->Err_0->InvalidHash_0@),
    {
        let mut scanners: Vec<Scanner> = Vec::new();
        if self.filenames.len() > 0 {
            match FilenameScanner::new(&self.filenames) {
                Ok(s) => scanners.push(Scanner::Filename(s)),
                Err(p) => {
                    return Err(ConfigError::InvalidRegex(p));
                },
            }
        }
        if self.levenshtein {
            scanners.push(Scanner::Levenshtein(LevenshteinScanner::default()));
        }
        if self.file_hashes.len() > 0 {
            match HashScanner::with_hashes(&self.file_hashes) {
                Ok(s) => scanners.push(Scanner::Hash(s)),
                Err(h) => {
                    return Err(ConfigError::InvalidHash(h));
                },
            }
        }
        Ok(scanners)
    }

    /// Where and how the findings of this run are written.
    pub fn output_options(&self) -> (r: OutputMethods)
        ensures
            r.spec_format() == self.output_format,
            r.spec_print_strings() == self.print_strings,
    {
        self.output_format.into_options().with_print_strings(self.print_strings)
    }
}

} // verus!
