use vstd::prelude::*;
use crate::finding::{Finding, FindingKey, ScannerKind};

verus! {

#[verifier::external_type_specification]
#[verifier::external_body]
pub struct ExRegex(regex::Regex);

#[verifier::external_type_specification]
#[verifier::external_body]
pub struct ExRegexError(regex::Error);

/// Whether `pattern` is a regular expression that the regex crate accepts.
pub uninterp spec fn regex_compiles(pattern: Seq<char>) -> bool;

/// Whether the regular expression `pattern` matches somewhere in `text`.
pub uninterp spec fn regex_matches(pattern: Seq<char>, text: Seq<char>) -> bool;

/// Relies on regex::Regex::new: it compiles `pattern`, or says why it cannot.
#[verifier::external_body]
fn compile_regex(pattern: &str) -> (r: Result<regex::Regex, regex::Error>)
    ensures
        r is Ok <==> regex_compiles(pattern@),
{
    regex::Regex::new(pattern)
}

/// A regular expression over base names, with the text it was compiled from.
pub struct FilenameRule {
    pattern: String,
    regex: regex::Regex,
}

/// Relies on regex::Regex::is_match: whether the rule's expression, which
/// `FilenameRule::new` compiled from `rule.pattern`, matches anywhere in `text`.
#[verifier::external_body]
fn rule_is_match(rule: &FilenameRule, text: &str) -> (r: bool)
    ensures
        r == regex_matches(rule.pattern@, text@),
{
    rule.regex.is_match(text)
}

impl FilenameRule {
    pub closed spec fn spec_pattern(&self) -> Seq<char> {
        self.pattern@
    }

    /// Compiles `pattern`; fails with the compiler's message when it is not a valid expression.
    pub fn new(pattern: &String) -> (r: Result<FilenameRule, String>)
        ensures
            r is Ok <==> regex_compiles(pattern@),
            r is Ok ==> r->Ok_0.spec_pattern() == pattern@,
            r is Err ==> r->Err_0@ == pattern@,
    {
        match compile_regex(pattern.as_str()) {
            Ok(regex) => Ok(FilenameRule { pattern: pattern.clone(), regex }),
            Err(_) => Err(pattern.clone()),
        }
    }

    pub fn pattern(&self) -> (r: &String)
        ensures
            r@ == self.spec_pattern(),
    {
        &self.pattern
    }

    pub fn is_match(&self, name: &str) -> (r: bool)
        ensures
            r == regex_matches(self.spec_pattern(), name@),
    {
        rule_is_match(self, name)
    }
}

/// The findings that the patterns `ps` give for a file with base name `name`:
/// one for each pattern that matches, in configuration order.
pub open spec fn filename_findings(ps: Seq<Seq<char>>, file: Seq<char>, name: Seq<char>) -> Seq<FindingKey>
    decreases ps.len(),
{
    if ps.len() == 0 {
        seq![]
    } else {
        let prev = filename_findings(ps.drop_last(), file, name);
        if regex_matches(ps.last(), name) {
            prev.push((ScannerKind::Filename, file, ps.last()))
        } else {
            prev
        }
    }
}

/// Matches base names of files against a list of regular expressions.
pub struct FilenameScanner {
    rules: Vec<FilenameRule>,
}

impl FilenameScanner {
    pub closed spec fn spec_patterns(&self) -> Seq<Seq<char>> {
        self.rules@.map_values(|r: FilenameRule| r.spec_pattern())
    }

    /// Compiles every pattern; fails with the first one that does not compile.
    pub fn new(patterns: &Vec<String>) -> (r: Result<FilenameScanner, String>)
        ensures
            r is Ok <==> forall|i: int| 0 <= i < patterns@.len() ==> regex_compiles(#[trigger] patterns@[i]@),
            r is Ok ==> r->Ok_0.spec_patterns() == patterns@.map_values(|p: String| p@),
            r is Err ==> exists|i: int| 0 <= i < patterns@.len() && !regex_compiles(#[trigger] patterns@[i]@) && r->Err_0@ == patterns@[i]@,
    {
        let mut rules: Vec<FilenameRule> = Vec::new();
        let mut i: usize = 0;
        while i < patterns.len()
            invariant
                i <= patterns@.len(),
                rules@.len() == i,
                forall|k: int| 0 <= k < i ==> regex_compiles(#[trigger] patterns@[k]@),
                forall|k: int| 0 <= k < i ==> (#[trigger] rules@[k]).spec_pattern() == patterns@[k]@,
            decreases patterns@.len() - i,
        {
            match FilenameRule::new(&patterns[i]) {
                Ok(rule) => {
                    rules.push(rule);
                },
                Err(e) => {
                    return Err(e);
                },
            }
            i = i + 1;
        }
        let ghost ps = rules@.map_values(|r: FilenameRule| r.spec_pattern());
        assert(ps =~= patterns@.map_values(|p: String| p@));
        Ok(FilenameScanner { rules })
    }

    /// Reports every pattern that matches the base name `name` of `file`.
    pub fn scan(&self, file: &String, name: &String) -> (r: Vec<Finding>)
        ensures
            r@.map_values(|f: Finding| f.key()) == filename_findings(self.spec_patterns(), file@, name@),
    {
        let mut out: Vec<Finding> = Vec::new();
        let mut i: usize = 0;
        while i < self.rules.len()
            invariant
                i <= self.rules@.len(),
                out@.map_values(|f: Finding| f.key()) == filename_findings(self.spec_patterns().take(i as int), file@, name@),
            decreases self.rules@.len() - i,
        {
            let rule = &self.rules[i];
            let ghost before = out@;
            assert(self.spec_patterns().take(i + 1).drop_last() =~= self.spec_patterns().take(i as int));
            assert(self.spec_patterns().take(i + 1).last() == rule.spec_pattern());
            if rule.is_match(name.as_str()) {
                out.push(Finding::new(ScannerKind::Filename, file, rule.pattern().clone()));
                assert(out@.map_values(|f: Finding| f.key()) =~= before.map_values(|f: Finding| f.key()).push(out@.last().key()));
            }
            i = i + 1;
        }
        assert(self.spec_patterns().take(i as int) =~= self.spec_patterns());
        out
    }
}

} // verus!
