use vstd::prelude::*;
use vstd::string::StringExecFns;
use crate::finding::{Finding, ScanResult, ScannerKind};

verus! {

/// The CSV row (with its line terminator) that holds `fields`, quoted as needed.
pub uninterp spec fn csv_row_of(fields: Seq<Seq<char>>) -> Seq<char>;

/// The JSON string literal, quotes and escapes included, that stands for `s`.
pub uninterp spec fn json_string_of(s: Seq<char>) -> Seq<char>;

/// Relies on csv::Writer::write_record, writing into a `Vec<u8>`: the row for
/// `fields`. Writing into memory cannot fail, and the row is UTF-8 because
/// the fields are.
#[verifier::external_body]
fn csv_row(fields: &Vec<String>) -> (r: String)
    ensures
        r@ == csv_row_of(fields@.map_values(|s: String| s@)),
{
    let mut wtr = csv::Writer::from_writer(Vec::new());
    wtr.write_record(fields).expect("writing into memory");
    let bytes = wtr.into_inner().expect("flushing into memory");
    String::from_utf8(bytes).expect("csv rows of UTF-8 fields are UTF-8")
}

/// Relies on serde_json::to_string on a `str`: the JSON string literal for `s`.
/// Serialising a string cannot fail.
#[verifier::external_body]
fn json_string(s: &str) -> (r: String)
    ensures
        r@ == json_string_of(s@),
{
    serde_json::to_string(s).expect("a string always serialises")
}

/// The serialisation that findings are written in.
#[derive(PartialEq, Eq, Structural, Clone, Copy, Debug)]
pub enum OutputFormat {
    Csv,
    Txt,
    Json,
}

/// `parts`, with `sep` between each two.
pub open spec fn join(parts: Seq<Seq<char>>, sep: Seq<char>) -> Seq<char>
    decreases parts.len(),
{
    if parts.len() == 0 {
        seq![]
    } else if parts.len() == 1 {
        parts[0]
    } else {
        join(parts.drop_last(), sep) + sep + parts.last()
    }
}

/// The fields that a record of `f` carries: scanner, file and match, then the
/// matched strings where they are disclosed.
pub open spec fn record_fields(f: Finding, print_strings: bool) -> Seq<Seq<char>> {
    seq![f.scanner.spec_name(), f.file@, f.identifier@] + if print_strings {
        f.strings@.map_values(|s: String| s@)
    } else {
        seq![]
    }
}

pub open spec fn txt_record(fields: Seq<Seq<char>>) -> Seq<char> {
    "["@ + fields[0] + "] "@ + fields[1] + ": "@ + join(fields.skip(2), ", "@) + "\n"@
}

pub open spec fn json_record(fields: Seq<Seq<char>>) -> Seq<char> {
    "{\"scanner\":"@ + json_string_of(fields[0]) + ",\"file\":"@ + json_string_of(fields[1])
        + ",\"identifier\":"@ + json_string_of(fields[2]) + ",\"strings\":["@
        + join(fields.skip(3).map_values(|s: Seq<char>| json_string_of(s)), ","@) + "]}\n"@
}

/// The record that stands for the fields in the given format.
pub open spec fn render(format: OutputFormat, fields: Seq<Seq<char>>) -> Seq<char> {
    match format {
        OutputFormat::Csv => csv_row_of(fields),
        OutputFormat::Txt => txt_record(fields),
        OutputFormat::Json => json_record(fields),
    }
}

/// Joins `parts` with `sep` between each two.
pub fn join_strings(parts: &Vec<String>, sep: &str) -> (r: String)
    ensures
        r@ == join(parts@.map_values(|s: String| s@), sep@),
{
    let mut out = String::new();
    let mut i: usize = 0;
    while i < parts.len()
        invariant
            i <= parts@.len(),
            out@ == join(parts@.map_values(|s: String| s@).take(i as int), sep@),
        decreases parts@.len() - i,
    {
        let ghost ps = parts@.map_values(|s: String| s@);
        assert(ps.take(i + 1).drop_last() =~= ps.take(i as int));
        if i > 0 {
            out.append(sep);
        }
        out.append(parts[i].as_str());
        proof {
            if i == 0 {
                assert(out@ =~= ps.take(1)[0]);
            }
        }
        i = i + 1;
    }
    assert(parts@.map_values(|s: String| s@).take(i as int) =~= parts@.map_values(|s: String| s@));
    out
}

/// Every format writes one record per finding, in the same order, and the
/// record of each finding is made from the same fields in every format: the
/// scanner, the file and the match identifier first. Only the presentation
/// differs.
pub proof fn lemma_formats_carry_same_fields(a: OutputMethods, b: OutputMethods, findings: Seq<Finding>)
    requires
        a.spec_print_strings() == b.spec_print_strings(),
    ensures
        a.spec_records(findings).len() == findings.len(),
        b.spec_records(findings).len() == findings.len(),
        forall|i: int| 0 <= i < findings.len() ==> {
            let fields = #[trigger] record_fields(findings[i], a.spec_print_strings());
            &&& a.spec_records(findings)[i] == render(a.spec_format(), fields)
            &&& b.spec_records(findings)[i] == render(b.spec_format(), fields)
            &&& fields.take(3) == seq![findings[i].key().0.spec_name(), findings[i].key().1, findings[i].key().2]
        },
{
    assert forall|i: int| 0 <= i < findings.len() implies {
        let fields = #[trigger] record_fields(findings[i], a.spec_print_strings());
        fields.take(3) == seq![findings[i].key().0.spec_name(), findings[i].key().1, findings[i].key().2]
    } by {
        let fields = record_fields(findings[i], a.spec_print_strings());
        assert(fields.take(3) =~= seq![findings[i].key().0.spec_name(), findings[i].key().1, findings[i].key().2]);
    }
}

/// How results are written: the format, and whether matched strings are disclosed.
pub struct OutputMethods {
    format: OutputFormat,
    print_strings: bool,
}

/// Whether matched strings are disclosed in the records.
pub fn display_strings(methods: &OutputMethods) -> (r: bool)
    ensures
        r == methods.spec_print_strings(),
{
    methods.print_strings()
}

/// Whether matched strings are left out of the records.
pub fn skip_display_strings(methods: &OutputMethods) -> (r: bool)
    ensures
        r == !methods.spec_print_strings(),
{
    !display_strings(methods)
}

impl OutputFormat {
    /// The output settings for this format, with matched strings not disclosed.
    pub fn into_options(self) -> (r: OutputMethods)
        ensures
            r.spec_format() == self,
            !r.spec_print_strings(),
    {
        OutputMethods { format: self, print_strings: false }
    }
}

impl OutputMethods {
    pub closed spec fn spec_format(&self) -> OutputFormat {
        self.format
    }

    pub closed spec fn spec_print_strings(&self) -> bool {
        self.print_strings
    }

    /// The record of one finding.
    pub open spec fn spec_record(&self, f: Finding) -> Seq<char> {
        render(self.spec_format(), record_fields(f, self.spec_print_strings()))
    }

    /// The records of a file's findings: one per finding, in order.
    pub open spec fn spec_records(&self, findings: Seq<Finding>) -> Seq<Seq<char>> {
        findings.map_values(|f: Finding| self.spec_record(f))
    }

    pub fn with_print_strings(self, print_strings: bool) -> (r: OutputMethods)
        ensures
            r.spec_format() == self.spec_format(),
            r.spec_print_strings() == print_strings,
    {
        OutputMethods { print_strings, ..self }
    }

    pub fn print_strings(&self) -> (r: bool)
        ensures
            r == self.spec_print_strings(),
    {
        self.print_strings
    }

    pub fn destination(&self) -> (r: OutputFormat)
        ensures
            r == self.spec_format(),
    {
        self.format
    }

    fn fields(&self, f: &Finding) -> (r: Vec<String>)
        ensures
            r@.map_values(|s: String| s@) == record_fields(*f, self.spec_print_strings()),
    {
        let mut out: Vec<String> = Vec::new();
        out.push(f.scanner.name());
        out.push(f.file.clone());
        out.push(f.identifier.clone());
        if self.print_strings {
            let mut i: usize = 0;
            while i < f.strings.len()
                invariant
                    i <= f.strings@.len(),
                    out@.map_values(|s: String| s@) == record_fields(*f, false) + f.strings@.map_values(|s: String| s@).take(i as int),
                decreases f.strings@.len() - i,
            {
                let ghost before = out@;
                let item = f.strings[i].clone();
                assert(item@ == f.strings@[i as int]@);
                out.push(item);
                assert(out@ == before.push(item));
                assert(out@.map_values(|s: String| s@) =~= before.map_values(|s: String| s@).push(item@));
                assert(f.strings@.map_values(|s: String| s@).take(i + 1) =~= f.strings@.map_values(|s: String| s@).take(i as int).push(item@));
                assert(out@.map_values(|s: String| s@) =~= record_fields(*f, false) + f.strings@.map_values(|s: String| s@).take(i + 1));
                i = i + 1;
            }
            assert(f.strings@.map_values(|s: String| s@).take(i as int) =~= f.strings@.map_values(|s: String| s@));
        }
        assert(out@.map_values(|s: String| s@) =~= record_fields(*f, self.spec_print_strings()));
        out
    }

    /// The record of one finding in this format.
    pub fn format_finding(&self, f: &Finding) -> (r: String)
        ensures
            r@ == self.spec_record(*f),
    {
        let fields = self.fields(f);
        let ghost fs = fields@.map_values(|s: String| s@);
        assert(fs.len() == fields@.len());
        assert(record_fields(*f, self.spec_print_strings()).len() >= 3);
        match self.format {
            OutputFormat::Csv => csv_row(&fields),
            OutputFormat::Txt => {
                let mut rest: Vec<String> = Vec::new();
                let mut i: usize = 2;
                while i < fields.len()
                    invariant
                        2 <= i <= fields@.len(),
                        fs == fields@.map_values(|s: String| s@),
                        rest@.map_values(|s: String| s@) == fs.skip(2).take(i - 2),
                    decreases fields@.len() - i,
                {
                    let ghost before = rest@;
                    let item = fields[i].clone();
                    rest.push(item);
                    assert(rest@.map_values(|s: String| s@) =~= before.map_values(|s: String| s@).push(item@));
                    assert(fs.skip(2).take(i - 1) =~= fs.skip(2).take(i - 2).push(fs[i as int]));
                    assert(rest@.map_values(|s: String| s@) =~= fs.skip(2).take(i - 1));
                    i = i + 1;
                }
                assert(fs.skip(2).take(i - 2) =~= fs.skip(2));
                let mut out = String::new();
                out.append("[");
                out.append(fields[0].as_str());
                out.append("] ");
                out.append(fields[1].as_str());
                out.append(": ");
                let joined = join_strings(&rest, ", ");
                out.append(joined.as_str());
                out.append("\n");
                out
            },
            OutputFormat::Json => {
                let mut quoted: Vec<String> = Vec::new();
                let mut i: usize = 3;
                while i < fields.len()
                    invariant
                        3 <= i <= fields@.len(),
                        fs == fields@.map_values(|s: String| s@),
                        quoted@.map_values(|s: String| s@) == fs.skip(3).map_values(|s: Seq<char>| json_string_of(s)).take(i - 3),
                    decreases fields@.len() - i,
                {
                    let ghost before = quoted@;
                    let item = json_string(fields[i].as_str());
                    quoted.push(item);
                    assert(quoted@.map_values(|s: String| s@) =~= before.map_values(|s: String| s@).push(item@));
                    assert(fs.skip(3).map_values(|s: Seq<char>| json_string_of(s)).take(i - 2) =~= fs.skip(3).map_values(|s: Seq<char>| json_string_of(s)).take(i - 3).push(json_string_of(fs[i as int])));
                    assert(quoted@.map_values(|s: String| s@) =~= fs.skip(3).map_values(|s: Seq<char>| json_string_of(s)).take(i - 2));
                    i = i + 1;
                }
                assert(fs.skip(3).map_values(|s: Seq<char>| json_string_of(s)).take(i - 3) =~= fs.skip(3).map_values(|s: Seq<char>| json_string_of(s)));
                let mut out = String::new();
                out.append("{\"scanner\":");
                out.append(json_string(fields[0].as_str()).as_str());
                out.append(",\"file\":");
                out.append(json_string(fields[1].as_str()).as_str());
                out.append(",\"identifier\":");
                out.append(json_string(fields[2].as_str()).as_str());
                out.append(",\"strings\":[");
                let joined = join_strings(&quoted, ",");
                out.append(joined.as_str());
                out.append("]}\n");
                out
            },
        }
    }

    /// The records of every finding of `result`, one per finding, in order.
    pub fn print_result(&self, result: &ScanResult) -> (r: Vec<String>)
        ensures
            r@.map_values(|s: String| s@) == self.spec_records(result.spec_findings()),
    {
        let findings = result.findings();
        let mut out: Vec<String> = Vec::new();
        let mut i: usize = 0;
        while i < findings.len()
            invariant
                i <= findings@.len(),
                findings@ == result.spec_findings(),
                out@.map_values(|s: String| s@) == self.spec_records(findings@.take(i as int)),
            decreases findings@.len() - i,
        {
            let ghost before = out@;
            let item = self.format_finding(&findings[i]);
            out.push(item);
            assert(out@.map_values(|s: String| s@) =~= before.map_values(|s: String| s@).push(item@));
            assert(findings@.take(i + 1) =~= findings@.take(i as int).push(findings@[i as int]));
            assert(self.spec_records(findings@.take(i + 1)) =~= self.spec_records(findings@.take(i as int)).push(self.spec_record(findings@[i as int])));
            assert(out@.map_values(|s: String| s@) =~= self.spec_records(findings@.take(i + 1)));
            i = i + 1;
        }
        assert(findings@.take(i as int) =~= findings@);
        out
    }
}

} // verus!
