use dionysos::config::{ConfigError, Dionysos};
use dionysos::filename::FilenameScanner;
use dionysos::finding::{Finding, ScanResult, ScannerKind};
use dionysos::hash::{hex_digit, ConfiguredHash, HashAlgorithm, HashScanner};
use dionysos::levenshtein::{distance, LevenshteinScanner};
use dionysos::output::{display_strings, join_strings, skip_display_strings, OutputFormat};
use dionysos::pipeline::{after_send, collect, next_action, scan_files, ScanJob, WorkEvent, WorkerAction};
use dionysos::scanner::{handle_file, FileEntry, Scanner};

const ABC_MD5: &str = "900150983cd24fb0d6963f7d28e17f72";
const ABC_SHA1: &str = "a9993e364706816aba3e25717850c26c9cd0d89d";
const ABC_SHA256: &str = "ba7816bf8f01cfea414140de5dae2223b00361a396177a9cb410ff61f20015ad";

fn entry(path: &str, name: &str) -> FileEntry {
    FileEntry { path: path.to_string(), name: name.to_string() }
}

fn chars(s: &str) -> Vec<char> {
    s.chars().collect()
}

fn keys(result: &ScanResult) -> Vec<(ScannerKind, String, String)> {
    result.findings().iter().map(|f| (f.scanner, f.file.clone(), f.identifier.clone())).collect()
}

fn scenario_scanners() -> Vec<Scanner> {
    let d = Dionysos::new(
        "/root".to_string(),
        vec!["^evil".to_string()],
        vec![ABC_SHA256.to_string()],
        false,
        4,
        OutputFormat::Csv,
        false,
    );
    d.init_scanners().unwrap()
}

fn scenario_jobs() -> Vec<ScanJob> {
    vec![
        ScanJob { entry: entry("/root/a.txt", "a.txt"), content: Some(b"hello".to_vec()) },
        ScanJob { entry: entry("/root/b.exe", "b.exe"), content: Some(b"abc".to_vec()) },
        ScanJob { entry: entry("/root/evil.exe", "evil.exe"), content: Some(b"xyz".to_vec()) },
    ]
}

#[test]
fn scenario_two_records() {
    let scanners = scenario_scanners();
    let results = scan_files(&scanners, &scenario_jobs());
    let methods = OutputFormat::Csv.into_options();
    let mut records = Vec::new();
    for r in results.iter() {
        records.extend(collect(&methods, r));
    }
    assert_eq!(records.len(), 2);
    assert_eq!(records[0], format!("Hash,/root/b.exe,{}\n", ABC_SHA256));
    assert_eq!(records[1], "Filename,/root/evil.exe,^evil\n");
    assert!(records.iter().all(|r| !r.contains("a.txt")));
}

#[test]
fn empty_result_writes_nothing() {
    let scanners = scenario_scanners();
    let r = handle_file(&scanners, &entry("/root/a.txt", "a.txt"), &Some(b"hello".to_vec()));
    assert!(!r.has_findings());
    for format in [OutputFormat::Csv, OutputFormat::Txt, OutputFormat::Json] {
        assert!(collect(&format.into_options(), &r).is_empty());
    }
}

#[test]
fn sha256_match_without_md5_match() {
    let scanner = HashScanner::with_hashes(&vec![ABC_SHA256.to_string(), "00".repeat(16)]).unwrap();
    let found = scanner.scan(&"/x/f".to_string(), &b"abc".to_vec());
    assert_eq!(found.len(), 1);
    assert_eq!(found[0].identifier, ABC_SHA256);
    assert_eq!(found[0].scanner, ScannerKind::Hash);
}

#[test]
fn each_digest_algorithm_matches() {
    let upper = ABC_SHA1.to_uppercase();
    let scanner = HashScanner::with_hashes(&vec![ABC_MD5.to_string(), upper.clone(), ABC_SHA256.to_string()]).unwrap();
    let found = scanner.scan(&"/x/f".to_string(), &b"abc".to_vec());
    let ids: Vec<String> = found.iter().map(|f| f.identifier.clone()).collect();
    assert_eq!(ids, vec![ABC_MD5.to_string(), upper, ABC_SHA256.to_string()]);
    assert!(scanner.scan(&"/x/f".to_string(), &b"abd".to_vec()).is_empty());
}

#[test]
fn digest_of_other_algorithm_does_not_match() {
    let scanner = HashScanner::with_hashes(&vec![ABC_MD5.to_string()]).unwrap();
    let md5 = ConfiguredHash::parse(&ABC_MD5.to_string()).unwrap().digest;
    let wrong = vec![0u8; 20];
    let none = scanner.scan_digests(&"f".to_string(), &wrong, &md5, &vec![0u8; 32]);
    assert!(none.is_empty());
    let one = scanner.scan_digests(&"f".to_string(), &md5, &wrong, &vec![0u8; 32]);
    assert_eq!(one.len(), 1);
}

#[test]
fn hash_parsing() {
    let h = ConfiguredHash::parse(&ABC_MD5.to_string()).unwrap();
    assert_eq!(h.algorithm, HashAlgorithm::Md5);
    assert_eq!(h.digest[0], 0x90);
    assert_eq!(h.digest[15], 0x72);
    assert_eq!(ConfiguredHash::parse(&ABC_SHA1.to_string()).unwrap().algorithm, HashAlgorithm::Sha1);
    assert_eq!(ConfiguredHash::parse(&ABC_SHA256.to_string()).unwrap().algorithm, HashAlgorithm::Sha256);
    assert!(ConfiguredHash::parse(&"abc".to_string()).is_none());
    assert!(ConfiguredHash::parse(&"g".repeat(32)).is_none());
    assert_eq!(hex_digit('F'), Some(15));
    assert_eq!(hex_digit('x'), None);
}

#[test]
fn invalid_hash_is_rejected() {
    let d = Dionysos::new("/".to_string(), vec![], vec!["1234".to_string()], false, 1, OutputFormat::Txt, false);
    assert_eq!(d.init_scanners().err(), Some(ConfigError::InvalidHash("1234".to_string())));
    assert_eq!(HashScanner::with_hashes(&vec!["zz".to_string()]).err(), Some("zz".to_string()));
}

#[test]
fn invalid_regex_is_rejected() {
    let d = Dionysos::new("/".to_string(), vec!["(".to_string()], vec!["1234".to_string()], false, 1, OutputFormat::Txt, false);
    assert_eq!(d.init_scanners().err(), Some(ConfigError::InvalidRegex("(".to_string())));
}

#[test]
fn scanner_order_follows_configuration() {
    let d = Dionysos::new(
        "/".to_string(),
        vec!["exe$".to_string()],
        vec![ABC_SHA256.to_string()],
        true,
        1,
        OutputFormat::Txt,
        false,
    );
    let scanners = d.init_scanners().unwrap();
    assert_eq!(scanners.len(), 3);
    assert!(matches!(scanners[0], Scanner::Filename(_)));
    assert!(matches!(scanners[1], Scanner::Levenshtein(_)));
    assert!(matches!(scanners[2], Scanner::Hash(_)));
    let r = handle_file(&scanners, &entry("/w/svch0st.exe", "svch0st.exe"), &Some(b"abc".to_vec()));
    let kinds: Vec<ScannerKind> = r.findings().iter().map(|f| f.scanner).collect();
    assert_eq!(kinds, vec![ScannerKind::Filename, ScannerKind::Levenshtein, ScannerKind::Hash]);
    assert_eq!(r.path(), "/w/svch0st.exe");
}

#[test]
fn filename_matches_base_name_each_pattern() {
    let s = FilenameScanner::new(&vec!["^evil".to_string(), "\\.exe$".to_string(), "^root".to_string()]).unwrap();
    let found = s.scan(&"/root/evil.exe".to_string(), &"evil.exe".to_string());
    let ids: Vec<String> = found.iter().map(|f| f.identifier.clone()).collect();
    assert_eq!(ids, vec!["^evil".to_string(), "\\.exe$".to_string()]);
    assert!(s.scan(&"/evil/a.txt".to_string(), &"a.txt".to_string()).is_empty());
}

#[test]
fn fuzzy_reports_near_miss_only() {
    let s = LevenshteinScanner::default();
    let near = s.scan(&"/w/svch0st.exe".to_string(), &"svch0st.exe".to_string());
    assert_eq!(near.len(), 1);
    assert_eq!(near[0].identifier, "svchost.exe");
    assert_eq!(near[0].scanner, ScannerKind::Levenshtein);
    assert!(s.scan(&"/w/svchost.exe".to_string(), &"svchost.exe".to_string()).is_empty());
    assert!(s.scan(&"/w/notepad.exe".to_string(), &"notepad.exe".to_string()).is_empty());
}

#[test]
fn fuzzy_threshold_is_respected() {
    let s = LevenshteinScanner::new(vec!["svchost.exe".to_string()], 1);
    assert_eq!(s.scan(&"f".to_string(), &"svch0st.exe".to_string()).len(), 1);
    assert!(s.scan(&"f".to_string(), &"svch00t.exe".to_string()).is_empty());
}

#[test]
fn edit_distance_values() {
    assert_eq!(distance(&chars("kitten"), &chars("sitting")), 3);
    assert_eq!(distance(&chars(""), &chars("abc")), 3);
    assert_eq!(distance(&chars("abc"), &chars("")), 3);
    assert_eq!(distance(&chars("same"), &chars("same")), 0);
    assert_eq!(distance(&chars("svch0st.exe"), &chars("svchost.exe")), 1);
}

#[test]
fn formats_carry_same_fields() {
    let mut r = ScanResult::from(&"/t/x,y.exe".to_string());
    r.add_finding(Finding::new(ScannerKind::Filename, &"/t/x,y.exe".to_string(), "a\"b".to_string()));
    let csv = OutputFormat::Csv.into_options().print_result(&r);
    let txt = OutputFormat::Txt.into_options().print_result(&r);
    let json = OutputFormat::Json.into_options().print_result(&r);
    assert_eq!(csv, vec!["Filename,\"/t/x,y.exe\",\"a\"\"b\"\n".to_string()]);
    assert_eq!(txt, vec!["[Filename] /t/x,y.exe: a\"b\n".to_string()]);
    assert_eq!(json, vec!["{\"scanner\":\"Filename\",\"file\":\"/t/x,y.exe\",\"identifier\":\"a\\\"b\",\"strings\":[]}\n".to_string()]);
}

#[test]
fn strings_disclosed_only_when_asked() {
    let f = Finding::new(ScannerKind::Hash, &"/f".to_string(), "id".to_string())
        .with_strings(vec!["s1".to_string(), "s2".to_string()]);
    let mut r = ScanResult::from(&"/f".to_string());
    r.add_finding(f);
    let hidden = OutputFormat::Txt.into_options();
    assert!(skip_display_strings(&hidden));
    assert_eq!(hidden.print_result(&r), vec!["[Hash] /f: id\n".to_string()]);
    let shown = OutputFormat::Txt.into_options().with_print_strings(true);
    assert!(display_strings(&shown));
    assert!(shown.print_strings());
    assert_eq!(shown.destination(), OutputFormat::Txt);
    assert_eq!(shown.print_result(&r), vec!["[Hash] /f: id, s1, s2\n".to_string()]);
    let json = OutputFormat::Json.into_options().with_print_strings(true);
    assert_eq!(json.print_result(&r), vec!["{\"scanner\":\"Hash\",\"file\":\"/f\",\"identifier\":\"id\",\"strings\":[\"s1\",\"s2\"]}\n".to_string()]);
}

#[test]
fn join_values() {
    assert_eq!(join_strings(&vec![], ", "), "");
    assert_eq!(join_strings(&vec!["a".to_string()], ", "), "a");
    assert_eq!(join_strings(&vec!["a".to_string(), "b".to_string()], "-"), "a-b");
}

#[test]
fn arrival_order_does_not_change_findings() {
    let scanners = scenario_scanners();
    let forward = scan_files(&scanners, &scenario_jobs());
    let mut jobs = scenario_jobs();
    jobs.reverse();
    let backward = scan_files(&scanners, &jobs);
    let mut a: Vec<_> = forward.iter().flat_map(keys).collect();
    let mut b: Vec<_> = backward.iter().flat_map(keys).collect();
    a.sort_by(|x, y| (x.1.clone(), x.2.clone()).cmp(&(y.1.clone(), y.2.clone())));
    b.sort_by(|x, y| (x.1.clone(), x.2.clone()).cmp(&(y.1.clone(), y.2.clone())));
    assert_eq!(a, b);
    assert_eq!(a.len(), 2);
}

#[test]
fn rerun_gives_same_findings() {
    let scanners = scenario_scanners();
    let first: Vec<_> = scan_files(&scanners, &scenario_jobs()).iter().flat_map(keys).collect();
    let second: Vec<_> = scan_files(&scanners, &scenario_jobs()).iter().flat_map(keys).collect();
    assert_eq!(first, second);
}

#[test]
fn unreadable_file_gets_no_hash_finding() {
    let scanners = scenario_scanners();
    let r = handle_file(&scanners, &entry("/root/b.exe", "b.exe"), &None);
    assert!(!r.has_findings());
}

#[test]
fn worker_decisions() {
    assert_eq!(next_action(WorkEvent::Received), WorkerAction::Scan);
    assert_eq!(next_action(WorkEvent::Empty), WorkerAction::Backoff);
    assert_eq!(next_action(WorkEvent::Disconnected), WorkerAction::Stop);
    assert_eq!(after_send(true), WorkerAction::Poll);
    assert_eq!(after_send(false), WorkerAction::Stop);
}
