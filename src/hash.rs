use vstd::prelude::*;
use crate::finding::{char_vec, Finding, FindingKey, ScannerKind};

verus! {

/// What MD5 yields on the given bytes.
pub uninterp spec fn md5_of(data: Seq<u8>) -> Seq<u8>;

/// What SHA-1 yields on the given bytes.
pub uninterp spec fn sha1_of(data: Seq<u8>) -> Seq<u8>;

/// What SHA-256 yields on the given bytes.
pub uninterp spec fn sha256_of(data: Seq<u8>) -> Seq<u8>;

/// Relies on md5::Md5::digest (RustCrypto md-5): the 16-byte MD5 digest of `data`.
#[verifier::external_body]
fn md5_digest(data: &[u8]) -> (r: Vec<u8>)
    ensures
        r@ == md5_of(data@),
        r@.len() == 16,
{
    <md5::Md5 as md5::Digest>::digest(data).to_vec()
}

/// Relies on sha1::Sha1::digest (RustCrypto sha1): the 20-byte SHA-1 digest of `data`.
#[verifier::external_body]
fn sha1_digest(data: &[u8]) -> (r: Vec<u8>)
    ensures
        r@ == sha1_of(data@),
        r@.len() == 20,
{
    <sha1::Sha1 as sha1::Digest>::digest(data).to_vec()
}

/// Relies on sha2::Sha256::digest (RustCrypto sha2): the 32-byte SHA-256 digest of `data`.
#[verifier::external_body]
fn sha256_digest(data: &[u8]) -> (r: Vec<u8>)
    ensures
        r@ == sha256_of(data@),
        r@.len() == 32,
{
    <sha2::Sha256 as sha2::Digest>::digest(data).to_vec()
}

/// A digest algorithm, told apart by the length of its hexadecimal form.
#[derive(PartialEq, Eq, Structural, Clone, Copy, Debug)]
pub enum HashAlgorithm {
    Md5,
    Sha1,
    Sha256,
}

pub open spec fn algorithm_for_len(n: nat) -> Option<HashAlgorithm> {
    if n == 32 {
        Some(HashAlgorithm::Md5)
    } else if n == 40 {
        Some(HashAlgorithm::Sha1)
    } else if n == 64 {
        Some(HashAlgorithm::Sha256)
    } else {
        None
    }
}

pub open spec fn hex_value(c: char) -> int {
    if '0' <= c && c <= '9' {
        c as int - '0' as int
    } else if 'a' <= c && c <= 'f' {
        c as int - 'a' as int + 10
    } else if 'A' <= c && c <= 'F' {
        c as int - 'A' as int + 10
    } else {
        -1
    }
}

pub open spec fn is_hex_digit(c: char) -> bool {
    hex_value(c) >= 0
}

/// A configured hash value is well formed when it is all hex digits and has
/// the length of one of the supported algorithms.
pub open spec fn valid_hash_text(s: Seq<char>) -> bool {
    algorithm_for_len(s.len()) is Some && forall|i: int| 0 <= i < s.len() ==> is_hex_digit(#[trigger] s[i])
}

/// The bytes that a string of hex digits stands for, two digits to a byte.
pub open spec fn hex_bytes(s: Seq<char>) -> Seq<u8> {
    Seq::new(s.len() / 2, |i: int| (hex_value(s[2 * i]) * 16 + hex_value(s[2 * i + 1])) as u8)
}

/// Decodes one hex digit.
pub fn hex_digit(c: char) -> (r: Option<u8>)
    ensures
        r is Some <==> is_hex_digit(c),
        r is Some ==> r->0 as int == hex_value(c),
{
    if '0' <= c && c <= '9' {
        Some(((c as u32) - ('0' as u32)) as u8)
    } else if 'a' <= c && c <= 'f' {
        Some(((c as u32) - ('a' as u32) + 10) as u8)
    } else if 'A' <= c && c <= 'F' {
        Some(((c as u32) - ('A' as u32) + 10) as u8)
    } else {
        None
    }
}

/// One configured hash: its text as given, its algorithm and its bytes.
#[derive(Clone, Debug)]
pub struct ConfiguredHash {
    pub text: String,
    pub algorithm: HashAlgorithm,
    pub digest: Vec<u8>,
}

impl ConfiguredHash {
    pub open spec fn parsed_from(self, s: Seq<char>) -> bool {
        &&& self.text@ == s
        &&& algorithm_for_len(s.len()) == Some(self.algorithm)
        &&& self.digest@ == hex_bytes(s)
    }

    /// Parses a hash given in hexadecimal; its length decides the algorithm.
    pub fn parse(s: &String) -> (r: Option<ConfiguredHash>)
        ensures
            r is Some <==> valid_hash_text(s@),
            r is Some ==> r->0.parsed_from(s@),
    {
        let chars = char_vec(s.as_str());
        let n = chars.len();
        let algorithm = if n == 32 {
            HashAlgorithm::Md5
        } else if n == 40 {
            HashAlgorithm::Sha1
        } else if n == 64 {
            HashAlgorithm::Sha256
        } else {
            return None;
        };
        let mut digest: Vec<u8> = Vec::new();
        let mut i: usize = 0;
        while i < n / 2
            invariant
                n == chars@.len(),
                chars@ == s@,
                n % 2 == 0,
                i <= n / 2,
                forall|k: int| 0 <= k < 2 * i ==> is_hex_digit(#[trigger] chars@[k]),
                digest@ == hex_bytes(s@).take(i as int),
            decreases n / 2 - i,
        {
            let hi = hex_digit(chars[2 * i]);
            let lo = hex_digit(chars[2 * i + 1]);
            match (hi, lo) {
                (Some(h), Some(l)) => {
                    proof {
                        assert(h * 16 + l < 256) by (nonlinear_arith)
                            requires h < 16, l < 16;
                    }
                    digest.push(h * 16 + l);
                    proof {
                        assert forall|k: int| 0 <= k < 2 * (i + 1) implies is_hex_digit(#[trigger] chars@[k]) by {
                            if k >= 2 * i {
                                assert(k == 2 * i || k == 2 * i + 1);
                            }
                        }
                        assert(digest@ =~= hex_bytes(s@).take(i + 1));
                    }
                    i = i + 1;
                },
                _ => {
                    return None;
                },
            }
        }
        assert(hex_bytes(s@).take(i as int) =~= hex_bytes(s@));
        Some(ConfiguredHash { text: s.clone(), algorithm, digest })
    }

    /// Whether this configured value equals the file's digest of the same algorithm.
    pub open spec fn spec_matches(self, d: Digests) -> bool {
        match self.algorithm {
            HashAlgorithm::Md5 => self.digest@ == d.0,
            HashAlgorithm::Sha1 => self.digest@ == d.1,
            HashAlgorithm::Sha256 => self.digest@ == d.2,
        }
    }
}

pub fn bytes_equal(a: &Vec<u8>, b: &Vec<u8>) -> (r: bool)
    ensures
        r == (a@ == b@),
{
    if a.len() != b.len() {
        return false;
    }
    let mut i: usize = 0;
    while i < a.len()
        invariant
            a@.len() == b@.len(),
            i <= a@.len(),
            forall|k: int| 0 <= k < i ==> a@[k] == b@[k],
        decreases a@.len() - i,
    {
        if a[i] != b[i] {
            return false;
        }
        i = i + 1;
    }
    assert(a@ =~= b@);
    true
}

/// The MD5, SHA-1 and SHA-256 digests of one file.
pub type Digests = (Seq<u8>, Seq<u8>, Seq<u8>);

pub open spec fn digests_of(content: Seq<u8>) -> Digests {
    (md5_of(content), sha1_of(content), sha256_of(content))
}

/// The findings that the configured hashes `hs` give for a file with digests `d`,
/// in configuration order.
pub open spec fn digest_findings(hs: Seq<ConfiguredHash>, file: Seq<char>, d: Digests) -> Seq<FindingKey>
    decreases hs.len(),
{
    if hs.len() == 0 {
        seq![]
    } else {
        let prev = digest_findings(hs.drop_last(), file, d);
        if hs.last().spec_matches(d) {
            prev.push((ScannerKind::Hash, file, hs.last().text@))
        } else {
            prev
        }
    }
}

/// A file is reported for a configured value exactly when its digest of that
/// value's own algorithm equals it: a SHA-256 value that equals the file's
/// SHA-256 digest is reported whatever the file's MD5 and SHA-1 digests are,
/// and a value that equals no digest of its algorithm is not reported.
pub proof fn lemma_hash_match_exact(hs: Seq<ConfiguredHash>, file: Seq<char>, d: Digests, text: Seq<char>)
    ensures
        digest_findings(hs, file, d).contains((ScannerKind::Hash, file, text))
            <==> exists|i: int| 0 <= i < hs.len() && (#[trigger] hs[i]).text@ == text && hs[i].spec_matches(d),
    decreases hs.len(),
{
    if hs.len() > 0 {
        let prev = hs.drop_last();
        lemma_hash_match_exact(prev, file, d, text);
        let key = (ScannerKind::Hash, file, text);
        if exists|i: int| 0 <= i < hs.len() && (#[trigger] hs[i]).text@ == text && hs[i].spec_matches(d) {
            let i = choose|i: int| 0 <= i < hs.len() && (#[trigger] hs[i]).text@ == text && hs[i].spec_matches(d);
            if i < hs.len() - 1 {
                assert(prev[i] == hs[i]);
                let j = choose|j: int| 0 <= j < digest_findings(prev, file, d).len() && digest_findings(prev, file, d)[j] == key;
                assert(digest_findings(hs, file, d)[j] == key);
            } else {
                assert(digest_findings(hs, file, d).last() == key);
            }
        }
        if digest_findings(hs, file, d).contains(key) {
            let j = choose|j: int| 0 <= j < digest_findings(hs, file, d).len() && digest_findings(hs, file, d)[j] == key;
            if j < digest_findings(prev, file, d).len() {
                assert(digest_findings(prev, file, d)[j] == key);
                let i = choose|i: int| 0 <= i < prev.len() && (#[trigger] prev[i]).text@ == text && prev[i].spec_matches(d);
                assert(hs[i] == prev[i]);
            } else {
                assert(hs[hs.len() - 1].text@ == text);
            }
        }
    }
}

/// Matches file contents against a set of configured digests.
pub struct HashScanner {
    hashes: Vec<ConfiguredHash>,
}

impl HashScanner {
    pub closed spec fn spec_hashes(&self) -> Seq<ConfiguredHash> {
        self.hashes@
    }

    /// Builds the scanner from hash values given as hex text; fails on the
    /// first value that is not a well-formed MD5, SHA-1 or SHA-256 digest.
    pub fn with_hashes(hashes: &Vec<String>) -> (r: Result<HashScanner, String>)
        ensures
            r is Ok <==> forall|i: int| 0 <= i < hashes@.len() ==> valid_hash_text(#[trigger] hashes@[i]@),
            r is Ok ==> r->Ok_0.spec_hashes().len() == hashes@.len()
                && forall|i: int| 0 <= i < hashes@.len() ==> (#[trigger] r->Ok_0.spec_hashes()[i]).parsed_from(hashes@[i]@),
            r is Err ==> exists|i: int| 0 <= i < hashes@.len() && !valid_hash_text(#[trigger] hashes@[i]@) && r->Err_0 == hashes@[i],
    {
        let mut parsed: Vec<ConfiguredHash> = Vec::new();
        let mut i: usize = 0;
        while i < hashes.len()
            invariant
                i <= hashes@.len(),
                parsed@.len() == i,
                forall|k: int| 0 <= k < i ==> valid_hash_text(#[trigger] hashes@[k]@),
                forall|k: int| 0 <= k < i ==> (#[trigger] parsed@[k]).parsed_from(hashes@[k]@),
            decreases hashes@.len() - i,
        {
            match ConfiguredHash::parse(&hashes[i]) {
                Some(h) => {
                    parsed.push(h);
                },
                None => {
                    return Err(hashes[i].clone());
                },
            }
            i = i + 1;
        }
        Ok(HashScanner { hashes: parsed })
    }

    /// Compares the given digests of a file against every configured value.
    /// The digests are those of `content`, computed by the caller.
    pub fn scan_digests(&self, file: &String, md5: &Vec<u8>, sha1: &Vec<u8>, sha256: &Vec<u8>) -> (r: Vec<Finding>)
        ensures
            r@.map_values(|f: Finding| f.key()) == digest_findings(self.spec_hashes(), file@, (md5@, sha1@, sha256@)),
    {
        let mut out: Vec<Finding> = Vec::new();
        let mut i: usize = 0;
        while i < self.hashes.len()
            invariant
                i <= self.hashes@.len(),
                out@.map_values(|f: Finding| f.key()) == digest_findings(self.hashes@.take(i as int), file@, (md5@, sha1@, sha256@)),
            decreases self.hashes@.len() - i,
        {
            let h = &self.hashes[i];
            let digest = match h.algorithm {
                HashAlgorithm::Md5 => md5,
                HashAlgorithm::Sha1 => sha1,
                HashAlgorithm::Sha256 => sha256,
            };
            let ghost before = out@;
            assert(self.hashes@.take(i + 1).drop_last() =~= self.hashes@.take(i as int));
            if bytes_equal(&h.digest, digest) {
                out.push(Finding::new(ScannerKind::Hash, file, h.text.clone()));
                assert(out@.map_values(|f: Finding| f.key()) =~= before.map_values(|f: Finding| f.key()).push(out@.last().key()));
            }
            i = i + 1;
        }
        assert(self.hashes@.take(i as int) =~= self.hashes@);
        out
    }

    /// Computes the digests of `content` and reports each configured value it matches.
    pub fn scan(&self, file: &String, content: &Vec<u8>) -> (r: Vec<Finding>)
        ensures
            r@.map_values(|f: Finding| f.key()) == digest_findings(self.spec_hashes(), file@, digests_of(content@)),
    {
        let md5 = md5_digest(content.as_slice());
        let sha1 = sha1_digest(content.as_slice());
        let sha256 = sha256_digest(content.as_slice());
        self.scan_digests(file, &md5, &sha1, &sha256)
    }
}

} // verus!
