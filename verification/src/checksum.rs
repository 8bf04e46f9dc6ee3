//! Installation check against an MD5 checksum listing: the listing's
//! format, the comparison of a file's digest with its listed checksum, and
//! the reports shown to the user.
use vstd::prelude::*;
use vstd::utf8::is_ascii_chars;
use crate::text::{
    chars_of, has_prefix, join, join_chars, lemma_char_vec_deep_view, lines, split_lines,
    split_tokens, string_of, tokens, views,
};

verus! {

// ---------------------------------------------------------------- MD5

/// `md5::Context`, an MD5 computation in progress, seen only through
/// `md5_consumed`.
#[verifier::external_type_specification]
#[verifier::external_body]
pub struct ExMd5Context(md5::Context);

/// What an `md5::Context` holds: the bytes it has consumed since it was
/// created, in order (the context keeps them folded into its state).
pub uninterp spec fn md5_consumed(ctx: md5::Context) -> Seq<u8>;

/// The MD5 digest (RFC 1321) of a byte sequence.
pub uninterp spec fn md5_digest(data: Seq<u8>) -> Seq<u8>;

/// `md5::Context::new`: claims the new context holds no bytes.
#[verifier::external_body]
fn md5_context_new() -> (ctx: md5::Context)
    ensures
        md5_consumed(ctx) == Seq::<u8>::empty(),
{
    md5::Context::new()
}

/// `md5::Context::consume`: claims the context then holds what it held
/// before followed by `data`.
#[verifier::external_body]
fn md5_context_consume(ctx: &mut md5::Context, data: &[u8])
    ensures
        md5_consumed(*final(ctx)) == md5_consumed(*old(ctx)) + data@,
{
    ctx.consume(data)
}

/// `md5::Context::compute`: claims the 16 bytes of the returned `Digest`
/// are the MD5 digest of all the bytes the context holds.
#[verifier::external_body]
fn md5_context_compute(ctx: md5::Context) -> (digest: [u8; 16])
    ensures
        digest@ == md5_digest(md5_consumed(ctx)),
{
    ctx.compute().0
}

/// An MD5 computation fed piece by piece; its view is the data fed so far.
pub struct Md5Stream {
    ctx: md5::Context,
}

impl View for Md5Stream {
    type V = Seq<u8>;

    closed spec fn view(&self) -> Seq<u8> {
        md5_consumed(self.ctx)
    }
}

impl Md5Stream {
    /// A stream that has been fed nothing.
    pub fn new() -> (s: Self)
        ensures
            s@ == Seq::<u8>::empty(),
    {
        Md5Stream { ctx: md5_context_new() }
    }

    /// Feeds `data` after what was fed before.
    pub fn update(&mut self, data: &[u8])
        ensures
            final(self)@ == old(self)@ + data@,
    {
        md5_context_consume(&mut self.ctx, data);
    }

    /// The digest of all the data fed.
    pub fn finish(self) -> (digest: [u8; 16])
        ensures
            digest@ == md5_digest(self@),
    {
        md5_context_compute(self.ctx)
    }
}

// ---------------------------------------------------------------- hex

/// The lower-case hexadecimal digits.
pub const HEX_DIGITS: [char; 16] = [
    '0', '1', '2', '3', '4', '5', '6', '7', '8', '9', 'a', 'b', 'c', 'd', 'e', 'f',
];

/// Two lower-case hexadecimal digits per byte, high nibble first.
pub open spec fn hex_lower(bytes: Seq<u8>) -> Seq<char>
    decreases bytes.len(),
{
    if bytes.len() == 0 {
        Seq::empty()
    } else {
        let b = bytes.last();
        hex_lower(bytes.drop_last()).push(HEX_DIGITS@[(b / 16) as int]).push(
            HEX_DIGITS@[(b % 16) as int],
        )
    }
}

/// Encodes bytes as lower-case hexadecimal (what `{:x}` prints for a digest).
pub fn to_hex_lower(bytes: &[u8]) -> (hex: Vec<char>)
    ensures
        hex@ == hex_lower(bytes@),
{
    let mut hex: Vec<char> = Vec::new();
    let n = bytes.len();
    for i in 0..n
        invariant
            n == bytes@.len(),
            hex@ == hex_lower(bytes@.take(i as int)),
    {
        let b = bytes[i];
        assert(bytes@.take(i + 1).drop_last() == bytes@.take(i as int));
        hex.push(HEX_DIGITS[(b / 16) as usize]);
        hex.push(HEX_DIGITS[(b % 16) as usize]);
    }
    assert(bytes@.take(n as int) == bytes@);
    hex
}


// ---------------------------------------------------------------- listing

/// The value of a lower-case hexadecimal digit; -1 for any other
/// character.
pub open spec fn hex_digit_value(c: char) -> int {
    if '0' <= c <= '9' {
        (c as int) - ('0' as int)
    } else if 'a' <= c <= 'f' {
        (c as int) - ('a' as int) + 10
    } else {
        -1
    }
}

/// The hexadecimal text of some bytes reads back as those bytes: two
/// lower-case hexadecimal digits per byte, in order, the high nibble first.
pub proof fn hex_lower_reads_back(bytes: Seq<u8>)
    ensures
        hex_lower(bytes).len() == 2 * bytes.len(),
        forall|k: int|
            #![trigger hex_lower(bytes)[2 * k]]
            0 <= k < bytes.len() ==> 0 <= hex_digit_value(hex_lower(bytes)[2 * k]) < 16 && 0
                <= hex_digit_value(hex_lower(bytes)[2 * k + 1]) < 16 && 16 * hex_digit_value(
                hex_lower(bytes)[2 * k],
            ) + hex_digit_value(hex_lower(bytes)[2 * k + 1]) == bytes[k],
    decreases bytes.len(),
{
    if bytes.len() > 0 {
        let init = bytes.drop_last();
        hex_lower_reads_back(init);
        let b = bytes.last();
        let h0 = hex_lower(init);
        let hi = HEX_DIGITS@[(b / 16) as int];
        let lo = HEX_DIGITS@[(b % 16) as int];
        let h = hex_lower(bytes);
        assert(h == h0.push(hi).push(lo));
        assert forall|v: int| 0 <= v < 16 implies hex_digit_value(#[trigger] HEX_DIGITS@[v]) == v by {
            assert(HEX_DIGITS@ == seq!['0', '1', '2', '3', '4', '5', '6', '7', '8', '9', 'a', 'b', 'c', 'd', 'e', 'f']);
        }
        assert(hex_digit_value(hi) == b / 16);
        assert(hex_digit_value(lo) == b % 16);
        assert forall|k: int|
            #![trigger hex_lower(bytes)[2 * k]]
            0 <= k < bytes.len() implies 0 <= hex_digit_value(hex_lower(bytes)[2 * k]) < 16 && 0
                <= hex_digit_value(hex_lower(bytes)[2 * k + 1]) < 16 && 16 * hex_digit_value(
                hex_lower(bytes)[2 * k],
            ) + hex_digit_value(hex_lower(bytes)[2 * k + 1]) == bytes[k] by {
            if k < init.len() {
                assert(init[k] == bytes[k]);
                assert(h[2 * k] == h0[2 * k] && h[2 * k + 1] == h0[2 * k + 1]);
            } else {
                assert(h[2 * k] == hi && h[2 * k + 1] == lo);
            }
        }
    }
}

/// The checksum listing, relative to the game folder.
pub const CHECKSUMS_FILE: &'static str = "tools/checksums.md5";

/// Files whose checksum is not checked: the game executables, which mods
/// replace, the launcher itself and the game's own configuration.
pub const IGNORED_FILES: [&'static str; 10] = [
    "bin\\AnomalyDX11AVX.exe",
    "bin\\AnomalyDX11.exe",
    "bin\\AnomalyDX10AVX.exe",
    "bin\\AnomalyDX10.exe",
    "bin\\AnomalyDX9AVX.exe",
    "bin\\AnomalyDX9.exe",
    "bin\\AnomalyDX8AVX.exe",
    "bin\\AnomalyDX8.exe",
    "fsgame.ltx",
    "AnomalyLauncher.exe",
];

/// Whether a listed file name is one of `IGNORED_FILES`.
pub open spec fn is_ignored_file(name: Seq<char>) -> bool {
    exists|i: int| 0 <= i < IGNORED_FILES@.len() && #[trigger] IGNORED_FILES@[i]@ == name
}

/// A character in lower case by the ASCII rules: `A` to `Z` become `a` to
/// `z`, everything else stays.
pub open spec fn ascii_lower(c: char) -> char {
    if 'A' <= c <= 'Z' {
        ((c as int) + 32) as char
    } else {
        c
    }
}

/// Every character in lower case by the ASCII rules.
pub open spec fn ascii_lowercase(s: Seq<char>) -> Seq<char> {
    s.map_values(|c: char| ascii_lower(c))
}

/// The string in full lower case (`str::to_lowercase`, Unicode rules).
pub uninterp spec fn lowercase(s: Seq<char>) -> Seq<char>;

/// `str::to_lowercase`: claims the result is `lowercase` of the argument,
/// and, for a string of ASCII characters, that only `A` to `Z` change, to
/// `a` to `z` (Unicode's lower-case mapping on ASCII); what the mapping does
/// to other characters is not stated.
#[verifier::external_body]
fn to_lowercase(s: &str) -> (res: String)
    ensures
        res@ == lowercase(s@),
        is_ascii_chars(s@) ==> res@ == ascii_lowercase(s@),
{
    s.to_lowercase()
}

/// What one line of the listing asks to check: `<checksum> *<file>`, as the
/// checksum in lower case and the file name; `None` for a line with fewer
/// than two tokens, whose second token does not start with `*`, whose first
/// token starts with `#` or `;` (comments), or that names an ignored file.
/// Tokens after the second are not read.
pub open spec fn listing_line(line: Seq<char>) -> Option<(Seq<char>, Seq<char>)> {
    let t = tokens(line);
    if t.len() < 2 || !(t[1].len() > 0 && t[1][0] == '*') || (t[0].len() > 0 && (t[0][0]
        == '#' || t[0][0] == ';')) {
        None
    } else {
        let name = t[1].drop_first();
        if is_ignored_file(name) {
            None
        } else {
            Some((lowercase(t[0]), name))
        }
    }
}

/// The checks that the first `n` lines ask for, in order, each with the
/// index of its line.
pub open spec fn listing_checks(ls: Seq<Seq<char>>, n: int) -> Seq<(int, Seq<char>, Seq<char>)>
    decreases n,
{
    if n <= 0 {
        Seq::empty()
    } else {
        let before = listing_checks(ls, n - 1);
        match listing_line(ls[n - 1]) {
            Some((checksum, name)) => before.push((n - 1, checksum, name)),
            None => before,
        }
    }
}

/// One file to check: the index of its line in the listing, the expected
/// checksum in lower case, and the file's path.
pub struct ChecksumEntry {
    pub line_index: usize,
    pub checksum: String,
    pub file_name: String,
}

impl View for ChecksumEntry {
    type V = (int, Seq<char>, Seq<char>);

    open spec fn view(&self) -> (int, Seq<char>, Seq<char>) {
        (self.line_index as int, self.checksum@, self.file_name@)
    }
}

/// A parsed checksum listing: how many lines it has and the files to check.
pub struct ChecksumListing {
    pub line_count: usize,
    pub entries: Vec<ChecksumEntry>,
}

impl ChecksumListing {
    /// The checks, by view.
    pub open spec fn checks(&self) -> Seq<(int, Seq<char>, Seq<char>)> {
        self.entries@.map_values(|e: ChecksumEntry| e@)
    }
}

/// Whether two character sequences are equal.
fn same_chars(a: &[char], b: &[char]) -> (r: bool)
    ensures
        r == (a@ == b@),
{
    if a.len() != b.len() {
        return false;
    }
    let r = has_prefix(a, b);
    assert(r ==> a@ =~= b@);
    r
}

/// Whether `name` is one of `IGNORED_FILES`.
pub fn ignored_file(name: &[char]) -> (r: bool)
    ensures
        r == is_ignored_file(name@),
{
    let n = IGNORED_FILES.len();
    for i in 0..n
        invariant
            n == IGNORED_FILES@.len(),
            forall|j: int| 0 <= j < i ==> IGNORED_FILES@[j]@ != name@,
    {
        let candidate = chars_of(IGNORED_FILES[i]);
        if same_chars(candidate.as_slice(), name) {
            return true;
        }
    }
    false
}

/// Reads one line of the listing (see `listing_line`).
pub fn parse_listing_line(line: &[char]) -> (res: Option<(String, String)>)
    ensures
        match res {
            Some((c, f)) => listing_line(line@) == Some((c@, f@)),
            None => listing_line(line@) is None,
        },
        match res {
            Some((c, _)) => is_ascii_chars(tokens(line@)[0]) ==> c@ == ascii_lowercase(
                tokens(line@)[0],
            ),
            None => true,
        },
{
    let t = split_tokens(line);
    proof {
        if t.len() >= 1 {
            lemma_char_vec_deep_view(&t@[0]);
        }
        if t.len() >= 2 {
            lemma_char_vec_deep_view(&t@[1]);
        }
    }
    if t.len() < 2 {
        return None;
    }
    let first = &t[0];
    let second = &t[1];
    if !(second.len() > 0 && second[0] == '*') {
        return None;
    }
    if first.len() > 0 && (first[0] == '#' || first[0] == ';') {
        return None;
    }
    let name = second.as_slice().split_at(1).1;
    assert(name@ == second@.drop_first());
    if ignored_file(name) {
        return None;
    }
    let checksum = to_lowercase(string_of(first.as_slice()).as_str());
    Some((checksum, string_of(name)))
}

/// A listed file is skipped only when its name is exactly one of
/// `IGNORED_FILES`: on a line `<checksum> *<file>` that is not a comment,
/// any other name, in whatever folder, is checked against the checksum in
/// lower case, and a name equal to one of them is not checked.
pub proof fn only_ignored_names_are_skipped(line: Seq<char>)
    requires
        tokens(line).len() >= 2,
        tokens(line)[1].len() > 0,
        tokens(line)[1][0] == '*',
        !(tokens(line)[0].len() > 0 && (tokens(line)[0][0] == '#' || tokens(line)[0][0] == ';')),
    ensures
        (forall|i: int|
            0 <= i < IGNORED_FILES@.len() ==> (#[trigger] IGNORED_FILES@[i])@ != tokens(
                line,
            )[1].drop_first()) ==> listing_line(line) == Some(
            (lowercase(tokens(line)[0]), tokens(line)[1].drop_first()),
        ),
        (exists|i: int|
            0 <= i < IGNORED_FILES@.len() && (#[trigger] IGNORED_FILES@[i])@ == tokens(
                line,
            )[1].drop_first()) ==> listing_line(line) is None,
{
}


/// For a check read from the listing's lines: when the first token of its
/// line is ASCII, the checksum is that token with `A` to `Z` lowered.
pub open spec fn ascii_checksum_lowered(
    ls: Seq<Seq<char>>,
    check: (int, Seq<char>, Seq<char>),
) -> bool {
    0 <= check.0 < ls.len() && is_ascii_chars(tokens(ls[check.0])[0]) ==> check.1
        == ascii_lowercase(tokens(ls[check.0])[0])
}

/// The number of lines of a listing and the files it asks to check.
pub open spec fn listing_of(text: Seq<char>) -> (int, Seq<(int, Seq<char>, Seq<char>)>) {
    let ls = lines(text);
    (ls.len() as int, listing_checks(ls, ls.len() as int))
}

/// The checks of the first `n` lines refer to those lines in increasing
/// order, and none of them names an ignored file.
proof fn lemma_listing_checks_ordered(ls: Seq<Seq<char>>, n: int)
    requires
        0 <= n <= ls.len(),
    ensures
        forall|k: int|
            0 <= k < listing_checks(ls, n).len() ==> 0 <= (#[trigger] listing_checks(ls, n)[k]).0
                < n && !is_ignored_file(listing_checks(ls, n)[k].2),
        forall|k: int, l: int|
            0 <= k < l < listing_checks(ls, n).len() ==> (#[trigger] listing_checks(ls, n)[k]).0
                < (#[trigger] listing_checks(ls, n)[l]).0,
    decreases n,
{
    if n > 0 {
        lemma_listing_checks_ordered(ls, n - 1);
        let before = listing_checks(ls, n - 1);
        let now = listing_checks(ls, n);
        match listing_line(ls[n - 1]) {
            Some((checksum, name)) => {
                assert(now == before.push((n - 1, checksum, name)));
                assert(!is_ignored_file(name));
                assert forall|k: int| 0 <= k < before.len() implies #[trigger] now[k] == before[k] by {}
            },
            None => {
                assert(now == before);
            },
        }
    }
}

/// Every check that a listing asks for names a line of the listing and a
/// file that is not ignored, and the checks come in the order of their
/// lines, each line at most once.
pub proof fn listing_checks_follow_lines(text: Seq<char>)
    ensures
        forall|k: int|
            0 <= k < listing_of(text).1.len() ==> 0 <= (#[trigger] listing_of(text).1[k]).0
                < listing_of(text).0 && !is_ignored_file(listing_of(text).1[k].2),
        forall|k: int, l: int|
            0 <= k < l < listing_of(text).1.len() ==> (#[trigger] listing_of(text).1[k]).0
                < (#[trigger] listing_of(text).1[l]).0,
{
    let ls = lines(text);
    lemma_listing_checks_ordered(ls, ls.len() as int);
}

/// Parses a checksum listing: its lines (see `text::lines`), each read by
/// `listing_line`.
pub fn parse_checksum_listing(text: &str) -> (listing: ChecksumListing)
    ensures
        (listing.line_count as int, listing.checks()) == listing_of(text@),
        forall|k: int|
            0 <= k < listing.entries@.len() ==> ascii_checksum_lowered(
                lines(text@),
                (#[trigger] listing.entries@[k])@,
            ),
{
    let chars = chars_of(text);
    let ls = split_lines(chars.as_slice());
    let ghost lv = ls.deep_view();
    let n = ls.len();
    let mut entries: Vec<ChecksumEntry> = Vec::new();
    for i in 0..n
        invariant
            n == ls@.len(),
            lv == ls.deep_view(),
            lv == lines(text@),
            entries@.map_values(|e: ChecksumEntry| e@) == listing_checks(lv, i as int),
            forall|k: int|
                0 <= k < entries@.len() ==> ascii_checksum_lowered(lv, (#[trigger] entries@[k])@),
    {
        proof {
            lemma_char_vec_deep_view(&ls@[i as int]);
        }
        let ghost before = entries@.map_values(|e: ChecksumEntry| e@);
        match parse_listing_line(ls[i].as_slice()) {
            Some((checksum, file_name)) => {
                let entry = ChecksumEntry { line_index: i, checksum, file_name };
                let ghost ev = entry@;
                entries.push(entry);
                assert(entries@.map_values(|e: ChecksumEntry| e@) =~= before.push(ev));
                assert(ascii_checksum_lowered(lv, ev));
            },
            None => {},
        }
    }
    ChecksumListing { line_count: n, entries }
}


// ---------------------------------------------------------------- results

/// What checking one listed file found.
#[derive(PartialEq, Eq, Structural, Clone, Copy, Debug)]
pub enum FileStatus {
    /// The file does not exist.
    Missing,
    /// The file's digest matches the listed checksum.
    Intact,
    /// The file's digest differs from the listed checksum.
    Corrupt,
}

/// The status of a listed file, given the digest of its contents or
/// `None` when it does not exist.
pub open spec fn status_of(checksum: Seq<char>, digest: Option<Seq<u8>>) -> FileStatus {
    match digest {
        None => FileStatus::Missing,
        Some(d) => if hex_lower(d) == checksum {
            FileStatus::Intact
        } else {
            FileStatus::Corrupt
        },
    }
}

/// Classifies a listed file: missing when there is no digest, intact when
/// the lower-case hexadecimal digest equals the listed checksum, corrupt
/// otherwise.
pub fn file_status(entry: &ChecksumEntry, digest: Option<[u8; 16]>) -> (status: FileStatus)
    ensures
        status == status_of(
            entry.checksum@,
            match digest {
                Some(d) => Some(d@),
                None => None,
            },
        ),
{
    match digest {
        None => FileStatus::Missing,
        Some(d) => {
            let hex = to_hex_lower(&d);
            let expected = chars_of(entry.checksum.as_str());
            if same_chars(hex.as_slice(), expected.as_slice()) {
                FileStatus::Intact
            } else {
                FileStatus::Corrupt
            }
        },
    }
}

/// The missing and the corrupt files found so far, in listing order.
pub struct VerificationTally {
    pub missing: Vec<String>,
    pub corrupt: Vec<String>,
}

impl VerificationTally {
    /// Nothing found yet.
    pub fn new() -> (t: Self)
        ensures
            t.missing@.len() == 0,
            t.corrupt@.len() == 0,
    {
        VerificationTally { missing: Vec::new(), corrupt: Vec::new() }
    }

    /// Records what checking `entry` found: a missing file joins the missing
    /// list, a corrupt one the corrupt list, an intact one neither.
    pub fn record(&mut self, entry: &ChecksumEntry, status: FileStatus)
        ensures
            views(final(self).missing@) == if status == FileStatus::Missing {
                views(old(self).missing@).push(entry.file_name@)
            } else {
                views(old(self).missing@)
            },
            views(final(self).corrupt@) == if status == FileStatus::Corrupt {
                views(old(self).corrupt@).push(entry.file_name@)
            } else {
                views(old(self).corrupt@)
            },
    {
        let ghost m0 = views(self.missing@);
        let ghost c0 = views(self.corrupt@);
        match status {
            FileStatus::Missing => {
                self.missing.push(entry.file_name.clone());
                assert(views(self.missing@) =~= m0.push(entry.file_name@));
            },
            FileStatus::Corrupt => {
                self.corrupt.push(entry.file_name.clone());
                assert(views(self.corrupt@) =~= c0.push(entry.file_name@));
            },
            FileStatus::Intact => {},
        }
    }
}

/// The digests by view, `None` for a missing file.
pub open spec fn digest_views(ds: Seq<Option<[u8; 16]>>) -> Seq<Option<Seq<u8>>> {
    ds.map_values(
        |d: Option<[u8; 16]>|
            match d {
                Some(x) => Some(x@),
                None => None,
            },
    )
}

/// The missing files and the corrupt files of a whole check, each in
/// listing order, given the checks and, for each, the digest of its file
/// (`None` when it does not exist).
pub open spec fn check_results(
    checks: Seq<(int, Seq<char>, Seq<char>)>,
    digests: Seq<Option<Seq<u8>>>,
) -> (Seq<Seq<char>>, Seq<Seq<char>>)
    decreases checks.len(),
{
    if checks.len() == 0 || digests.len() == 0 {
        (Seq::empty(), Seq::empty())
    } else {
        let (missing, corrupt) = check_results(checks.drop_last(), digests.drop_last());
        let e = checks.last();
        match status_of(e.1, digests.last()) {
            FileStatus::Missing => (missing.push(e.2), corrupt),
            FileStatus::Corrupt => (missing, corrupt.push(e.2)),
            FileStatus::Intact => (missing, corrupt),
        }
    }
}

/// A whole check reports every problem and nothing else: each listed file
/// without a digest is among the missing files, each one whose digest, in
/// lower-case hexadecimal, differs from its listed checksum is among the
/// corrupt files, and every file reported is such a file.
pub proof fn check_results_report_each_problem(
    checks: Seq<(int, Seq<char>, Seq<char>)>,
    digests: Seq<Option<Seq<u8>>>,
)
    requires
        checks.len() == digests.len(),
    ensures
        forall|k: int|
            0 <= k < checks.len() && #[trigger] digests[k] is None ==> check_results(
                checks,
                digests,
            ).0.contains(checks[k].2),
        forall|k: int|
            0 <= k < checks.len() && #[trigger] digests[k] is Some && hex_lower(digests[k]->0)
                != checks[k].1 ==> check_results(checks, digests).1.contains(checks[k].2),
        forall|j: int|
            #![trigger check_results(checks, digests).0[j]]
            0 <= j < check_results(checks, digests).0.len() ==> exists|k: int|
                #![trigger checks[k]]
                0 <= k < checks.len() && checks[k].2 == check_results(checks, digests).0[j]
                    && digests[k] is None,
        forall|j: int|
            #![trigger check_results(checks, digests).1[j]]
            0 <= j < check_results(checks, digests).1.len() ==> exists|k: int|
                #![trigger checks[k]]
                0 <= k < checks.len() && checks[k].2 == check_results(checks, digests).1[j]
                    && digests[k] is Some && hex_lower(digests[k]->0) != checks[k].1,
    decreases checks.len(),
{
    if checks.len() > 0 {
        let cr = checks.drop_last();
        let dr = digests.drop_last();
        let last = checks.len() - 1;
        let (m0, c0) = check_results(cr, dr);
        let (m, c) = check_results(checks, digests);
        check_results_report_each_problem(cr, dr);
        assert forall|k: int| 0 <= k < cr.len() implies #[trigger] cr[k] == checks[k] && dr[k]
            == digests[k] by {}
        assert forall|j: int| 0 <= j < m0.len() implies #[trigger] m[j] == m0[j] by {}
        assert forall|j: int| 0 <= j < c0.len() implies #[trigger] c[j] == c0[j] by {}
        assert forall|k: int|
            0 <= k < checks.len() && #[trigger] digests[k] is None implies m.contains(
                checks[k].2,
            ) by {
            if k < last {
                assert(dr[k] == digests[k]);
                assert(m0.contains(cr[k].2));
                let j = choose|j: int| 0 <= j < m0.len() && m0[j] == cr[k].2;
                assert(m[j] == m0[j]);
            } else {
                assert(m == m0.push(checks[k].2));
                assert(m[m0.len() as int] == checks[k].2);
            }
        }
        assert forall|k: int|
            0 <= k < checks.len() && #[trigger] digests[k] is Some && hex_lower(digests[k]->0)
                != checks[k].1 implies c.contains(checks[k].2) by {
            if k < last {
                assert(dr[k] == digests[k]);
                assert(c0.contains(cr[k].2));
                let j = choose|j: int| 0 <= j < c0.len() && c0[j] == cr[k].2;
                assert(c[j] == c0[j]);
            } else {
                assert(c == c0.push(checks[k].2));
                assert(c[c0.len() as int] == checks[k].2);
            }
        }
        assert forall|j: int|
            #![trigger m[j]]
            0 <= j < m.len() implies exists|k: int|
            #![trigger checks[k]]
            0 <= k < checks.len() && checks[k].2 == m[j] && digests[k] is None by {
            if j < m0.len() {
                assert(m[j] == m0[j]);
                let k = choose|k: int|
                    #![trigger cr[k]]
                    0 <= k < cr.len() && cr[k].2 == m0[j] && dr[k] is None;
                assert(cr[k] == checks[k] && dr[k] == digests[k]);
            } else {
                assert(m == m0.push(checks[last].2));
                assert(digests[last] is None);
                assert(checks[last].2 == m[j]);
            }
        }
        assert forall|j: int|
            #![trigger c[j]]
            0 <= j < c.len() implies exists|k: int|
            #![trigger checks[k]]
            0 <= k < checks.len() && checks[k].2 == c[j] && digests[k] is Some && hex_lower(
                digests[k]->0,
            ) != checks[k].1 by {
            if j < c0.len() {
                assert(c[j] == c0[j]);
                let k = choose|k: int|
                    #![trigger cr[k]]
                    0 <= k < cr.len() && cr[k].2 == c0[j] && dr[k] is Some && hex_lower(dr[k]->0)
                        != cr[k].1;
                assert(cr[k] == checks[k] && dr[k] == digests[k]);
            } else {
                assert(c == c0.push(checks[last].2));
                assert(digests[last] is Some && hex_lower(digests[last]->0) != checks[last].1);
                assert(checks[last].2 == c[j]);
            }
        }
    }
}

/// Checks every entry against its file's digest (`digests[i]` for
/// `entries[i]`, `None` when the file does not exist) and tallies the
/// results.
pub fn check_all(entries: &Vec<ChecksumEntry>, digests: &Vec<Option<[u8; 16]>>) -> (t:
    VerificationTally)
    requires
        entries@.len() == digests@.len(),
    ensures
        (views(t.missing@), views(t.corrupt@)) == check_results(
            entries@.map_values(|e: ChecksumEntry| e@),
            digest_views(digests@),
        ),
{
    let ghost ev = entries@.map_values(|e: ChecksumEntry| e@);
    let ghost dv = digest_views(digests@);
    let mut t = VerificationTally::new();
    let n = entries.len();
    assert(views(t.missing@) =~= Seq::<Seq<char>>::empty());
    assert(views(t.corrupt@) =~= Seq::<Seq<char>>::empty());
    for i in 0..n
        invariant
            n == entries@.len(),
            n == digests@.len(),
            ev == entries@.map_values(|e: ChecksumEntry| e@),
            dv == digest_views(digests@),
            (views(t.missing@), views(t.corrupt@)) == check_results(
                ev.take(i as int),
                dv.take(i as int),
            ),
    {
        assert(ev.take(i + 1).drop_last() =~= ev.take(i as int));
        assert(dv.take(i + 1).drop_last() =~= dv.take(i as int));
        assert(ev.take(i + 1).last() == entries@[i as int]@);
        assert(dv.take(i + 1).last() == (match digests@[i as int] {
            Some(x) => Some(x@),
            None => None,
        }));
        let status = file_status(&entries[i], digests[i]);
        t.record(&entries[i], status);
    }
    assert(ev.take(n as int) =~= ev);
    assert(dv.take(n as int) =~= dv);
    t
}

/// How `{:?}` prints a string: quoted, with escapes.
pub uninterp spec fn debug_quoted(s: Seq<char>) -> Seq<char>;

/// `<str as Debug>::fmt`, through `format!("{:?}")`: claims the result is
/// `debug_quoted` of the argument; the escaping rules are not stated.
#[verifier::external_body]
fn debug_string(s: &str) -> (res: String)
    ensures
        res@ == debug_quoted(s@),
{
    format!("{:?}", s)
}

/// How `{:?}` prints a list of strings: `[` and `]` around the quoted
/// items separated by `, `.
pub open spec fn debug_list(items: Seq<Seq<char>>) -> Seq<char> {
    seq!['['] + join(quoted_all(items), seq![',', ' ']) + seq![']']
}

/// Each string quoted as `{:?}` prints it.
pub open spec fn quoted_all(items: Seq<Seq<char>>) -> Seq<Seq<char>> {
    items.map_values(|s: Seq<char>| debug_quoted(s))
}

/// Prints a list of strings as `{:?}` does.
pub fn format_debug_list(items: &Vec<String>) -> (res: Vec<char>)
    ensures
        res@ == debug_list(views(items@)),
{
    let mut parts: Vec<Vec<char>> = Vec::new();
    let n = items.len();
    for i in 0..n
        invariant
            n == items@.len(),
            parts.deep_view() == quoted_all(views(items@).take(i as int)),
    {
        let q = debug_string(items[i].as_str());
        let qc = chars_of(q.as_str());
        let ghost before = parts.deep_view();
        proof {
            lemma_char_vec_deep_view(&qc);
        }
        let ghost qv = qc@;
        parts.push(qc);
        assert(parts.deep_view() =~= before.push(qv));
        assert(views(items@).take(i + 1) =~= views(items@).take(i as int).push(items@[i as int]@));
        assert(quoted_all(views(items@).take(i + 1)) =~= quoted_all(views(items@).take(i as int)).push(qv));
    }
    assert(views(items@).take(n as int) =~= views(items@));
    let sep = vec![',', ' '];
    let joined = join_chars(&parts, sep.as_slice());
    let mut res = vec!['['];
    res.extend_from_slice(joined.as_slice());
    res.push(']');
    assert(res@ =~= debug_list(views(items@)));
    res
}


/// The summary of a finished check: a paragraph on missing files when
/// there are any, then one on corrupt files when there are any.
pub open spec fn verification_report(missing: Seq<Seq<char>>, corrupt: Seq<Seq<char>>) -> Seq<
    char,
> {
    (if missing.len() > 0 {
        "* files missing, please reinstall *\n"@ + "Missing files: "@ + debug_list(missing)
            + "\n"@
    } else {
        Seq::empty()
    }) + (if corrupt.len() > 0 {
        "* checksum verification failed, please reinstall *\n"@ + "Corrupt files: "@
            + debug_list(corrupt) + "\n"@
    } else {
        Seq::empty()
    })
}

/// The summary shown when there is no listing to check against.
pub open spec fn listing_missing_report() -> Seq<char> {
    "* checksums.md5 missing *"@
}

/// `listing_missing_report`, as a string.
pub fn checksums_missing_report() -> (r: String)
    ensures
        r@ == listing_missing_report(),
{
    String::from_str("* checksums.md5 missing *")
}

impl VerificationTally {
    /// The summary of the check (see `verification_report`).
    pub fn report(&self) -> (r: String)
        ensures
            r@ == verification_report(views(self.missing@), views(self.corrupt@)),
    {
        let mut r = String::new();
        if self.missing.len() > 0 {
            r.append("* files missing, please reinstall *\n");
            r.append("Missing files: ");
            let l = format_debug_list(&self.missing);
            r.append(string_of(l.as_slice()).as_str());
            r.append("\n");
        }
        if self.corrupt.len() > 0 {
            r.append("* checksum verification failed, please reinstall *\n");
            r.append("Corrupt files: ");
            let l = format_debug_list(&self.corrupt);
            r.append(string_of(l.as_slice()).as_str());
            r.append("\n");
        }
        assert(r@ =~= verification_report(views(self.missing@), views(self.corrupt@)));
        r
    }
}

/// One `- <file>` line per file.
pub open spec fn bullet_list(files: Seq<Seq<char>>) -> Seq<char>
    decreases files.len(),
{
    if files.len() == 0 {
        Seq::empty()
    } else {
        bullet_list(files.drop_last()) + "- "@ + files.last() + "\n"@
    }
}

/// The message shown when a check finishes: its summary, then the missing
/// files as a list when there are any, then the corrupt files as a list, or
/// a note that none are corrupt.
pub open spec fn result_message(
    summary: Seq<char>,
    missing: Seq<Seq<char>>,
    corrupt: Seq<Seq<char>>,
) -> Seq<char> {
    summary + (if missing.len() > 0 {
        "\nMissing files:\n"@ + bullet_list(missing)
    } else {
        Seq::empty()
    }) + (if corrupt.len() > 0 {
        "\nCorrupt files:\n"@ + bullet_list(corrupt)
    } else {
        "\nNo issues found.\n"@
    })
}

/// Appends `bullet_list(files)` to `out`.
fn append_bullets(out: &mut String, files: &Vec<String>)
    ensures
        final(out)@ == old(out)@ + bullet_list(views(files@)),
{
    let n = files.len();
    let ghost start = out@;
    for i in 0..n
        invariant
            n == files@.len(),
            out@ == start + bullet_list(views(files@).take(i as int)),
    {
        assert(views(files@).take(i + 1).drop_last() =~= views(files@).take(i as int));
        out.append("- ");
        out.append(files[i].as_str());
        out.append("\n");
        assert(out@ =~= start + bullet_list(views(files@).take(i + 1)));
    }
    assert(views(files@).take(n as int) =~= views(files@));
}

/// Builds `result_message`.
pub fn verification_message(summary: &str, missing: &Vec<String>, corrupt: &Vec<String>) -> (r:
    String)
    ensures
        r@ == result_message(summary@, views(missing@), views(corrupt@)),
{
    let mut r = String::from_str(summary);
    if missing.len() > 0 {
        r.append("\nMissing files:\n");
        append_bullets(&mut r, missing);
    }
    if corrupt.len() > 0 {
        r.append("\nCorrupt files:\n");
        append_bullets(&mut r, corrupt);
    } else {
        r.append("\nNo issues found.\n");
    }
    assert(r@ =~= result_message(summary@, views(missing@), views(corrupt@)));
    r
}

} // verus!
