//! Character-level text utilities: lines, whitespace-separated tokens,
//! prefixes and suffixes, joining.
use vstd::prelude::*;

verus! {

broadcast use vstd::string::group_string_axioms;

/// The views of a list of strings.
pub open spec fn views(v: Seq<String>) -> Seq<Seq<char>> {
    v.map_values(|s: String| s@)
}

/// `String::push`: claims the string afterwards is the old one followed by
/// `c`.
#[verifier::external_body]
pub(crate) fn push_char(s: &mut String, c: char)
    ensures
        final(s)@ == old(s)@.push(c),
{
    s.push(c)
}

/// The characters of a string, in order.
pub fn chars_of(s: &str) -> (v: Vec<char>)
    ensures
        v@ == s@,
{
    let mut v: Vec<char> = Vec::new();
    for c in it: s.chars()
        invariant
            v@ == it.seq().take(it.index() as int),
            it.seq() == s@,
    {
        v.push(c);
    }
    v
}

/// A string holding exactly the given characters.
pub fn string_of(chars: &[char]) -> (s: String)
    ensures
        s@ == chars@,
{
    let mut s = String::new();
    let n = chars.len();
    for i in 0..n
        invariant
            n == chars@.len(),
            s@ == chars@.take(i as int),
    {
        push_char(&mut s, chars[i]);
        assert(chars@.take(i + 1) == chars@.take(i as int).push(chars@[i as int]));
    }
    assert(chars@.take(n as int) == chars@);
    s
}

/// Unicode `White_Space`: the characters that `char::is_whitespace` accepts.
pub open spec fn is_white_space(c: char) -> bool {
    let u = c as u32;
    ||| 0x09 <= u <= 0x0d
    ||| u == 0x20
    ||| u == 0x85
    ||| u == 0xa0
    ||| u == 0x1680
    ||| 0x2000 <= u <= 0x200a
    ||| u == 0x2028
    ||| u == 0x2029
    ||| u == 0x202f
    ||| u == 0x205f
    ||| u == 0x3000
}

/// Decides `is_white_space`.
pub fn is_whitespace(c: char) -> (b: bool)
    ensures
        b == is_white_space(c),
{
    let u = c as u32;
    (0x09 <= u && u <= 0x0d) || u == 0x20 || u == 0x85 || u == 0xa0 || u == 0x1680 || (0x2000
        <= u && u <= 0x200a) || u == 0x2028 || u == 0x2029 || u == 0x202f || u == 0x205f || u
        == 0x3000
}


/// For a vector of characters the deep view is the view.
pub proof fn lemma_char_vec_deep_view(v: &Vec<char>)
    ensures
        v.deep_view() == v@,
{
    assert(v.deep_view() =~= v@);
}

/// Scanning `s` left to right for whitespace-separated tokens: the tokens
/// completed so far and the token still being read.
pub open spec fn token_scan(s: Seq<char>) -> (Seq<Seq<char>>, Seq<char>)
    decreases s.len(),
{
    if s.len() == 0 {
        (Seq::empty(), Seq::empty())
    } else {
        let (done, cur) = token_scan(s.drop_last());
        let c = s.last();
        if is_white_space(c) {
            if cur.len() > 0 {
                (done.push(cur), Seq::empty())
            } else {
                (done, Seq::empty())
            }
        } else {
            (done, cur.push(c))
        }
    }
}

/// The maximal runs of non-whitespace characters of `s`, in order
/// (what `str::split_whitespace` yields).
pub open spec fn tokens(s: Seq<char>) -> Seq<Seq<char>> {
    let (done, cur) = token_scan(s);
    if cur.len() > 0 {
        done.push(cur)
    } else {
        done
    }
}

/// Splits a character sequence into its whitespace-separated tokens.
pub fn split_tokens(s: &[char]) -> (res: Vec<Vec<char>>)
    ensures
        res.deep_view() == tokens(s@),
{
    let mut done: Vec<Vec<char>> = Vec::new();
    let mut cur: Vec<char> = Vec::new();
    let n = s.len();
    for i in 0..n
        invariant
            n == s@.len(),
            (done.deep_view(), cur@) == token_scan(s@.take(i as int)),
    {
        let c = s[i];
        proof {
            assert(s@.take(i + 1).drop_last() == s@.take(i as int));
        }
        if is_whitespace(c) {
            if cur.len() > 0 {
                let finished = cur;
                cur = Vec::new();
                let ghost before = done.deep_view();
                let ghost fv = finished@;
                proof { lemma_char_vec_deep_view(&finished); }
                done.push(finished);
                assert(done.deep_view() =~= before.push(fv));
            } else {
                cur = Vec::new();
            }
        } else {
            cur.push(c);
        }
    }
    assert(s@.take(n as int) == s@);
    if cur.len() > 0 {
        let last = cur;
        let ghost before = done.deep_view();
        let ghost lv = last@;
        proof { lemma_char_vec_deep_view(&last); }
        done.push(last);
        assert(done.deep_view() =~= before.push(lv));
    }
    done
}

/// Scanning text that follows a completed token appends the tokens of that
/// text to those already completed.
proof fn lemma_token_scan_append(p: Seq<char>, b: Seq<char>)
    requires
        token_scan(p).1.len() == 0,
    ensures
        token_scan(p + b) == (token_scan(p).0 + token_scan(b).0, token_scan(b).1),
    decreases b.len(),
{
    if b.len() == 0 {
        assert(p + b =~= p);
        assert(token_scan(p).0 + token_scan(b).0 =~= token_scan(p).0);
    } else {
        lemma_token_scan_append(p, b.drop_last());
        assert((p + b).drop_last() =~= p + b.drop_last());
        assert((p + b).last() == b.last());
        let d = token_scan(p).0;
        let db = token_scan(b.drop_last()).0;
        let cb = token_scan(b.drop_last()).1;
        assert((d + db).push(cb) =~= d + db.push(cb));
    }
}

/// Text without whitespace is scanned as one token still being read.
proof fn lemma_token_scan_word(s: Seq<char>)
    requires
        forall|i: int| 0 <= i < s.len() ==> !is_white_space(#[trigger] s[i]),
    ensures
        token_scan(s) == (Seq::<Seq<char>>::empty(), s),
    decreases s.len(),
{
    if s.len() > 0 {
        lemma_token_scan_word(s.drop_last());
        assert(s.drop_last().push(s.last()) =~= s);
    }
}

/// A whitespace character splits the tokens: the tokens of text with a
/// whitespace character inside are those before it followed by those after
/// it.
pub proof fn tokens_split_at_whitespace(a: Seq<char>, w: char, b: Seq<char>)
    requires
        is_white_space(w),
    ensures
        tokens(a + seq![w] + b) == tokens(a) + tokens(b),
{
    let p = a.push(w);
    assert(p.drop_last() =~= a);
    assert(token_scan(p) == (tokens(a), Seq::<char>::empty()));
    assert(a + seq![w] + b =~= p + b);
    lemma_token_scan_append(p, b);
    let db = token_scan(b).0;
    let cb = token_scan(b).1;
    assert((tokens(a) + db).push(cb) =~= tokens(a) + db.push(cb));
}

/// Text without whitespace is a single token, or none when it is empty.
pub proof fn tokens_of_a_word(s: Seq<char>)
    requires
        forall|i: int| 0 <= i < s.len() ==> !is_white_space(#[trigger] s[i]),
    ensures
        tokens(s) == if s.len() > 0 {
            seq![s]
        } else {
            Seq::<Seq<char>>::empty()
        },
{
    lemma_token_scan_word(s);
    assert(Seq::<Seq<char>>::empty().push(s) =~= seq![s]);
}

/// A line without one trailing carriage return.
pub open spec fn strip_cr(l: Seq<char>) -> Seq<char> {
    if l.len() > 0 && l.last() == '\r' {
        l.drop_last()
    } else {
        l
    }
}

/// Scanning `s` left to right for lines: the lines ended by a newline so
/// far (each without its `\r\n` or `\n`) and the text after the last newline.
pub open spec fn line_scan(s: Seq<char>) -> (Seq<Seq<char>>, Seq<char>)
    decreases s.len(),
{
    if s.len() == 0 {
        (Seq::empty(), Seq::empty())
    } else {
        let (done, cur) = line_scan(s.drop_last());
        let c = s.last();
        if c == '\n' {
            (done.push(strip_cr(cur)), Seq::empty())
        } else {
            (done, cur.push(c))
        }
    }
}

/// The lines of `s` (what `str::lines` yields): split at each `\n`, a `\r`
/// right before the `\n` dropped, and no empty line after a final `\n`.
pub open spec fn lines(s: Seq<char>) -> Seq<Seq<char>> {
    let (done, cur) = line_scan(s);
    if cur.len() > 0 {
        done.push(cur)
    } else {
        done
    }
}

/// Reading text without a newline extends the line being read.
pub proof fn lemma_line_scan_append(s: Seq<char>, t: Seq<char>)
    requires
        !t.contains('\n'),
    ensures
        line_scan(s + t) == (line_scan(s).0, line_scan(s).1 + t),
    decreases t.len(),
{
    if t.len() == 0 {
        assert(s + t =~= s);
        assert(line_scan(s).1 + t =~= line_scan(s).1);
    } else {
        let t0 = t.drop_last();
        assert(!t0.contains('\n')) by {
            if t0.contains('\n') {
                let k = choose|k: int| 0 <= k < t0.len() && t0[k] == '\n';
                assert(t[k] == '\n');
            }
        }
        lemma_line_scan_append(s, t0);
        assert((s + t).drop_last() =~= s + t0);
        assert((s + t).last() == t.last());
        assert(t.last() != '\n') by {
            if t.last() == '\n' {
                assert(t[t.len() - 1] == '\n');
            }
        }
        assert(line_scan(s).1 + t0 + seq![t.last()] =~= line_scan(s).1 + t);
        assert((line_scan(s).1 + t0).push(t.last()) =~= line_scan(s).1 + t);
    }
}

/// Whether a list of lines comes back unchanged from being joined with
/// newlines and split again: no line holds a newline, no line but the last
/// ends with a carriage return, and the last line is not empty.
pub open spec fn lines_round_trip(ls: Seq<Seq<char>>) -> bool {
    &&& forall|i: int| 0 <= i < ls.len() ==> !(#[trigger] ls[i]).contains('\n')
    &&& forall|i: int| 0 <= i < ls.len() - 1 ==> strip_cr(#[trigger] ls[i]) == ls[i]
    &&& ls.len() > 0 ==> ls.last().len() > 0
}

/// The scan of joined lines: all but the last line are complete, the last
/// is being read.
proof fn lemma_line_scan_join(ls: Seq<Seq<char>>)
    requires
        ls.len() > 0,
        forall|i: int| 0 <= i < ls.len() ==> !(#[trigger] ls[i]).contains('\n'),
        forall|i: int| 0 <= i < ls.len() - 1 ==> strip_cr(#[trigger] ls[i]) == ls[i],
    ensures
        line_scan(join(ls, "\n"@)) == (ls.drop_last(), ls.last()),
    decreases ls.len(),
{
    reveal_strlit("\n");
    if ls.len() == 1 {
        lemma_line_scan_append(Seq::empty(), ls[0]);
        assert(Seq::<char>::empty() + ls[0] =~= ls[0]);
        assert(ls.drop_last() =~= Seq::<Seq<char>>::empty());
    } else {
        let init = ls.drop_last();
        assert forall|i: int| 0 <= i < init.len() implies !(#[trigger] init[i]).contains('\n') by {
            assert(init[i] == ls[i]);
        }
        assert forall|i: int| 0 <= i < init.len() - 1 implies strip_cr(#[trigger] init[i])
            == init[i] by {
            assert(init[i] == ls[i]);
        }
        lemma_line_scan_join(init);
        let j = join(init, "\n"@);
        assert(line_scan(j.push('\n')) == (line_scan(j).0.push(strip_cr(line_scan(j).1)), Seq::<
            char,
        >::empty())) by {
            assert(j.push('\n').drop_last() =~= j);
        }
        assert(strip_cr(init.last()) == init.last()) by {
            assert(init.last() == ls[ls.len() - 2]);
        }
        assert(init.drop_last().push(init.last()) =~= init);
        assert(join(ls, "\n"@) =~= j.push('\n') + ls.last());
        lemma_line_scan_append(j.push('\n'), ls.last());
        assert(Seq::<char>::empty() + ls.last() =~= ls.last());
    }
}

/// A line that holds no newline and does not end with a carriage return.
pub open spec fn is_plain_line(l: Seq<char>) -> bool {
    !l.contains('\n') && strip_cr(l) == l
}

/// Lines that are all plain, the last of them not empty, survive being
/// joined and split again.
pub proof fn plain_lines_round_trip(ls: Seq<Seq<char>>)
    requires
        forall|i: int| 0 <= i < ls.len() ==> is_plain_line(#[trigger] ls[i]),
        ls.len() > 0 ==> ls.last().len() > 0,
    ensures
        lines_round_trip(ls),
{
    assert forall|i: int| 0 <= i < ls.len() implies !(#[trigger] ls[i]).contains('\n') by {
        assert(is_plain_line(ls[i]));
    }
    assert forall|i: int| 0 <= i < ls.len() - 1 implies strip_cr(#[trigger] ls[i]) == ls[i] by {
        assert(is_plain_line(ls[i]));
    }
}

/// A sequence without `c` that is extended by a character other than `c`
/// still lacks `c`.
proof fn lemma_push_lacks(s: Seq<char>, x: char, c: char)
    requires
        !s.contains(c),
        x != c,
    ensures
        !s.push(x).contains(c),
{
    if s.push(x).contains(c) {
        let k = choose|k: int| 0 <= k < s.push(x).len() && s.push(x)[k] == c;
        if k < s.len() {
            assert(s[k] == c);
        }
    }
}

/// A prefix of a sequence without `c` lacks `c` too.
proof fn lemma_prefix_lacks(s: Seq<char>, n: int, c: char)
    requires
        !s.contains(c),
        0 <= n <= s.len(),
    ensures
        !s.take(n).contains(c),
{
    if s.take(n).contains(c) {
        let k = choose|k: int| 0 <= k < s.take(n).len() && s.take(n)[k] == c;
        assert(s[k] == c);
    }
}

/// Scanning a text without carriage returns yields lines and a pending
/// text that hold neither newlines nor carriage returns.
proof fn lemma_line_scan_plain(s: Seq<char>)
    requires
        !s.contains('\r'),
    ensures
        forall|i: int| 0 <= i < line_scan(s).0.len() ==> !(#[trigger] line_scan(s).0[i]).contains(
            '\n',
        ) && !line_scan(s).0[i].contains('\r'),
        !line_scan(s).1.contains('\n'),
        !line_scan(s).1.contains('\r'),
    decreases s.len(),
{
    if s.len() > 0 {
        let p = s.drop_last();
        lemma_prefix_lacks(s, s.len() - 1, '\r');
        assert(p =~= s.take(s.len() - 1));
        lemma_line_scan_plain(p);
        let (done, cur) = line_scan(p);
        let c = s.last();
        assert(c != '\r') by {
            assert(s[s.len() - 1] == c);
        }
        if c == '\n' {
            assert(strip_cr(cur) == cur) by {
                if cur.len() > 0 && cur.last() == '\r' {
                    assert(cur[cur.len() - 1] == '\r');
                }
            }
            assert forall|i: int| 0 <= i < line_scan(s).0.len() implies !(#[trigger] line_scan(
                s,
            ).0[i]).contains('\n') && !line_scan(s).0[i].contains('\r') by {
                if i < done.len() {
                    assert(line_scan(s).0[i] == done[i]);
                }
            }
            assert(line_scan(s).1 =~= Seq::<char>::empty());
        } else {
            lemma_push_lacks(cur, c, '\n');
            lemma_push_lacks(cur, c, '\r');
        }
    }
}

/// The lines of a text without carriage returns are plain.
pub proof fn lines_of_text_without_cr_are_plain(t: Seq<char>)
    requires
        !t.contains('\r'),
    ensures
        forall|i: int| 0 <= i < lines(t).len() ==> is_plain_line(#[trigger] lines(t)[i]),
{
    lemma_line_scan_plain(t);
    let (done, cur) = line_scan(t);
    assert forall|i: int| 0 <= i < lines(t).len() implies is_plain_line(#[trigger] lines(t)[i]) by {
        let l = lines(t)[i];
        if i < done.len() {
            assert(l == done[i]);
        } else {
            assert(l == cur);
        }
        assert(!l.contains('\n'));
        assert(!l.contains('\r'));
        if l.len() > 0 && l.last() == '\r' {
            assert(l[l.len() - 1] == '\r');
        }
    }
}

/// Joining lines with newlines and splitting the text into lines again
/// gives back the lines, for lines that satisfy `lines_round_trip`.
pub proof fn lines_of_joined(ls: Seq<Seq<char>>)
    requires
        lines_round_trip(ls),
    ensures
        lines(join(ls, "\n"@)) == ls,
{
    if ls.len() == 0 {
        assert(join(ls, "\n"@) =~= Seq::<char>::empty());
    } else {
        lemma_line_scan_join(ls);
        assert(ls.drop_last().push(ls.last()) =~= ls);
    }
}

/// Splits a character sequence into its lines.
pub fn split_lines(s: &[char]) -> (res: Vec<Vec<char>>)
    ensures
        res.deep_view() == lines(s@),
{
    let mut done: Vec<Vec<char>> = Vec::new();
    let mut cur: Vec<char> = Vec::new();
    let n = s.len();
    for i in 0..n
        invariant
            n == s@.len(),
            (done.deep_view(), cur@) == line_scan(s@.take(i as int)),
    {
        let c = s[i];
        proof {
            assert(s@.take(i + 1).drop_last() == s@.take(i as int));
        }
        if c == '\n' {
            let mut finished = cur;
            let len = finished.len();
            if len > 0 && finished[len - 1] == '\r' {
                finished.pop();
            }
            cur = Vec::new();
            let ghost before = done.deep_view();
            let ghost fv = finished@;
            proof { lemma_char_vec_deep_view(&finished); }
            done.push(finished);
            assert(done.deep_view() =~= before.push(fv));
        } else {
            cur.push(c);
        }
    }
    assert(s@.take(n as int) == s@);
    if cur.len() > 0 {
        let last = cur;
        let ghost before = done.deep_view();
        let ghost lv = last@;
        proof { lemma_char_vec_deep_view(&last); }
        done.push(last);
        assert(done.deep_view() =~= before.push(lv));
    }
    done
}


/// The parts written one after another with `sep` between neighbours.
pub open spec fn join(parts: Seq<Seq<char>>, sep: Seq<char>) -> Seq<char>
    decreases parts.len(),
{
    if parts.len() == 0 {
        Seq::empty()
    } else if parts.len() == 1 {
        parts[0]
    } else {
        join(parts.drop_last(), sep) + sep + parts.last()
    }
}

/// Joins the parts with `sep` between neighbours.
pub fn join_chars(parts: &Vec<Vec<char>>, sep: &[char]) -> (res: Vec<char>)
    ensures
        res@ == join(parts.deep_view(), sep@),
{
    let mut res: Vec<char> = Vec::new();
    let n = parts.len();
    let ghost dv = parts.deep_view();
    for i in 0..n
        invariant
            n == parts@.len(),
            dv == parts.deep_view(),
            res@ == join(dv.take(i as int), sep@),
    {
        proof {
            lemma_char_vec_deep_view(&parts@[i as int]);
            assert(dv.take(i + 1).drop_last() == dv.take(i as int));
        }
        if i > 0 {
            res.extend_from_slice(sep);
        }
        res.extend_from_slice(parts[i].as_slice());
    }
    assert(dv.take(n as int) == dv);
    res
}

/// Whether `p` is a prefix of `s`.
pub fn has_prefix(s: &[char], p: &[char]) -> (b: bool)
    ensures
        b == p@.is_prefix_of(s@),
{
    if p.len() > s.len() {
        return false;
    }
    let n = p.len();
    for i in 0..n
        invariant
            n == p@.len(),
            n <= s@.len(),
            forall|j: int| 0 <= j < i ==> s@[j] == p@[j],
    {
        if s[i] != p[i] {
            return false;
        }
    }
    assert(p@ =~= s@.subrange(0, n as int));
    true
}

/// Whether `p` is a suffix of `s`.
pub fn has_suffix(s: &[char], p: &[char]) -> (b: bool)
    ensures
        b == p@.is_suffix_of(s@),
{
    if p.len() > s.len() {
        return false;
    }
    let n = p.len();
    let off = s.len() - n;
    for i in 0..n
        invariant
            n == p@.len(),
            off + n == s@.len(),
            off + n <= usize::MAX,
            forall|j: int| 0 <= j < i ==> s@[off + j] == p@[j],
    {
        if s[off + i] != p[i] {
            assert(s@.subrange(off as int, s@.len() as int)[i as int] == s@[off + i]);
            return false;
        }
    }
    assert(p@ =~= s@.subrange(off as int, s@.len() as int));
    true
}

} // verus!
