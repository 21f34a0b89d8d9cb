//! Verified text utilities: substring search, placeholder replacement and
//! decimal rendering, the building blocks of prompt composition and tool
//! result formatting.

use vstd::prelude::*;
use vstd::string::*;

verus! {

/// True when `pat` occurs in `s` starting at index `i`.
pub open spec fn occurs_at(s: Seq<char>, pat: Seq<char>, i: int) -> bool {
    0 <= i && i + pat.len() <= s.len() && s.subrange(i, i + pat.len()) == pat
}

/// True when `pat` occurs somewhere in `s`.
pub open spec fn contains_seq(s: Seq<char>, pat: Seq<char>) -> bool {
    exists|i: int| occurs_at(s, pat, i)
}

/// The text that results from replacing every occurrence of `pat` in `s` with
/// `val`, scanning left to right and never rescanning replaced text.  An empty
/// pattern leaves the text unchanged.
pub open spec fn replaced(s: Seq<char>, pat: Seq<char>, val: Seq<char>) -> Seq<char>
    decreases s.len(),
{
    if pat.len() == 0 || s.len() < pat.len() {
        s
    } else if s.subrange(0, pat.len() as int) == pat {
        val + replaced(s.skip(pat.len() as int), pat, val)
    } else {
        seq![s[0]] + replaced(s.skip(1), pat, val)
    }
}

/// The text that results from replacing the leftmost occurrence of `pat` in
/// `s` with `val`, and nothing else.  An empty pattern matches at the start,
/// so `val` is prepended.
pub open spec fn replaced_first(s: Seq<char>, pat: Seq<char>, val: Seq<char>) -> Seq<char>
    decreases s.len(),
{
    if pat.len() == 0 {
        val + s
    } else if s.len() < pat.len() {
        s
    } else if s.subrange(0, pat.len() as int) == pat {
        val + s.skip(pat.len() as int)
    } else {
        seq![s[0]] + replaced_first(s.skip(1), pat, val)
    }
}

/// Character-for-character equality of two string slices.
pub fn str_eq(a: &str, b: &str) -> (r: bool)
    ensures
        r == (a@ == b@),
{
    let an: usize = a.unicode_len();
    let bn: usize = b.unicode_len();
    if an != bn {
        return false;
    }
    let mut i: usize = 0;
    while i < an
        invariant
            an == a@.len(),
            an == b@.len(),
            i <= an,
            forall|j: int| 0 <= j < i ==> a@[j] == b@[j],
        decreases an - i,
    {
        if a.get_char(i) != b.get_char(i) {
            return false;
        }
        i = i + 1;
    }
    proof {
        assert(a@ =~= b@);
    }
    true
}

/// Whether `pat` occurs in `s` at position `i`.
pub fn match_at(s: &str, pat: &str, i: usize) -> (r: bool)
    requires
        i + pat@.len() <= s@.len(),
    ensures
        r == occurs_at(s@, pat@, i as int),
{
    let n: usize = s.unicode_len();
    let m: usize = pat.unicode_len();
    let mut j: usize = 0;
    while j < m
        invariant
            n == s@.len(),
            m == pat@.len(),
            i + m <= n,
            j <= m,
            forall|k: int| 0 <= k < j ==> s@[i + k] == pat@[k],
        decreases m - j,
    {
        if s.get_char(i + j) != pat.get_char(j) {
            proof {
                assert(s@.subrange(i as int, i + pat@.len()) != pat@) by {
                    assert(s@.subrange(i as int, i + pat@.len())[j as int] == s@[i + j]);
                }
            }
            return false;
        }
        j = j + 1;
    }
    proof {
        assert(s@.subrange(i as int, i + pat@.len()) =~= pat@);
    }
    true
}

/// Whether `pat` occurs anywhere in `s`.
pub fn contains_str(s: &str, pat: &str) -> (r: bool)
    ensures
        r == contains_seq(s@, pat@),
{
    let n: usize = s.unicode_len();
    let m: usize = pat.unicode_len();
    if m == 0 {
        proof {
            assert(occurs_at(s@, pat@, 0)) by {
                assert(s@.subrange(0, 0) =~= pat@);
            }
        }
        return true;
    }
    if m > n {
        proof {
            assert(forall|i: int| !occurs_at(s@, pat@, i));
        }
        return false;
    }
    let mut i: usize = 0;
    while i <= n - m
        invariant
            n == s@.len(),
            m == pat@.len(),
            1 <= m <= n,
            i <= n - m + 1,
            forall|j: int| 0 <= j < i ==> !occurs_at(s@, pat@, j),
        decreases n - i,
    {
        if match_at(s, pat, i) {
            return true;
        }
        i = i + 1;
    }
    proof {
        assert(forall|j: int| occurs_at(s@, pat@, j) ==> 0 <= j <= n - m);
    }
    false
}

/// Replaces every occurrence of `pat` in `s` with `val`, scanning left to
/// right; replaced text is not rescanned.  With an empty pattern the text
/// comes back unchanged.
pub fn replace_all(s: &str, pat: &str, val: &str) -> (r: String)
    ensures
        r@ == replaced(s@, pat@, val@),
{
    let n: usize = s.unicode_len();
    let m: usize = pat.unicode_len();
    if m == 0 {
        return String::from_str(s);
    }
    let mut out: String = String::new();
    let mut i: usize = 0;
    proof {
        assert(s@.skip(0) =~= s@);
        assert(Seq::<char>::empty() + replaced(s@, pat@, val@) =~= replaced(s@, pat@, val@));
    }
    while i < n
        invariant
            n == s@.len(),
            m == pat@.len(),
            m >= 1,
            i <= n,
            out@ + replaced(s@.skip(i as int), pat@, val@) == replaced(s@, pat@, val@),
        decreases n - i,
    {
        if m <= n - i && match_at(s, pat, i) {
            out.append(val);
            proof {
                assert(s@.skip(i as int).subrange(0, pat@.len() as int) =~= s@.subrange(
                    i as int,
                    i + pat@.len(),
                ));
                assert(s@.skip(i as int).skip(pat@.len() as int) =~= s@.skip(i + pat@.len()));
                assert(replaced(s@.skip(i as int), pat@, val@) == val@ + replaced(
                    s@.skip(i + pat@.len()),
                    pat@,
                    val@,
                ));
            }
            i = i + m;
        } else {
            let piece = s.substring_char(i, i + 1);
            out.append(piece);
            proof {
                if i + m <= n {
                    assert(s@.skip(i as int).len() >= pat@.len());
                    assert(s@.skip(i as int).subrange(0, pat@.len() as int) =~= s@.subrange(
                        i as int,
                        i + pat@.len(),
                    ));
                    assert(s@.skip(i as int).subrange(0, pat@.len() as int) != pat@);
                }
                assert(s@.skip(i as int) =~= seq![s@[i as int]] + s@.skip(i + 1));
                assert(s@.skip(i as int).skip(1) =~= s@.skip(i + 1));
                assert(piece@ =~= seq![s@[i as int]]);
                assert(replaced(s@.skip(i as int), pat@, val@) == seq![s@[i as int]] + replaced(
                    s@.skip(i + 1),
                    pat@,
                    val@,
                ));
            }
            i = i + 1;
        }
    }
    proof {
        assert(s@.skip(n as int) =~= Seq::<char>::empty());
        assert(out@ + Seq::<char>::empty() =~= out@);
    }
    out
}

/// Replaces the leftmost occurrence of `pat` in `s` with `val`; the rest of
/// the text is kept as it is.  Returns `None` when `pat` does not occur.
pub fn replace_first(s: &str, pat: &str, val: &str) -> (r: Option<String>)
    ensures
        match r {
            Some(t) => contains_seq(s@, pat@) && t@ == replaced_first(s@, pat@, val@),
            None => !contains_seq(s@, pat@),
        },
{
    let n: usize = s.unicode_len();
    let m: usize = pat.unicode_len();
    if m == 0 {
        proof {
            assert(occurs_at(s@, pat@, 0)) by {
                assert(s@.subrange(0, 0) =~= pat@);
            }
        }
        let mut out: String = String::from_str(val);
        out.append(s);
        return Some(out);
    }
    if m > n {
        proof {
            assert(forall|i: int| !occurs_at(s@, pat@, i));
        }
        return None;
    }
    let mut i: usize = 0;
    while i <= n - m
        invariant
            n == s@.len(),
            m == pat@.len(),
            1 <= m <= n,
            i <= n - m + 1,
            forall|j: int| 0 <= j < i ==> !occurs_at(s@, pat@, j),
        decreases n - i,
    {
        if match_at(s, pat, i) {
            let mut out: String = String::from_str(s.substring_char(0, i));
            out.append(val);
            out.append(s.substring_char(i + m, n));
            proof {
                lemma_replaced_first_at(s@, pat@, val@, i as int);
                assert(s@.subrange(0, i as int) + val@ + s@.subrange(i + m, n as int)
                    =~= s@.subrange(0, i as int) + (val@ + s@.subrange(i + m, n as int)));
            }
            return Some(out);
        }
        i = i + 1;
    }
    proof {
        assert(forall|j: int| occurs_at(s@, pat@, j) ==> 0 <= j <= n - m);
    }
    None
}

/// The leftmost occurrence determines the replacement: when `pat` occurs at
/// `i` and nowhere earlier, the replaced text is the prefix, then `val`, then
/// the tail after the occurrence.
proof fn lemma_replaced_first_at(s: Seq<char>, pat: Seq<char>, val: Seq<char>, i: int)
    requires
        pat.len() >= 1,
        occurs_at(s, pat, i),
        forall|j: int| 0 <= j < i ==> !occurs_at(s, pat, j),
    ensures
        replaced_first(s, pat, val) == s.subrange(0, i) + (val + s.subrange(
            i + pat.len(),
            s.len() as int,
        )),
    decreases s.len(),
{
    if i == 0 {
        assert(s.subrange(0, pat.len() as int) == pat);
        assert(s.skip(pat.len() as int) =~= s.subrange(pat.len() as int, s.len() as int));
        assert(s.subrange(0, 0) + (val + s.subrange(pat.len() as int, s.len() as int)) =~= val
            + s.subrange(pat.len() as int, s.len() as int));
    } else {
        assert(!occurs_at(s, pat, 0));
        assert(s.len() >= pat.len());
        assert(s.subrange(0, pat.len() as int) != pat) by {
            assert(s.subrange(0, pat.len() as int) =~= s.subrange(0, 0 + pat.len() as int));
        }
        let t = s.skip(1);
        assert(occurs_at(t, pat, i - 1)) by {
            assert(t.subrange(i - 1, i - 1 + pat.len()) =~= s.subrange(i, i + pat.len()));
        }
        assert(forall|j: int| 0 <= j < i - 1 ==> !occurs_at(t, pat, j)) by {
            assert forall|j: int| 0 <= j < i - 1 && occurs_at(t, pat, j) implies false by {
                assert(s.subrange(j + 1, j + 1 + pat.len()) =~= t.subrange(j, j + pat.len()));
                assert(occurs_at(s, pat, j + 1));
            }
        }
        lemma_replaced_first_at(t, pat, val, i - 1);
        assert(t.subrange(0, i - 1) =~= s.subrange(1, i));
        assert(t.subrange(i - 1 + pat.len(), t.len() as int) =~= s.subrange(
            i + pat.len(),
            s.len() as int,
        ));
        assert(seq![s[0]] + (s.subrange(1, i) + (val + s.subrange(i + pat.len(), s.len() as int)))
            =~= s.subrange(0, i) + (val + s.subrange(i + pat.len(), s.len() as int)));
    }
}

/// The lines joined with a newline between each pair, as a line-joining
/// `join` leaves them.
pub open spec fn joined_lines(lines: Seq<Seq<char>>) -> Seq<char>
    decreases lines.len(),
{
    if lines.len() == 0 {
        Seq::<char>::empty()
    } else if lines.len() == 1 {
        lines[0]
    } else {
        joined_lines(lines.drop_last()) + "\n"@ + lines.last()
    }
}

/// Joins the lines with a newline between each pair.
pub fn join_lines(lines: &Vec<String>) -> (r: String)
    ensures
        r@ == joined_lines(lines.deep_view()),
{
    let n: usize = lines.len();
    if n == 0 {
        return String::new();
    }
    let ghost views = lines.deep_view();
    let mut out: String = lines[0].clone();
    let mut i: usize = 1;
    proof {
        assert(views.take(1) =~= seq![views[0]]);
    }
    while i < n
        invariant
            n == lines@.len(),
            1 <= i <= n,
            views == lines.deep_view(),
            views.len() == n,
            out@ == joined_lines(views.take(i as int)),
        decreases n - i,
    {
        out.append("\n");
        out.append(lines[i].as_str());
        proof {
            assert(views.take(i + 1).drop_last() =~= views.take(i as int));
            assert(views.take(i + 1).last() == views[i as int]);
        }
        i = i + 1;
    }
    proof {
        assert(views.take(n as int) =~= views);
    }
    out
}

/// The number of characters before the first newline of `s`, or the length
/// of `s` when it holds none.
pub open spec fn line_prefix_len(s: Seq<char>) -> nat
    decreases s.len(),
{
    if s.len() == 0 {
        0
    } else if s[0] == '\n' {
        0
    } else {
        (1 + line_prefix_len(s.drop_first())) as nat
    }
}

/// The prefix before the first newline holds no newline, ends at one when
/// one exists, and never reaches past the text.
pub proof fn lemma_line_prefix(s: Seq<char>)
    ensures
        line_prefix_len(s) <= s.len(),
        forall|j: int| 0 <= j < line_prefix_len(s) ==> s[j] != '\n',
        line_prefix_len(s) < s.len() ==> s[line_prefix_len(s) as int] == '\n',
    decreases s.len(),
{
    if s.len() == 0 {
    } else if s[0] == '\n' {
    } else {
        let d = s.drop_first();
        lemma_line_prefix(d);
        assert(line_prefix_len(s) == 1 + line_prefix_len(d));
        assert forall|j: int| 0 <= j < line_prefix_len(s) implies s[j] != '\n' by {
            if j >= 1 {
                assert(d[j - 1] == s[j]);
                assert(d[j - 1] != '\n');
            }
        }
        if line_prefix_len(s) < s.len() {
            assert(s[line_prefix_len(s) as int] == d[line_prefix_len(d) as int]);
        }
    }
}

/// A line with its trailing carriage return removed, as a split at line
/// endings leaves a line that stood before a carriage return and newline.
pub open spec fn strip_cr(line: Seq<char>) -> Seq<char> {
    if line.len() > 0 && line.last() == '\r' {
        line.drop_last()
    } else {
        line
    }
}

/// The lines of `s`, split at newlines, each stripped of a carriage return
/// standing before the newline; a final line ending opens no further line.
pub open spec fn split_lines(s: Seq<char>) -> Seq<Seq<char>>
    decreases s.len(),
{
    if s.len() == 0 {
        Seq::<Seq<char>>::empty()
    } else {
        let k = line_prefix_len(s);
        if k >= s.len() {
            seq![s]
        } else {
            seq![strip_cr(s.take(k as int))] + split_lines(s.skip(k as int + 1))
        }
    }
}

/// Splits `s` into its lines.
pub fn split_into_lines(s: &str) -> (r: Vec<String>)
    ensures
        r.deep_view() =~= split_lines(s@),
{
    let n: usize = s.unicode_len();
    let mut lines: Vec<String> = Vec::new();
    let mut p: usize = 0;
    proof {
        assert(s@.skip(0) =~= s@);
        assert(lines.deep_view() + split_lines(s@) =~= split_lines(s@));
    }
    while p < n
        invariant
            n == s@.len(),
            p <= n,
            split_lines(s@) =~= lines.deep_view() + split_lines(s@.skip(p as int)),
        decreases n - p,
    {
        let ghost tail = s@.skip(p as int);
        let ghost old_lines = lines.deep_view();
        let mut q: usize = p;
        while q < n && s.get_char(q) != '\n'
            invariant
                n == s@.len(),
                p <= q <= n,
                forall|j: int| p <= j < q ==> s@[j] != '\n',
            decreases n - q,
        {
            q = q + 1;
        }
        proof {
            lemma_line_prefix(tail);
            assert(forall|j: int| 0 <= j < q - p ==> tail[j] == s@[p + j] && tail[j] != '\n');
            if q < n {
                assert(tail[q - p] == s@[q as int]);
            }
            assert(line_prefix_len(tail) == q - p) by {
                if line_prefix_len(tail) < q - p {
                    assert(tail[line_prefix_len(tail) as int] == '\n');
                    assert(s@[p + line_prefix_len(tail)] == '\n');
                } else if line_prefix_len(tail) > q - p {
                    assert(q < n);
                    assert(tail[q - p] != '\n');
                }
            }
        }
        if q == n {
            let line = String::from_str(s.substring_char(p, n));
            lines.push(line);
            proof {
                assert(tail =~= s@.subrange(p as int, n as int));
                assert(split_lines(tail) =~= seq![tail]);
                assert(lines.deep_view() =~= old_lines + seq![tail]);
                assert(s@.skip(n as int) =~= Seq::<char>::empty());
                assert(old_lines + split_lines(tail) =~= lines.deep_view() + split_lines(
                    s@.skip(n as int),
                ));
            }
            p = n;
        } else {
            let line: String = if q > p && s.get_char(q - 1) == '\r' {
                String::from_str(s.substring_char(p, q - 1))
            } else {
                String::from_str(s.substring_char(p, q))
            };
            proof {
                assert(tail.take(q - p) =~= s@.subrange(p as int, q as int));
                assert(strip_cr(s@.subrange(p as int, q as int)) =~= line@);
                assert(tail.skip(q - p + 1) =~= s@.skip(q + 1));
                assert(split_lines(tail) =~= seq![strip_cr(tail.take(q - p))] + split_lines(
                    tail.skip(q - p + 1),
                ));
            }
            lines.push(line);
            proof {
                assert(lines.deep_view() =~= old_lines + seq![strip_cr(tail.take(q - p))]);
                assert(old_lines + split_lines(tail) =~= lines.deep_view() + split_lines(
                    s@.skip(q + 1),
                ));
            }
            p = q + 1;
        }
    }
    proof {
        assert(s@.skip(n as int) =~= Seq::<char>::empty());
    }
    lines
}

/// The character standing for the decimal digit `d`.
pub open spec fn digit_char(d: nat) -> char {
    if d == 0 {
        '0'
    } else if d == 1 {
        '1'
    } else if d == 2 {
        '2'
    } else if d == 3 {
        '3'
    } else if d == 4 {
        '4'
    } else if d == 5 {
        '5'
    } else if d == 6 {
        '6'
    } else if d == 7 {
        '7'
    } else if d == 8 {
        '8'
    } else {
        '9'
    }
}

/// The decimal digits of `n`, most significant first, with no leading zeros
/// except for the number zero itself.
pub open spec fn dec_digits(n: nat) -> Seq<char>
    decreases n,
{
    if n < 10 {
        seq![digit_char(n)]
    } else {
        dec_digits(n / 10).push(digit_char(n % 10))
    }
}

/// The decimal rendering of a signed value: a minus sign before the digits of
/// the magnitude when the value is negative.
pub open spec fn signed_dec_digits(v: int) -> Seq<char> {
    if v < 0 {
        seq!['-'] + dec_digits((-v) as nat)
    } else {
        dec_digits(v as nat)
    }
}

/// A one-character string slice holding the digit `d`.
fn digit_str(d: u64) -> (r: &'static str)
    requires
        d < 10,
    ensures
        r@ =~= seq![digit_char(d as nat)],
{
    proof {
        reveal_strlit("0");
        reveal_strlit("1");
        reveal_strlit("2");
        reveal_strlit("3");
        reveal_strlit("4");
        reveal_strlit("5");
        reveal_strlit("6");
        reveal_strlit("7");
        reveal_strlit("8");
        reveal_strlit("9");
    }
    if d == 0 {
        "0"
    } else if d == 1 {
        "1"
    } else if d == 2 {
        "2"
    } else if d == 3 {
        "3"
    } else if d == 4 {
        "4"
    } else if d == 5 {
        "5"
    } else if d == 6 {
        "6"
    } else if d == 7 {
        "7"
    } else if d == 8 {
        "8"
    } else {
        "9"
    }
}

/// Renders `n` in decimal.
pub fn u64_to_string(n: u64) -> (r: String)
    ensures
        r@ == dec_digits(n as nat),
    decreases n,
{
    if n < 10 {
        String::from_str(digit_str(n))
    } else {
        let mut s = u64_to_string(n / 10);
        s.append(digit_str(n % 10));
        proof {
            assert(dec_digits((n / 10) as nat) + seq![digit_char((n % 10) as nat)] =~= dec_digits(
                (n / 10) as nat,
            ).push(digit_char((n % 10) as nat)));
        }
        s
    }
}

/// Renders `v` in decimal, with a leading minus sign when negative.
pub fn i32_to_string(v: i32) -> (r: String)
    ensures
        r@ == signed_dec_digits(v as int),
{
    let wide: i64 = v as i64;
    if wide < 0 {
        let mag: u64 = (-wide) as u64;
        let mut s: String = String::from_str("-");
        s.append(u64_to_string(mag).as_str());
        proof {
            reveal_strlit("-");
            assert("-"@ =~= seq!['-']);
        }
        s
    } else {
        u64_to_string(v as u64)
    }
}

} // verus!
