//! Character-level text operations on `Seq<char>` models, shared by the
//! parsers and formatters of the library.
use vstd::prelude::*;

verus! {

/// The Unicode `White_Space` property, which `char::is_whitespace` tests.
pub open spec fn is_ws(c: char) -> bool {
    ||| ('\u{9}' <= c && c <= '\u{d}')
    ||| c == ' '
    ||| c == '\u{85}'
    ||| c == '\u{a0}'
    ||| c == '\u{1680}'
    ||| ('\u{2000}' <= c && c <= '\u{200a}')
    ||| c == '\u{2028}'
    ||| c == '\u{2029}'
    ||| c == '\u{202f}'
    ||| c == '\u{205f}'
    ||| c == '\u{3000}'
}

/// Number of leading whitespace characters.
pub open spec fn lead_ws(s: Seq<char>) -> nat
    decreases s.len(),
{
    if s.len() > 0 && is_ws(s[0]) {
        1 + lead_ws(s.drop_first())
    } else {
        0
    }
}

/// Number of trailing whitespace characters.
pub open spec fn trail_ws(s: Seq<char>) -> nat
    decreases s.len(),
{
    if s.len() > 0 && is_ws(s.last()) {
        1 + trail_ws(s.drop_last())
    } else {
        0
    }
}

/// Number of leading copies of `c`.
pub open spec fn lead_ch(s: Seq<char>, c: char) -> nat
    decreases s.len(),
{
    if s.len() > 0 && s[0] == c {
        1 + lead_ch(s.drop_first(), c)
    } else {
        0
    }
}

/// Number of trailing copies of `c`.
pub open spec fn trail_ch(s: Seq<char>, c: char) -> nat
    decreases s.len(),
{
    if s.len() > 0 && s.last() == c {
        1 + trail_ch(s.drop_last(), c)
    } else {
        0
    }
}

/// `str::trim_start`: the text without its leading whitespace.
pub open spec fn trim_start_spec(s: Seq<char>) -> Seq<char> {
    s.skip(lead_ws(s) as int)
}

/// `str::trim_end`: the text without its trailing whitespace.
pub open spec fn trim_end_spec(s: Seq<char>) -> Seq<char> {
    s.take(s.len() - trail_ws(s))
}

/// `str::trim`: the text without leading and trailing whitespace.
pub open spec fn trim_spec(s: Seq<char>) -> Seq<char> {
    trim_end_spec(trim_start_spec(s))
}

/// `str::trim_matches(c)` for a single character `c`.
pub open spec fn trim_ch_spec(s: Seq<char>, c: char) -> Seq<char> {
    let a = s.skip(lead_ch(s, c) as int);
    a.take(a.len() - trail_ch(a, c))
}

/// The first position at or after `i` where `pat` occurs.
pub open spec fn find_from(s: Seq<char>, pat: Seq<char>, i: nat) -> Option<nat>
    decreases s.len() + 1 - i,
{
    if i + pat.len() > s.len() {
        None
    } else if s.subrange(i as int, (i + pat.len()) as int) == pat {
        Some(i)
    } else {
        find_from(s, pat, i + 1)
    }
}

/// `str::find`: the first position where `pat` occurs.
pub open spec fn find_spec(s: Seq<char>, pat: Seq<char>) -> Option<nat> {
    find_from(s, pat, 0)
}

/// `str::contains`.
pub open spec fn contains_spec(s: Seq<char>, pat: Seq<char>) -> bool {
    find_spec(s, pat) is Some
}

/// `str::starts_with`.
pub open spec fn starts_with_spec(s: Seq<char>, pat: Seq<char>) -> bool {
    pat.len() <= s.len() && s.take(pat.len() as int) == pat
}

/// The characters of `s`, in order.
pub fn chars_of(s: &str) -> (r: Vec<char>)
    ensures
        r@ == s@,
{
    let mut out: Vec<char> = Vec::new();
    for c in it: s.chars()
        invariant
            out@ == it.seq().take(it.index() as int),
    {
        out.push(c);
    }
    out
}

/// The string made of the characters of `v`: std's `FromIterator<char>`
/// for `String`, which is claimed to keep the characters in order.
#[verifier::external_body]
pub(crate) fn string_of(v: &Vec<char>) -> (r: String)
    ensures
        r@ == v@,
{
    v.iter().collect()
}

/// `char::is_whitespace`.
pub fn is_whitespace(c: char) -> (b: bool)
    ensures
        b == is_ws(c),
{
    ('\u{9}' <= c && c <= '\u{d}') || c == ' ' || c == '\u{85}' || c == '\u{a0}' || c
        == '\u{1680}' || ('\u{2000}' <= c && c <= '\u{200a}') || c == '\u{2028}' || c
        == '\u{2029}' || c == '\u{202f}' || c == '\u{205f}' || c == '\u{3000}'
}

/// The characters of `v` in `lo..hi`.
pub fn copy_range(v: &Vec<char>, lo: usize, hi: usize) -> (r: Vec<char>)
    requires
        lo <= hi <= v.len(),
    ensures
        r@ == v@.subrange(lo as int, hi as int),
{
    let mut out: Vec<char> = Vec::new();
    let mut i = lo;
    while i < hi
        invariant
            lo <= i <= hi <= v.len(),
            out@ == v@.subrange(lo as int, i as int),
        decreases hi - i,
    {
        out.push(v[i]);
        i = i + 1;
        assert(out@ =~= v@.subrange(lo as int, i as int));
    }
    out
}

/// Appends the characters of `t` to `out`.
pub fn push_all(out: &mut Vec<char>, t: &Vec<char>)
    ensures
        final(out)@ == old(out)@ + t@,
{
    let mut i: usize = 0;
    while i < t.len()
        invariant
            0 <= i <= t.len(),
            out@ == old(out)@ + t@.take(i as int),
        decreases t.len() - i,
    {
        out.push(t[i]);
        i = i + 1;
        assert(out@ =~= old(out)@ + t@.take(i as int));
    }
    assert(t@.take(t.len() as int) =~= t@);
}

/// Appends the characters of `s` to `out`.
pub fn push_str(out: &mut Vec<char>, s: &str)
    ensures
        final(out)@ == old(out)@ + s@,
{
    let t = chars_of(s);
    push_all(out, &t);
}

proof fn lemma_lead_ws_split(s: Seq<char>, i: int)
    requires
        0 <= i <= s.len(),
        forall|k: int| 0 <= k < i ==> is_ws(#[trigger] s[k]),
    ensures
        lead_ws(s) == i + lead_ws(s.skip(i)),
    decreases i,
{
    if i > 0 {
        lemma_lead_ws_split(s.drop_first(), i - 1);
        assert(s.drop_first().skip(i - 1) =~= s.skip(i));
    } else {
        assert(s.skip(0) =~= s);
    }
}

proof fn lemma_trail_ws_split(s: Seq<char>, i: int)
    requires
        0 <= i <= s.len(),
        forall|k: int| s.len() - i <= k < s.len() ==> is_ws(#[trigger] s[k]),
    ensures
        trail_ws(s) == i + trail_ws(s.take(s.len() - i)),
    decreases i,
{
    if i > 0 {
        lemma_trail_ws_split(s.drop_last(), i - 1);
        assert(s.drop_last().take(s.drop_last().len() - (i - 1)) =~= s.take(s.len() - i));
    } else {
        assert(s.take(s.len() as int) =~= s);
    }
}

proof fn lemma_lead_ch_split(s: Seq<char>, c: char, i: int)
    requires
        0 <= i <= s.len(),
        forall|k: int| 0 <= k < i ==> #[trigger] s[k] == c,
    ensures
        lead_ch(s, c) == i + lead_ch(s.skip(i), c),
    decreases i,
{
    if i > 0 {
        lemma_lead_ch_split(s.drop_first(), c, i - 1);
        assert(s.drop_first().skip(i - 1) =~= s.skip(i));
    } else {
        assert(s.skip(0) =~= s);
    }
}

proof fn lemma_trail_ch_split(s: Seq<char>, c: char, i: int)
    requires
        0 <= i <= s.len(),
        forall|k: int| s.len() - i <= k < s.len() ==> #[trigger] s[k] == c,
    ensures
        trail_ch(s, c) == i + trail_ch(s.take(s.len() - i), c),
    decreases i,
{
    if i > 0 {
        lemma_trail_ch_split(s.drop_last(), c, i - 1);
        assert(s.drop_last().take(s.drop_last().len() - (i - 1)) =~= s.take(s.len() - i));
    } else {
        assert(s.take(s.len() as int) =~= s);
    }
}

/// Number of leading whitespace characters of `v`.
pub fn count_lead_ws(v: &Vec<char>) -> (n: usize)
    ensures
        n == lead_ws(v@),
        n <= v.len(),
{
    let mut i: usize = 0;
    while i < v.len() && is_whitespace(v[i])
        invariant
            0 <= i <= v.len(),
            forall|k: int| 0 <= k < i ==> is_ws(#[trigger] v@[k]),
        decreases v.len() - i,
    {
        i = i + 1;
    }
    proof {
        lemma_lead_ws_split(v@, i as int);
        let t = v@.skip(i as int);
        if t.len() > 0 {
            assert(t[0] == v@[i as int]);
        }
    }
    i
}

/// Number of trailing whitespace characters of `v`.
pub fn count_trail_ws(v: &Vec<char>) -> (n: usize)
    ensures
        n == trail_ws(v@),
        n <= v.len(),
{
    let mut i: usize = 0;
    while i < v.len() && is_whitespace(v[v.len() - 1 - i])
        invariant
            0 <= i <= v.len(),
            forall|k: int| v.len() - i <= k < v.len() ==> is_ws(#[trigger] v@[k]),
        decreases v.len() - i,
    {
        i = i + 1;
    }
    proof {
        lemma_trail_ws_split(v@, i as int);
        let t = v@.take(v.len() - i);
        if t.len() > 0 {
            assert(t.last() == v@[v.len() - 1 - i]);
        }
    }
    i
}

/// Number of leading copies of `c` in `v`.
pub fn count_lead_ch(v: &Vec<char>, c: char) -> (n: usize)
    ensures
        n == lead_ch(v@, c),
        n <= v.len(),
{
    let mut i: usize = 0;
    while i < v.len() && v[i] == c
        invariant
            0 <= i <= v.len(),
            forall|k: int| 0 <= k < i ==> #[trigger] v@[k] == c,
        decreases v.len() - i,
    {
        i = i + 1;
    }
    proof {
        lemma_lead_ch_split(v@, c, i as int);
        let t = v@.skip(i as int);
        if t.len() > 0 {
            assert(t[0] == v@[i as int]);
        }
    }
    i
}

/// Number of trailing copies of `c` in `v`.
pub fn count_trail_ch(v: &Vec<char>, c: char) -> (n: usize)
    ensures
        n == trail_ch(v@, c),
        n <= v.len(),
{
    let mut i: usize = 0;
    while i < v.len() && v[v.len() - 1 - i] == c
        invariant
            0 <= i <= v.len(),
            forall|k: int| v.len() - i <= k < v.len() ==> #[trigger] v@[k] == c,
        decreases v.len() - i,
    {
        i = i + 1;
    }
    proof {
        lemma_trail_ch_split(v@, c, i as int);
        let t = v@.take(v.len() - i);
        if t.len() > 0 {
            assert(t.last() == v@[v.len() - 1 - i]);
        }
    }
    i
}

/// `str::trim_start`.
pub fn trim_start(v: &Vec<char>) -> (r: Vec<char>)
    ensures
        r@ == trim_start_spec(v@),
        r.len() <= v.len(),
{
    let k = count_lead_ws(v);
    let r = copy_range(v, k, v.len());
    assert(r@ =~= trim_start_spec(v@));
    r
}

/// `str::trim_end`.
pub fn trim_end(v: &Vec<char>) -> (r: Vec<char>)
    ensures
        r@ == trim_end_spec(v@),
{
    let k = count_trail_ws(v);
    let r = copy_range(v, 0, v.len() - k);
    assert(r@ =~= trim_end_spec(v@));
    r
}

/// `str::trim`.
pub fn trim(v: &Vec<char>) -> (r: Vec<char>)
    ensures
        r@ == trim_spec(v@),
{
    let a = trim_start(v);
    trim_end(&a)
}

/// `str::trim_matches(c)` for one character `c`.
pub fn trim_ch(v: &Vec<char>, c: char) -> (r: Vec<char>)
    ensures
        r@ == trim_ch_spec(v@, c),
{
    let k = count_lead_ch(v, c);
    let a = copy_range(v, k, v.len());
    assert(a@ =~= v@.skip(lead_ch(v@, c) as int));
    let m = count_trail_ch(&a, c);
    let r = copy_range(&a, 0, a.len() - m);
    assert(r@ =~= trim_ch_spec(v@, c));
    r
}

/// Whether `pat` occurs in `v` at position `i`.
pub fn occurs_at_exec(v: &Vec<char>, pat: &Vec<char>, i: usize) -> (b: bool)
    requires
        i + pat.len() <= v.len(),
    ensures
        b == (v@.subrange(i as int, i + pat.len()) == pat@),
{
    let mut k: usize = 0;
    while k < pat.len()
        invariant
            0 <= k <= pat.len(),
            i + pat.len() <= v.len(),
            forall|j: int| 0 <= j < k ==> v@[i + j] == pat@[j],
        decreases pat.len() - k,
    {
        if v[i + k] != pat[k] {
            assert(v@.subrange(i as int, i + pat.len())[k as int] != pat@[k as int]);
            return false;
        }
        k = k + 1;
    }
    assert(v@.subrange(i as int, i + pat.len()) =~= pat@);
    true
}

/// `str::find`: the first position of `pat` in `v`.
pub fn find(v: &Vec<char>, pat: &Vec<char>) -> (r: Option<usize>)
    ensures
        match r {
            Some(k) => find_spec(v@, pat@) == Some(k as nat),
            None => find_spec(v@, pat@) is None,
        },
{
    if pat.len() > v.len() {
        return None;
    }
    let mut i: usize = 0;
    let last = v.len() - pat.len();
    while i < last
        invariant
            last == v.len() - pat.len(),
            pat.len() <= v.len(),
            i <= last,
            find_from(v@, pat@, 0) == find_from(v@, pat@, i as nat),
        decreases last - i,
    {
        if occurs_at_exec(v, pat, i) {
            return Some(i);
        }
        i = i + 1;
    }
    if occurs_at_exec(v, pat, last) {
        return Some(last);
    }
    assert(find_from(v@, pat@, (last + 1) as nat) is None);
    None
}

/// `str::contains`.
pub fn contains(v: &Vec<char>, pat: &Vec<char>) -> (b: bool)
    ensures
        b == contains_spec(v@, pat@),
{
    find(v, pat).is_some()
}

/// `str::starts_with`.
pub fn starts_with(v: &Vec<char>, pat: &Vec<char>) -> (b: bool)
    ensures
        b == starts_with_spec(v@, pat@),
{
    if pat.len() > v.len() {
        return false;
    }
    let b = occurs_at_exec(v, pat, 0);
    assert(v@.subrange(0, pat.len() as int) =~= v@.take(pat.len() as int));
    b
}

/// What `find_from` returns: an occurrence at or after `k`, with none
/// between `k` and it.
pub proof fn lemma_find_from(s: Seq<char>, pat: Seq<char>, k: nat)
    ensures
        match find_from(s, pat, k) {
            Some(i) => k <= i && i + pat.len() <= s.len() && s.subrange(
                i as int,
                (i + pat.len()) as int,
            ) == pat && forall|j: int|
                k <= j < i ==> #[trigger] s.subrange(j, j + pat.len()) != pat,
            None => forall|j: int|
                k <= j && j + pat.len() <= s.len() ==> #[trigger] s.subrange(j, j + pat.len()) != pat,
        },
    decreases s.len() + 1 - k,
{
    if k + pat.len() > s.len() {
    } else if s.subrange(k as int, (k + pat.len()) as int) == pat {
    } else {
        lemma_find_from(s, pat, k + 1);
    }
}

/// The decimal digit character for `d < 10`.
pub open spec fn digit_char(d: nat) -> char {
    if d == 0 {
        '0'
    } else if d == 1 {
        '1'
    } else if d == 2 {
        '2'
    } else if d == 3 {
        '3'
    } else if d == 4 {
        '4'
    } else if d == 5 {
        '5'
    } else if d == 6 {
        '6'
    } else if d == 7 {
        '7'
    } else if d == 8 {
        '8'
    } else {
        '9'
    }
}

/// The decimal notation of `n`, as `u64`'s `Display` writes it.
pub open spec fn decimal_spec(n: nat) -> Seq<char>
    decreases n,
{
    if n < 10 {
        seq![digit_char(n)]
    } else {
        decimal_spec(n / 10).push(digit_char(n % 10))
    }
}

/// The lines of `lines` joined by `sep`, as `[..].join(sep)` does.
pub open spec fn join_spec(lines: Seq<Seq<char>>, sep: Seq<char>) -> Seq<char>
    decreases lines.len(),
{
    if lines.len() == 0 {
        Seq::empty()
    } else if lines.len() == 1 {
        lines[0]
    } else {
        join_spec(lines.drop_last(), sep) + sep + lines.last()
    }
}

fn digit_of(d: u64) -> (c: char)
    requires
        d < 10,
    ensures
        c == digit_char(d as nat),
{
    if d == 0 {
        '0'
    } else if d == 1 {
        '1'
    } else if d == 2 {
        '2'
    } else if d == 3 {
        '3'
    } else if d == 4 {
        '4'
    } else if d == 5 {
        '5'
    } else if d == 6 {
        '6'
    } else if d == 7 {
        '7'
    } else if d == 8 {
        '8'
    } else {
        '9'
    }
}

/// The decimal notation of `n`.
pub fn decimal(n: u64) -> (r: Vec<char>)
    ensures
        r@ == decimal_spec(n as nat),
    decreases n,
{
    if n < 10 {
        let mut v: Vec<char> = Vec::new();
        v.push(digit_of(n));
        assert(v@ =~= decimal_spec(n as nat));
        v
    } else {
        let mut v = decimal(n / 10);
        v.push(digit_of(n % 10));
        v
    }
}

/// Whether `a` and `b` hold the same characters.
pub fn same_chars(a: &Vec<char>, b: &Vec<char>) -> (r: bool)
    ensures
        r == (a@ == b@),
{
    if a.len() != b.len() {
        return false;
    }
    let mut i: usize = 0;
    while i < a.len()
        invariant
            a.len() == b.len(),
            0 <= i <= a.len(),
            forall|k: int| 0 <= k < i ==> a@[k] == b@[k],
        decreases a.len() - i,
    {
        if a[i] != b[i] {
            return false;
        }
        i = i + 1;
    }
    assert(a@ =~= b@);
    true
}

/// Whether `a` and `b` hold the same text.
pub fn same_text(a: &str, b: &str) -> (r: bool)
    ensures
        r == (a@ == b@),
{
    same_chars(&chars_of(a), &chars_of(b))
}

/// The views of a vector of character vectors.
pub open spec fn views(lines: Seq<Vec<char>>) -> Seq<Seq<char>> {
    lines.map_values(|l: Vec<char>| l@)
}

/// `lines.join(sep)`.
pub fn join_lines(lines: &Vec<Vec<char>>, sep: &Vec<char>) -> (r: Vec<char>)
    ensures
        r@ == join_spec(views(lines@), sep@),
{
    let mut out: Vec<char> = Vec::new();
    let mut i: usize = 0;
    while i < lines.len()
        invariant
            0 <= i <= lines.len(),
            out@ == join_spec(views(lines@).take(i as int), sep@),
        decreases lines.len() - i,
    {
        let ghost before = views(lines@).take(i as int);
        if i > 0 {
            push_all(&mut out, sep);
        }
        push_all(&mut out, &lines[i]);
        i = i + 1;
        proof {
            let now = views(lines@).take(i as int);
            assert(now.drop_last() =~= before);
            assert(now.last() == lines@[i - 1]@);
            if i == 1 {
                assert(out@ =~= join_spec(now, sep@));
            }
        }
    }
    assert(views(lines@).take(lines.len() as int) =~= views(lines@));
    out
}

/// The decimal notation of `n`, with a leading `-` when negative, as
/// `i64`'s `Display` writes it.
pub open spec fn signed_decimal_spec(n: int) -> Seq<char> {
    if n < 0 {
        seq!['-'] + decimal_spec((-n) as nat)
    } else {
        decimal_spec(n as nat)
    }
}

/// The decimal notation of `n`.
pub fn signed_decimal(n: i64) -> (r: Vec<char>)
    ensures
        r@ == signed_decimal_spec(n as int),
{
    if n < 0 {
        let mag: u64 = if n == i64::MIN {
            9223372036854775808u64
        } else {
            (-n) as u64
        };
        let mut r: Vec<char> = Vec::new();
        r.push('-');
        let d = decimal(mag);
        push_all(&mut r, &d);
        assert(r@ =~= signed_decimal_spec(n as int));
        r
    } else {
        decimal(n as u64)
    }
}

/// std's `str::to_lowercase` (Unicode lowercase mapping).
pub uninterp spec fn unicode_lowercase(text: Seq<char>) -> Seq<char>;

/// std's `str::to_lowercase`; claimed to give `unicode_lowercase(text@)`,
/// at least as long as `text` (each character's lowercase mapping is one or
/// more characters, as `char::to_lowercase` documents).
#[verifier::external_body]
pub(crate) fn to_lowercase(text: &str) -> (r: String)
    ensures
        r@ == unicode_lowercase(text@),
        r@.len() >= text@.len(),
{
    text.to_lowercase()
}

/// `str::ends_with`.
pub open spec fn ends_with_spec(s: Seq<char>, pat: Seq<char>) -> bool {
    pat.len() <= s.len() && s.skip(s.len() - pat.len()) == pat
}

/// `str::ends_with`.
pub fn ends_with(v: &Vec<char>, pat: &Vec<char>) -> (b: bool)
    ensures
        b == ends_with_spec(v@, pat@),
{
    if pat.len() > v.len() {
        return false;
    }
    let b = occurs_at_exec(v, pat, v.len() - pat.len());
    assert(v@.subrange(v.len() - pat.len(), (v.len() - pat.len()) + pat.len()) =~= v@.skip(
        v.len() - pat.len(),
    ));
    b
}

/// `s` split at every occurrence of `sep` (non-empty), as `str::split` does.
pub open spec fn split_spec(s: Seq<char>, sep: Seq<char>) -> Seq<Seq<char>>
    decreases s.len(),
{
    if sep.len() == 0 {
        seq![s]
    } else {
        match find_spec(s, sep) {
            None => seq![s],
            Some(i) => if i + sep.len() <= s.len() {
                seq![s.take(i as int)] + split_spec(s.skip((i + sep.len()) as int), sep)
            } else {
                seq![s]
            },
        }
    }
}

/// `s.split(sep)` for a non-empty separator, each piece as characters.
pub fn split(v: &Vec<char>, sep: &Vec<char>) -> (r: Vec<Vec<char>>)
    requires
        sep.len() > 0,
    ensures
        views(r@) == split_spec(v@, sep@),
{
    let mut out: Vec<Vec<char>> = Vec::new();
    let mut rest = copy_range(v, 0, v.len());
    assert(rest@ =~= v@);
    loop
        invariant
            sep.len() > 0,
            split_spec(v@, sep@) == views(out@) + split_spec(rest@, sep@),
        decreases rest.len(),
    {
        match find(&rest, sep) {
            None => {
                let ghost before = views(out@);
                out.push(rest);
                assert(views(out@) =~= before.push(rest@));
                assert(split_spec(rest@, sep@) == seq![rest@]);
                assert(views(out@) =~= before + seq![rest@]);
                return out;
            },
            Some(i) => {
                proof {
                    lemma_find_from(rest@, sep@, 0);
                }
                let piece = copy_range(&rest, 0, i);
                let next = copy_range(&rest, i + sep.len(), rest.len());
                let ghost before = views(out@);
                assert(piece@ =~= rest@.take(i as int));
                assert(next@ =~= rest@.skip(i + sep@.len()));
                out.push(piece);
                assert(views(out@) =~= before.push(piece@));
                assert(views(out@) + split_spec(next@, sep@) =~= before + (seq![piece@] + split_spec(
                    next@,
                    sep@,
                )));
                rest = next;
            },
        }
    }
}

} // verus!
