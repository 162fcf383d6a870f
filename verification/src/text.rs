//! Character-level text processing: removing every occurrence of a substring,
//! the strip pass an HTML poll applies to matched content, whitespace and
//! quote trimming, and decimal rendering of prices. Everything here is pure
//! and works on `Vec<char>`, with `Seq<char>` as the model.

use vstd::prelude::*;

verus! {

/// `p` occurs in `s` at position `i`.
pub open spec fn contains_at(s: Seq<char>, i: int, p: Seq<char>) -> bool {
    0 <= i && i + p.len() <= s.len() && s.subrange(i, i + p.len()) == p
}

/// `p` occurs somewhere in `s`.
pub open spec fn occurs(s: Seq<char>, p: Seq<char>) -> bool {
    exists|i: int| contains_at(s, i, p)
}

/// One left-to-right pass over `s` that removes every (non-overlapping,
/// leftmost-first) occurrence of `p`. An empty pattern removes nothing.
pub open spec fn remove_all_spec(s: Seq<char>, p: Seq<char>) -> Seq<char>
    decreases s.len(),
{
    if p.len() == 0 || s.len() < p.len() {
        s
    } else if s.subrange(0, p.len() as int) == p {
        remove_all_spec(s.skip(p.len() as int), p)
    } else {
        seq![s[0]] + remove_all_spec(s.skip(1), p)
    }
}

/// Removing the configured substrings, first listed applied first.
pub open spec fn strip_texts_spec(s: Seq<char>, l: Seq<Seq<char>>) -> Seq<char>
    decreases l.len(),
{
    if l.len() == 0 {
        s
    } else {
        strip_texts_spec(remove_all_spec(s, l[0]), l.skip(1))
    }
}

/// The whitespace the trim step strips at either end: the Unicode
/// `White_Space` code points, the set `str::trim` uses.
pub open spec fn is_space(c: char) -> bool {
    c == '\u{9}' || c == '\u{a}' || c == '\u{b}' || c == '\u{c}' || c == '\u{d}' || c == ' '
        || c == '\u{85}' || c == '\u{a0}' || c == '\u{1680}' || c == '\u{2000}' || c == '\u{2001}'
        || c == '\u{2002}' || c == '\u{2003}' || c == '\u{2004}' || c == '\u{2005}'
        || c == '\u{2006}' || c == '\u{2007}' || c == '\u{2008}' || c == '\u{2009}'
        || c == '\u{200a}' || c == '\u{2028}' || c == '\u{2029}' || c == '\u{202f}'
        || c == '\u{205f}' || c == '\u{3000}'
}

pub open spec fn trim_front_spec(s: Seq<char>) -> Seq<char>
    decreases s.len(),
{
    if s.len() > 0 && is_space(s[0]) {
        trim_front_spec(s.skip(1))
    } else {
        s
    }
}

pub open spec fn trim_back_spec(s: Seq<char>) -> Seq<char>
    decreases s.len(),
{
    if s.len() > 0 && is_space(s.last()) {
        trim_back_spec(s.drop_last())
    } else {
        s
    }
}

pub open spec fn trim_spec(s: Seq<char>) -> Seq<char> {
    trim_back_spec(trim_front_spec(s))
}

/// The full strip pass applied to one matched element's inner markup: remove
/// each ignored substring in configured order, then every newline and
/// carriage return, then trim surrounding whitespace.
pub open spec fn clean_spec(s: Seq<char>, ignored: Seq<Seq<char>>) -> Seq<char> {
    trim_spec(remove_all_spec(remove_all_spec(strip_texts_spec(s, ignored), seq!['\n']), seq!['\r']))
}

/// Relies on `String::push`: appends exactly one character.
#[verifier::external_body]
pub(crate) fn push_char(s: &mut String, c: char)
    ensures
        final(s)@ == old(s)@.push(c),
{
    s.push(c);
}

/// The characters of `s`, in order.
pub fn str_to_chars(s: &str) -> (r: Vec<char>)
    ensures
        r@ == s@,
{
    let n: usize = s.unicode_len();
    let mut r: Vec<char> = Vec::new();
    let mut i: usize = 0;
    while i < n
        invariant
            n == s@.len(),
            i <= n,
            r@ == s@.subrange(0, i as int),
        decreases n - i,
    {
        let c = s.get_char(i);
        r.push(c);
        i = i + 1;
        proof {
            assert(r@ =~= s@.subrange(0, i as int));
        }
    }
    proof {
        assert(r@ =~= s@);
    }
    r
}

/// The string holding exactly the characters of `v`.
pub fn chars_to_string(v: &Vec<char>) -> (r: String)
    ensures
        r@ == v@,
{
    let mut r = String::new();
    let mut i: usize = 0;
    while i < v.len()
        invariant
            i <= v@.len(),
            r@ == v@.subrange(0, i as int),
        decreases v@.len() - i,
    {
        push_char(&mut r, v[i]);
        i = i + 1;
        proof {
            assert(r@ =~= v@.subrange(0, i as int));
        }
    }
    proof {
        assert(r@ =~= v@);
    }
    r
}

/// Whether `p` occurs in `s` at position `i`.
fn matches_at(s: &Vec<char>, i: usize, p: &Vec<char>) -> (r: bool)
    requires
        i + p@.len() <= s@.len(),
    ensures
        r == contains_at(s@, i as int, p@),
{
    let n: usize = s.len();
    let mut j: usize = 0;
    while j < p.len()
        invariant
            n == s@.len(),
            i + p@.len() <= s@.len(),
            j <= p@.len(),
            forall|k: int| 0 <= k < j ==> s@[i + k] == p@[k],
        decreases p@.len() - j,
    {
        proof {
            assert(i + j < s@.len());
        }
        if s[i + j] != p[j] {
            proof {
                assert(s@.subrange(i as int, i + p@.len())[j as int] == s@[i + j]);
                assert(s@.subrange(i as int, i + p@.len()) != p@);
            }
            return false;
        }
        j = j + 1;
    }
    proof {
        assert(s@.subrange(i as int, i + p@.len()) =~= p@);
    }
    true
}

/// One left-to-right pass that removes every occurrence of `p` from `s`.
pub fn remove_all(s: &Vec<char>, p: &Vec<char>) -> (r: Vec<char>)
    ensures
        r@ == remove_all_spec(s@, p@),
{
    if p.len() == 0 {
        return s.clone();
    }
    let mut out: Vec<char> = Vec::new();
    let mut i: usize = 0;
    proof {
        assert(s@.skip(0) =~= s@);
    }
    while i < s.len()
        invariant
            p@.len() > 0,
            i <= s@.len(),
            remove_all_spec(s@, p@) == out@ + remove_all_spec(s@.skip(i as int), p@),
        decreases s@.len() - i,
    {
        if p.len() <= s.len() - i && matches_at(s, i, p) {
            proof {
                let rest = s@.skip(i as int);
                assert(rest.subrange(0, p@.len() as int) =~= s@.subrange(i as int, i + p@.len()));
                assert(rest.skip(p@.len() as int) =~= s@.skip(i + p@.len()));
            }
            i = i + p.len();
        } else {
            proof {
                let rest = s@.skip(i as int);
                if p@.len() <= rest.len() {
                    assert(rest.subrange(0, p@.len() as int) =~= s@.subrange(i as int, i + p@.len()));
                    assert(rest.subrange(0, p@.len() as int) != p@);
                }
                assert(rest.skip(1) =~= s@.skip(i + 1));
                assert((out@ + rest) =~= (out@.push(s@[i as int]) + rest.skip(1)));
                assert(out@ + remove_all_spec(rest, p@) =~= out@.push(s@[i as int]) + remove_all_spec(rest.skip(1), p@));
            }
            out.push(s[i]);
            i = i + 1;
        }
    }
    proof {
        assert(s@.skip(s@.len() as int) =~= Seq::<char>::empty());
        assert(out@ + remove_all_spec(s@.skip(s@.len() as int), p@) =~= out@);
    }
    out
}

/// Remove each of the configured substrings, first listed applied first.
pub fn strip_texts(s: &Vec<char>, l: &Vec<Vec<char>>) -> (r: Vec<char>)
    ensures
        r@ == strip_texts_spec(s@, l.deep_view()),
{
    let ghost ldv = l.deep_view();
    let mut cur = s.clone();
    let mut i: usize = 0;
    proof {
        assert(ldv.skip(0) =~= ldv);
    }
    while i < l.len()
        invariant
            ldv == l.deep_view(),
            i <= ldv.len(),
            strip_texts_spec(cur@, ldv.skip(i as int)) == strip_texts_spec(s@, ldv),
        decreases ldv.len() - i,
    {
        proof {
            assert(ldv.skip(i as int)[0] == ldv[i as int]);
            assert(ldv[i as int] == l@[i as int]@);
            assert(ldv.skip(i as int).skip(1) =~= ldv.skip(i + 1));
        }
        cur = remove_all(&cur, &l[i]);
        i = i + 1;
    }
    proof {
        assert(ldv.skip(ldv.len() as int) =~= Seq::<Seq<char>>::empty());
    }
    cur
}

/// Whether `c` counts as whitespace for the trim step.
pub fn is_space_char(c: char) -> (r: bool)
    ensures
        r == is_space(c),
{
    c == '\u{9}' || c == '\u{a}' || c == '\u{b}' || c == '\u{c}' || c == '\u{d}' || c == ' '
        || c == '\u{85}' || c == '\u{a0}' || c == '\u{1680}' || c == '\u{2000}' || c == '\u{2001}'
        || c == '\u{2002}' || c == '\u{2003}' || c == '\u{2004}' || c == '\u{2005}'
        || c == '\u{2006}' || c == '\u{2007}' || c == '\u{2008}' || c == '\u{2009}'
        || c == '\u{200a}' || c == '\u{2028}' || c == '\u{2029}' || c == '\u{202f}'
        || c == '\u{205f}' || c == '\u{3000}'
}

/// Drop leading and trailing whitespace.
pub fn trim(v: &Vec<char>) -> (r: Vec<char>)
    ensures
        r@ == trim_spec(v@),
{
    let mut lo: usize = 0;
    proof {
        assert(v@.skip(0) =~= v@);
    }
    while lo < v.len() && is_space_char(v[lo])
        invariant
            lo <= v@.len(),
            trim_front_spec(v@.skip(lo as int)) == trim_front_spec(v@),
        decreases v@.len() - lo,
    {
        proof {
            assert(v@.skip(lo as int).skip(1) =~= v@.skip(lo + 1));
        }
        lo = lo + 1;
    }
    proof {
        if lo == v@.len() {
            assert(v@.skip(lo as int) =~= Seq::<char>::empty());
        }
        assert(trim_front_spec(v@) == v@.skip(lo as int));
    }
    let mut r: Vec<char> = Vec::new();
    let mut i: usize = lo;
    while i < v.len()
        invariant
            lo <= i <= v@.len(),
            r@ == v@.subrange(lo as int, i as int),
        decreases v@.len() - i,
    {
        r.push(v[i]);
        i = i + 1;
        proof {
            assert(r@ =~= v@.subrange(lo as int, i as int));
        }
    }
    proof {
        assert(r@ =~= v@.skip(lo as int));
    }
    while r.len() > 0 && is_space_char(r[r.len() - 1])
        invariant
            trim_back_spec(r@) == trim_back_spec(trim_front_spec(v@)),
        decreases r@.len(),
    {
        proof {
            assert(r@.last() == r@[r@.len() - 1]);
        }
        r.pop();
        proof {
            assert(r@ =~= r@);
        }
    }
    r
}

/// Drop every leading and trailing occurrence of `c`.
pub open spec fn trim_char_front_spec(s: Seq<char>, c: char) -> Seq<char>
    decreases s.len(),
{
    if s.len() > 0 && s[0] == c {
        trim_char_front_spec(s.skip(1), c)
    } else {
        s
    }
}

pub open spec fn trim_char_back_spec(s: Seq<char>, c: char) -> Seq<char>
    decreases s.len(),
{
    if s.len() > 0 && s.last() == c {
        trim_char_back_spec(s.drop_last(), c)
    } else {
        s
    }
}

/// The token cleanup: strip stray quote characters off either end.
pub open spec fn trim_char_spec(s: Seq<char>, c: char) -> Seq<char> {
    trim_char_front_spec(trim_char_back_spec(s, c), c)
}

/// Drop every trailing occurrence of `c`, then every leading one.
pub fn trim_char(v: &Vec<char>, c: char) -> (r: Vec<char>)
    ensures
        r@ == trim_char_spec(v@, c),
{
    let mut cur = v.clone();
    while cur.len() > 0 && cur[cur.len() - 1] == c
        invariant
            trim_char_back_spec(cur@, c) == trim_char_back_spec(v@, c),
        decreases cur@.len(),
    {
        proof {
            assert(cur@.last() == cur@[cur@.len() - 1]);
        }
        cur.pop();
    }
    let ghost backed = cur@;
    let mut lo: usize = 0;
    proof {
        assert(backed.skip(0) =~= backed);
    }
    while lo < cur.len() && cur[lo] == c
        invariant
            cur@ == backed,
            lo <= backed.len(),
            trim_char_front_spec(backed.skip(lo as int), c) == trim_char_front_spec(backed, c),
        decreases backed.len() - lo,
    {
        proof {
            assert(backed.skip(lo as int).skip(1) =~= backed.skip(lo + 1));
        }
        lo = lo + 1;
    }
    proof {
        if lo == backed.len() {
            assert(backed.skip(lo as int) =~= Seq::<char>::empty());
        }
        assert(trim_char_front_spec(backed, c) == backed.skip(lo as int));
    }
    let mut r: Vec<char> = Vec::new();
    let mut i: usize = lo;
    while i < cur.len()
        invariant
            cur@ == backed,
            lo <= i <= backed.len(),
            r@ == backed.subrange(lo as int, i as int),
        decreases backed.len() - i,
    {
        r.push(cur[i]);
        i = i + 1;
        proof {
            assert(r@ =~= backed.subrange(lo as int, i as int));
        }
    }
    proof {
        assert(r@ =~= backed.skip(lo as int));
    }
    r
}

/// The full strip pass on one matched element's inner markup.
pub fn clean_content(html: &Vec<char>, ignored: &Vec<Vec<char>>) -> (r: Vec<char>)
    ensures
        r@ == clean_spec(html@, ignored.deep_view()),
{
    let stripped = strip_texts(html, ignored);
    let mut nl: Vec<char> = Vec::new();
    nl.push('\n');
    let mut cr: Vec<char> = Vec::new();
    cr.push('\r');
    proof {
        assert(nl@ =~= seq!['\n']);
        assert(cr@ =~= seq!['\r']);
    }
    let no_nl = remove_all(&stripped, &nl);
    let no_cr = remove_all(&no_nl, &cr);
    trim(&no_cr)
}

/// The decimal digit character for `d`.
pub open spec fn dec_digit(d: int) -> char {
    if d == 0 { '0' }
    else if d == 1 { '1' }
    else if d == 2 { '2' }
    else if d == 3 { '3' }
    else if d == 4 { '4' }
    else if d == 5 { '5' }
    else if d == 6 { '6' }
    else if d == 7 { '7' }
    else if d == 8 { '8' }
    else { '9' }
}

/// The decimal rendering of `n`, most significant digit first, no leading
/// zeros (except for zero itself).
pub open spec fn dec_spec(n: int) -> Seq<char>
    decreases n,
{
    if n < 10 {
        seq![dec_digit(n)]
    } else {
        dec_spec(n / 10).push(dec_digit(n % 10))
    }
}

fn dec_digit_char(d: u64) -> (r: char)
    requires
        d < 10,
    ensures
        r == dec_digit(d as int),
{
    match d {
        0 => '0',
        1 => '1',
        2 => '2',
        3 => '3',
        4 => '4',
        5 => '5',
        6 => '6',
        7 => '7',
        8 => '8',
        _ => '9',
    }
}

/// The decimal rendering of `n`.
pub fn format_u64(n: u64) -> (r: Vec<char>)
    ensures
        r@ == dec_spec(n as int),
{
    let mut tmp: Vec<char> = Vec::new();
    let mut m: u64 = n;
    proof {
        assert(tmp@.reverse() =~= Seq::<char>::empty());
    }
    while m >= 10
        invariant
            dec_spec(n as int) == dec_spec(m as int) + tmp@.reverse(),
        decreases m,
    {
        let d = dec_digit_char(m % 10);
        let ghost old_tmp = tmp@;
        tmp.push(d);
        proof {
            assert(tmp@.reverse() =~= seq![d] + old_tmp.reverse());
            assert(dec_spec(m as int) == dec_spec(m as int / 10).push(dec_digit(m as int % 10)));
            assert(dec_spec(m as int / 10).push(dec_digit(m as int % 10)) + old_tmp.reverse()
                =~= dec_spec(m as int / 10) + tmp@.reverse());
        }
        m = m / 10;
    }
    let d = dec_digit_char(m);
    let ghost old_tmp = tmp@;
    tmp.push(d);
    proof {
        assert(tmp@.reverse() =~= seq![d] + old_tmp.reverse());
        assert(dec_spec(m as int) == seq![dec_digit(m as int)]);
        assert(dec_spec(m as int) + old_tmp.reverse() =~= tmp@.reverse());
    }
    let mut r: Vec<char> = Vec::new();
    let mut i: usize = tmp.len();
    while i > 0
        invariant
            i <= tmp@.len(),
            r@ == tmp@.reverse().subrange(0, tmp@.len() - i),
        decreases i,
    {
        i = i - 1;
        r.push(tmp[i]);
        proof {
            assert(r@ =~= tmp@.reverse().subrange(0, tmp@.len() - i));
        }
    }
    proof {
        assert(r@ =~= tmp@.reverse());
        assert(dec_spec(n as int) =~= tmp@.reverse());
    }
    r
}

/// An occurrence in a suffix is an occurrence in the whole.
proof fn lemma_occurs_in_skip(s: Seq<char>, k: int, p: Seq<char>)
    requires
        0 <= k <= s.len(),
        occurs(s.skip(k), p),
    ensures
        occurs(s, p),
{
    let i = choose|i: int| contains_at(s.skip(k), i, p);
    assert(s.subrange(k + i, k + i + p.len()) =~= s.skip(k).subrange(i, i + p.len()));
    assert(contains_at(s, k + i, p));
}

/// Removing a substring that does not occur changes nothing.
proof fn lemma_remove_all_absent(s: Seq<char>, p: Seq<char>)
    requires
        p.len() > 0,
        !occurs(s, p),
    ensures
        remove_all_spec(s, p) == s,
    decreases s.len(),
{
    if s.len() < p.len() {
    } else if s.subrange(0, p.len() as int) == p {
        assert(contains_at(s, 0, p));
    } else {
        if occurs(s.skip(1), p) {
            lemma_occurs_in_skip(s, 1, p);
        }
        lemma_remove_all_absent(s.skip(1), p);
        assert(seq![s[0]] + s.skip(1) =~= s);
    }
}

/// A strip pass over a string in which none of the substrings occurs changes
/// nothing.
proof fn lemma_strip_texts_absent(t: Seq<char>, l: Seq<Seq<char>>)
    requires
        forall|k: int| 0 <= k < l.len() ==> !occurs(t, #[trigger] l[k]),
    ensures
        strip_texts_spec(t, l) == t,
    decreases l.len(),
{
    if l.len() > 0 {
        assert(!occurs(t, l[0]));
        if l[0].len() == 0 {
            assert(t.subrange(0, 0) =~= l[0]);
            assert(contains_at(t, 0, l[0]));
        }
        lemma_remove_all_absent(t, l[0]);
        assert(forall|k: int| 0 <= k < l.skip(1).len() ==> !occurs(t, #[trigger] l.skip(1)[k]));
        lemma_strip_texts_absent(t, l.skip(1));
    }
}

/// Single-character removal is complete: no occurrence of the character is
/// left behind.
proof fn lemma_remove_single_complete(s: Seq<char>, c: char)
    ensures
        forall|i: int|
            0 <= i < remove_all_spec(s, seq![c]).len() ==> remove_all_spec(s, seq![c])[i] != c,
    decreases s.len(),
{
    if s.len() > 0 {
        lemma_remove_single_complete(s.skip(1), c);
        assert(seq![s[0]] + s.skip(1) =~= s);
        lemma_remove_single_unfold(s.skip(1), s[0], c);
    }
}

/// Removing one character introduces no other: a character absent before a
/// single-character removal is absent after it.
proof fn lemma_remove_single_no_new_char(s: Seq<char>, d: char, c: char)
    requires
        forall|i: int| 0 <= i < s.len() ==> s[i] != c,
    ensures
        forall|i: int|
            0 <= i < remove_all_spec(s, seq![d]).len() ==> remove_all_spec(s, seq![d])[i] != c,
    decreases s.len(),
{
    if s.len() > 0 {
        assert(forall|i: int| 0 <= i < s.skip(1).len() ==> s.skip(1)[i] != c);
        lemma_remove_single_no_new_char(s.skip(1), d, c);
        assert(seq![s[0]] + s.skip(1) =~= s);
        lemma_remove_single_unfold(s.skip(1), s[0], d);
    }
}

/// A string without the character holds no one-character occurrence of it.
proof fn lemma_no_char_no_occurs(s: Seq<char>, c: char)
    requires
        forall|i: int| 0 <= i < s.len() ==> s[i] != c,
    ensures
        !occurs(s, seq![c]),
{
    if occurs(s, seq![c]) {
        let i = choose|i: int| contains_at(s, i, seq![c]);
        assert(s.subrange(i, i + 1)[0] == s[i]);
    }
}

/// The front trim yields a suffix whose head, if any, is not whitespace.
proof fn lemma_trim_front_shape(s: Seq<char>)
    ensures
        trim_front_spec(s).len() > 0 ==> !is_space(trim_front_spec(s)[0]),
        forall|i: int|
            0 <= i < trim_front_spec(s).len() ==> exists|j: int|
                0 <= j < s.len() && s[j] == #[trigger] trim_front_spec(s)[i],
    decreases s.len(),
{
    if s.len() > 0 && is_space(s[0]) {
        lemma_trim_front_shape(s.skip(1));
        assert forall|i: int| 0 <= i < trim_front_spec(s).len() implies exists|j: int|
            0 <= j < s.len() && s[j] == #[trigger] trim_front_spec(s)[i] by {
            let j = choose|j: int| 0 <= j < s.skip(1).len() && s.skip(1)[j] == trim_front_spec(
                s.skip(1),
            )[i];
            assert(s[j + 1] == trim_front_spec(s)[i]);
        }
    }
}

/// The back trim yields a prefix whose last character, if any, is not
/// whitespace.
proof fn lemma_trim_back_shape(s: Seq<char>)
    ensures
        trim_back_spec(s).len() > 0 ==> !is_space(trim_back_spec(s).last()),
        trim_back_spec(s).len() <= s.len(),
        forall|i: int| 0 <= i < trim_back_spec(s).len() ==> trim_back_spec(s)[i] == s[i],
    decreases s.len(),
{
    if s.len() > 0 && is_space(s.last()) {
        lemma_trim_back_shape(s.drop_last());
        assert forall|i: int| 0 <= i < trim_back_spec(s).len() implies #[trigger] trim_back_spec(
            s,
        )[i] == s[i] by {
            assert(trim_back_spec(s)[i] == trim_back_spec(s.drop_last())[i]);
            assert(trim_back_spec(s.drop_last())[i] == s.drop_last()[i]);
        }
    }
}

/// Trimming a second time changes nothing.
proof fn lemma_trim_idempotent(s: Seq<char>)
    ensures
        trim_spec(trim_spec(s)) == trim_spec(s),
{
    let v = trim_front_spec(s);
    let t = trim_back_spec(v);
    lemma_trim_front_shape(s);
    lemma_trim_back_shape(v);
    if t.len() > 0 {
        assert(t[0] == v[0]);
        assert(!is_space(t[0]));
    }
    assert(trim_front_spec(t) == t);
    assert(trim_back_spec(t) == t);
}

/// Trimming introduces no character.
proof fn lemma_trim_preserves_absence(u: Seq<char>, c: char)
    requires
        forall|i: int| 0 <= i < u.len() ==> u[i] != c,
    ensures
        forall|i: int| 0 <= i < trim_spec(u).len() ==> trim_spec(u)[i] != c,
{
    let v = trim_front_spec(u);
    lemma_trim_front_shape(u);
    assert forall|i: int| 0 <= i < v.len() implies #[trigger] v[i] != c by {
        let j = choose|j: int| 0 <= j < u.len() && u[j] == v[i];
    }
    lemma_trim_back_shape(v);
    assert forall|i: int| 0 <= i < trim_spec(u).len() implies trim_spec(u)[i] != c by {
        assert(trim_spec(u)[i] == v[i]);
    }
}

/// The cleaned content carries no newline and no carriage return: those
/// removals are single characters, which a pass removes completely, and the
/// trim adds nothing.
proof fn lemma_clean_no_line_breaks(s: Seq<char>, l: Seq<Seq<char>>)
    ensures
        forall|i: int|
            0 <= i < clean_spec(s, l).len() ==> clean_spec(s, l)[i] != '\n' && clean_spec(s, l)[i]
                != '\r',
{
    let u1 = strip_texts_spec(s, l);
    let u2 = remove_all_spec(u1, seq!['\n']);
    let u3 = remove_all_spec(u2, seq!['\r']);
    lemma_remove_single_complete(u1, '\n');
    lemma_remove_single_complete(u2, '\r');
    lemma_remove_single_no_new_char(u2, '\r', '\n');
    lemma_trim_preserves_absence(u3, '\n');
    lemma_trim_preserves_absence(u3, '\r');
}

/// The full strip pass is idempotent on every input whose cleaned form is
/// free of further occurrences of the configured substrings: re-applying the
/// pass to such a result changes nothing. (A single removal pass can splice
/// two halves of a substring together, so the side condition does not hold of
/// every input.)
pub proof fn lemma_clean_idempotent(s: Seq<char>, l: Seq<Seq<char>>)
    requires
        forall|k: int| 0 <= k < l.len() ==> !occurs(clean_spec(s, l), #[trigger] l[k]),
    ensures
        clean_spec(clean_spec(s, l), l) == clean_spec(s, l),
{
    let t = clean_spec(s, l);
    lemma_strip_texts_absent(t, l);
    lemma_clean_no_line_breaks(s, l);
    lemma_no_char_no_occurs(t, '\n');
    assert(seq!['\n'].len() > 0 && seq!['\r'].len() > 0);
    lemma_remove_all_absent(t, seq!['\n']);
    lemma_no_char_no_occurs(t, '\r');
    lemma_remove_all_absent(t, seq!['\r']);
    let u1 = strip_texts_spec(s, l);
    let u3 = remove_all_spec(remove_all_spec(u1, seq!['\n']), seq!['\r']);
    lemma_trim_idempotent(u3);
}

/// Single-character removals introduce none of the listed characters.
proof fn lemma_strip_singles_preserves_absence(t: Seq<char>, l: Seq<Seq<char>>, c: char)
    requires
        forall|m: int| 0 <= m < l.len() ==> (#[trigger] l[m]).len() == 1,
        forall|i: int| 0 <= i < t.len() ==> t[i] != c,
    ensures
        forall|i: int| 0 <= i < strip_texts_spec(t, l).len() ==> strip_texts_spec(t, l)[i] != c,
    decreases l.len(),
{
    if l.len() > 0 {
        assert(l[0] =~= seq![l[0][0]]);
        lemma_remove_single_no_new_char(t, l[0][0], c);
        lemma_strip_singles_preserves_absence(remove_all_spec(t, l[0]), l.skip(1), c);
        let rest = strip_texts_spec(remove_all_spec(t, l[0]), l.skip(1));
        assert(strip_texts_spec(t, l) == rest);
        assert forall|i: int| 0 <= i < strip_texts_spec(t, l).len() implies strip_texts_spec(
            t,
            l,
        )[i] != c by {
            assert(strip_texts_spec(t, l)[i] == rest[i]);
        }
    }
}

/// A strip pass over single-character substrings removes each of them
/// completely.
proof fn lemma_strip_singles_complete(s: Seq<char>, l: Seq<Seq<char>>, k: int)
    requires
        forall|m: int| 0 <= m < l.len() ==> (#[trigger] l[m]).len() == 1,
        0 <= k < l.len(),
    ensures
        forall|i: int|
            0 <= i < strip_texts_spec(s, l).len() ==> strip_texts_spec(s, l)[i] != l[k][0],
    decreases l.len(),
{
    let rest = strip_texts_spec(remove_all_spec(s, l[0]), l.skip(1));
    assert(strip_texts_spec(s, l) == rest);
    if k == 0 {
        assert(l[0] =~= seq![l[0][0]]);
        lemma_remove_single_complete(s, l[0][0]);
        lemma_strip_singles_preserves_absence(remove_all_spec(s, l[0]), l.skip(1), l[0][0]);
    } else {
        lemma_strip_singles_complete(remove_all_spec(s, l[0]), l.skip(1), k - 1);
        assert(l.skip(1)[k - 1] == l[k]);
    }
    assert forall|i: int| 0 <= i < strip_texts_spec(s, l).len() implies strip_texts_spec(s, l)[i]
        != l[k][0] by {
        assert(strip_texts_spec(s, l)[i] == rest[i]);
    }
}

/// For a list of single-character ignored substrings the strip pass is
/// idempotent with no side condition: one pass removes each such character
/// completely, so nothing is left for a second pass to find.
pub proof fn lemma_clean_single_chars_idempotent(s: Seq<char>, l: Seq<Seq<char>>)
    requires
        forall|m: int| 0 <= m < l.len() ==> (#[trigger] l[m]).len() == 1,
    ensures
        clean_spec(clean_spec(s, l), l) == clean_spec(s, l),
{
    let t = clean_spec(s, l);
    let u1 = strip_texts_spec(s, l);
    let u2 = remove_all_spec(u1, seq!['\n']);
    let u3 = remove_all_spec(u2, seq!['\r']);
    assert forall|k: int| 0 <= k < l.len() implies !occurs(t, #[trigger] l[k]) by {
        let c = l[k][0];
        lemma_strip_singles_complete(s, l, k);
        if c == '\n' {
            lemma_remove_single_complete(u1, '\n');
        } else {
            lemma_remove_single_no_new_char(u1, '\n', c);
        }
        if c == '\r' {
            lemma_remove_single_complete(u2, '\r');
        } else {
            lemma_remove_single_no_new_char(u2, '\r', c);
        }
        lemma_trim_preserves_absence(u3, c);
        lemma_no_char_no_occurs(t, c);
        assert(l[k] =~= seq![c]);
    }
    lemma_clean_idempotent(s, l);
}

/// How a single-character removal treats the head of a string.
proof fn lemma_remove_single_unfold(t: Seq<char>, x: char, c: char)
    ensures
        remove_all_spec(seq![x] + t, seq![c]) == if x == c {
            remove_all_spec(t, seq![c])
        } else {
            seq![x] + remove_all_spec(t, seq![c])
        },
{
    let s = seq![x] + t;
    assert(s.len() >= 1);
    assert(s[0] == x);
    assert(s.subrange(0, 1) =~= seq![x]);
    assert(s.skip(1) =~= t);
    if x == c {
        assert(s.subrange(0, 1) == seq![c]);
    } else {
        assert(seq![x][0] == x);
        assert(s.subrange(0, 1) != seq![c]);
    }
}

/// Removals of two single characters can be done in either order.
proof fn lemma_remove_single_chars_commute(s: Seq<char>, a: char, b: char)
    ensures
        remove_all_spec(remove_all_spec(s, seq![a]), seq![b])
            == remove_all_spec(remove_all_spec(s, seq![b]), seq![a]),
    decreases s.len(),
{
    if s.len() == 0 {
    } else {
        let x = s[0];
        let t = s.skip(1);
        assert(seq![x] + t =~= s);
        lemma_remove_single_chars_commute(t, a, b);
        lemma_remove_single_unfold(t, x, a);
        lemma_remove_single_unfold(t, x, b);
        if x == a && x == b {
        } else if x == a {
            lemma_remove_single_unfold(remove_all_spec(t, seq![b]), x, a);
        } else if x == b {
            lemma_remove_single_unfold(remove_all_spec(t, seq![a]), x, b);
        } else {
            lemma_remove_single_unfold(remove_all_spec(t, seq![a]), x, b);
            lemma_remove_single_unfold(remove_all_spec(t, seq![b]), x, a);
        }
    }
}

/// For two single-character ignored substrings, the order in which the strip
/// pass applies them does not change the result. (For longer substrings the
/// order can matter: removing one can splice together an occurrence of the
/// other.)
pub proof fn lemma_strip_single_char_order(s: Seq<char>, a: char, b: char)
    ensures
        strip_texts_spec(s, seq![seq![a], seq![b]]) == strip_texts_spec(s, seq![seq![b], seq![a]]),
{
    let lab = seq![seq![a], seq![b]];
    let lba = seq![seq![b], seq![a]];
    assert(lab[0] == seq![a] && lba[0] == seq![b]);
    assert(lab.skip(1) =~= seq![seq![b]]);
    assert(lba.skip(1) =~= seq![seq![a]]);
    let ra = remove_all_spec(s, seq![a]);
    let rb = remove_all_spec(s, seq![b]);
    assert(strip_texts_spec(s, lab) == strip_texts_spec(ra, seq![seq![b]]));
    assert(strip_texts_spec(s, lba) == strip_texts_spec(rb, seq![seq![a]]));
    assert(seq![seq![b]].skip(1) =~= Seq::<Seq<char>>::empty());
    assert(seq![seq![a]].skip(1) =~= Seq::<Seq<char>>::empty());
    assert(seq![seq![b]][0] == seq![b] && seq![seq![a]][0] == seq![a]);
    let rab = remove_all_spec(ra, seq![b]);
    let rba = remove_all_spec(rb, seq![a]);
    assert(strip_texts_spec(ra, seq![seq![b]]) == strip_texts_spec(rab, Seq::<Seq<char>>::empty()));
    assert(strip_texts_spec(rb, seq![seq![a]]) == strip_texts_spec(rba, Seq::<Seq<char>>::empty()));
    assert(strip_texts_spec(rab, Seq::<Seq<char>>::empty()) == rab);
    assert(strip_texts_spec(rba, Seq::<Seq<char>>::empty()) == rba);
    lemma_remove_single_chars_commute(s, a, b);
}

} // verus!


