//! Text as a sequence of characters.
//!
//! The specification functions here say what trimming, searching, replacing,
//! joining and cutting mean on a `Seq<char>`; the executable functions do the same
//! on `&str` and `String`.

use vstd::prelude::*;

verus! {

/// `String::push` appends one character to the end of the string.
pub assume_specification[ String::push ](s: &mut String, c: char)
    ensures
        final(s)@ == old(s)@.push(c),
;

// ---------------------------------------------------------------------------
// Characters
// ---------------------------------------------------------------------------

/// The characters with the Unicode property White_Space.
pub open spec fn is_white_space(c: char) -> bool {
    ||| ('\u{9}' <= c && c <= '\u{D}')
    ||| c == '\u{20}'
    ||| c == '\u{85}'
    ||| c == '\u{A0}'
    ||| c == '\u{1680}'
    ||| ('\u{2000}' <= c && c <= '\u{200A}')
    ||| c == '\u{2028}'
    ||| c == '\u{2029}'
    ||| c == '\u{202F}'
    ||| c == '\u{205F}'
    ||| c == '\u{3000}'
}

/// Whether `c` has the Unicode property White_Space.
pub fn white_space(c: char) -> (r: bool)
    ensures
        r == is_white_space(c),
{
    ('\u{9}' <= c && c <= '\u{D}') || c == '\u{20}' || c == '\u{85}' || c == '\u{A0}' || c
        == '\u{1680}' || ('\u{2000}' <= c && c <= '\u{200A}') || c == '\u{2028}' || c == '\u{2029}'
        || c == '\u{202F}' || c == '\u{205F}' || c == '\u{3000}'
}

/// The ten ASCII digits.
pub open spec fn is_digit(c: char) -> bool {
    '0' <= c && c <= '9'
}

/// Whether `c` is an ASCII digit.
pub fn digit(c: char) -> (r: bool)
    ensures
        r == is_digit(c),
{
    '0' <= c && c <= '9'
}

/// `c` with an upper-case ASCII letter turned into its lower-case form.
pub open spec fn ascii_lower(c: char) -> char {
    if 'A' <= c && c <= 'Z' {
        ((c as u8) + 32) as char
    } else {
        c
    }
}

/// Turns an upper-case ASCII letter into its lower-case form.
pub fn to_ascii_lower(c: char) -> (r: char)
    ensures
        r == ascii_lower(c),
{
    if 'A' <= c && c <= 'Z' {
        ((c as u8) + 32) as char
    } else {
        c
    }
}

// ---------------------------------------------------------------------------
// Characters of a string, and back
// ---------------------------------------------------------------------------

/// The characters of `text`, in order.
pub fn chars_of(text: &str) -> (out: Vec<char>)
    ensures
        out@ == text@,
{
    let mut out: Vec<char> = Vec::new();
    for c in it: text.chars()
        invariant
            it.seq() == text@,
            out@ == text@.take(it.index() as int),
    {
        assert(text@.take(it.index() + 1) =~= text@.take(it.index() as int).push(c));
        out.push(c);
    }
    assert(text@.take(text@.len() as int) =~= text@);
    out
}

/// The characters from position `from` up to, not including, position `to`.
pub fn string_between(chars: &Vec<char>, from: usize, to: usize) -> (out: String)
    requires
        from <= to <= chars@.len(),
    ensures
        out@ == chars@.subrange(from as int, to as int),
{
    let mut out = String::new();
    let mut i: usize = from;
    assert(chars@.subrange(from as int, from as int) =~= Seq::<char>::empty());
    while i < to
        invariant
            from <= i <= to <= chars@.len(),
            out@ == chars@.subrange(from as int, i as int),
        decreases to - i,
    {
        assert(chars@.subrange(from as int, i + 1) =~= chars@.subrange(from as int, i as int).push(
            chars@[i as int],
        ));
        out.push(chars[i]);
        i += 1;
    }
    out
}

/// The text made of `chars`.
pub fn string_of(chars: &Vec<char>) -> (out: String)
    ensures
        out@ == chars@,
{
    assert(chars@.subrange(0, chars@.len() as int) =~= chars@);
    string_between(chars, 0, chars.len())
}

/// Whether two texts hold the same characters.
pub fn same_text(a: &str, b: &str) -> (r: bool)
    ensures
        r == (a@ == b@),
{
    a.to_string() == b.to_string()
}

/// `a` followed by `b`.
pub fn concat2(a: &str, b: &str) -> (out: String)
    ensures
        out@ == a@ + b@,
{
    let mut out = a.to_string();
    out.append(b);
    out
}

/// `a`, `b` and `c`, one after the other.
pub fn concat3(a: &str, b: &str, c: &str) -> (out: String)
    ensures
        out@ == a@ + b@ + c@,
{
    let mut out = a.to_string();
    out.append(b);
    out.append(c);
    out
}

/// The texts of a sequence of strings.
pub open spec fn texts(list: Seq<String>) -> Seq<Seq<char>> {
    Seq::new(list.len(), |i: int| list[i]@)
}

/// The text of an optional string slice.
pub open spec fn text_opt(s: Option<&str>) -> Option<Seq<char>> {
    match s {
        Some(t) => Some(t@),
        None => None,
    }
}

/// The text of an optional string.
pub open spec fn string_opt(s: Option<String>) -> Option<Seq<char>> {
    match s {
        Some(t) => Some(t@),
        None => None,
    }
}

// ---------------------------------------------------------------------------
// Trimming
// ---------------------------------------------------------------------------

/// `s` without its leading white space.
pub open spec fn trimmed_start(s: Seq<char>) -> Seq<char>
    decreases s.len(),
{
    if s.len() > 0 && is_white_space(s[0]) {
        trimmed_start(s.skip(1))
    } else {
        s
    }
}

/// `s` without its trailing white space.
pub open spec fn trimmed_end(s: Seq<char>) -> Seq<char>
    decreases s.len(),
{
    if s.len() > 0 && is_white_space(s.last()) {
        trimmed_end(s.drop_last())
    } else {
        s
    }
}

/// `s` without its leading and trailing white space.
pub open spec fn trimmed(s: Seq<char>) -> Seq<char> {
    trimmed_end(trimmed_start(s))
}

/// The position of the first character of `chars` that is not white space.
fn first_dark(chars: &Vec<char>) -> (i: usize)
    ensures
        i <= chars@.len(),
        trimmed_start(chars@) == chars@.skip(i as int),
{
    let mut i: usize = 0;
    assert(chars@.skip(0) =~= chars@);
    while i < chars.len() && white_space(chars[i])
        invariant
            i <= chars@.len(),
            trimmed_start(chars@) == trimmed_start(chars@.skip(i as int)),
        decreases chars@.len() - i,
    {
        assert(chars@.skip(i as int).skip(1) =~= chars@.skip(i + 1));
        i += 1;
    }
    i
}

/// The position behind the last character of `chars`, from `from` on, that is not
/// white space.
fn last_dark(chars: &Vec<char>, from: usize) -> (j: usize)
    requires
        from <= chars@.len(),
    ensures
        from <= j <= chars@.len(),
        trimmed_end(chars@.skip(from as int)) == chars@.subrange(from as int, j as int),
{
    let mut j: usize = chars.len();
    assert(chars@.skip(from as int) =~= chars@.subrange(from as int, j as int));
    while j > from && white_space(chars[j - 1])
        invariant
            from <= j <= chars@.len(),
            trimmed_end(chars@.skip(from as int)) == trimmed_end(
                chars@.subrange(from as int, j as int),
            ),
        decreases j,
    {
        assert(chars@.subrange(from as int, j as int).drop_last() =~= chars@.subrange(
            from as int,
            j - 1,
        ));
        j -= 1;
    }
    j
}

/// Removes leading and trailing white space.
pub fn trim(text: &str) -> (out: String)
    ensures
        out@ == trimmed(text@),
{
    let chars = chars_of(text);
    let i: usize = first_dark(&chars);
    let j: usize = last_dark(&chars, i);
    string_between(&chars, i, j)
}

/// Removes trailing white space.
pub fn trim_end(text: &str) -> (out: String)
    ensures
        out@ == trimmed_end(text@),
{
    let chars = chars_of(text);
    let j: usize = last_dark(&chars, 0);
    assert(chars@.skip(0) =~= chars@);
    string_between(&chars, 0, j)
}

/// `s` without the copies of `c` at its end.
pub open spec fn without_trailing(s: Seq<char>, c: char) -> Seq<char>
    decreases s.len(),
{
    if s.len() > 0 && s.last() == c {
        without_trailing(s.drop_last(), c)
    } else {
        s
    }
}

/// Removes every copy of `c` from the end of `text`.
pub fn trim_trailing(text: &str, c: char) -> (out: String)
    ensures
        out@ == without_trailing(text@, c),
{
    let chars = chars_of(text);
    let mut j: usize = chars.len();
    assert(chars@ =~= chars@.subrange(0, j as int));
    while j > 0 && chars[j - 1] == c
        invariant
            j <= chars@.len(),
            without_trailing(chars@, c) == without_trailing(chars@.subrange(0, j as int), c),
        decreases j,
    {
        assert(chars@.subrange(0, j as int).drop_last() =~= chars@.subrange(0, j - 1));
        j -= 1;
    }
    string_between(&chars, 0, j)
}

/// A trimmed text starts and ends with characters that are not white space.
pub proof fn lemma_trimmed_ends(s: Seq<char>)
    ensures
        trimmed(s).len() > 0 ==> !is_white_space(trimmed(s)[0]) && !is_white_space(
            trimmed(s).last(),
        ),
{
    lemma_trimmed_start_head(s);
    lemma_trimmed_end_last(trimmed_start(s));
}

proof fn lemma_trimmed_start_head(s: Seq<char>)
    ensures
        trimmed_start(s).len() > 0 ==> !is_white_space(trimmed_start(s)[0]),
    decreases s.len(),
{
    if s.len() > 0 && is_white_space(s[0]) {
        lemma_trimmed_start_head(s.skip(1));
    }
}

proof fn lemma_trimmed_end_last(s: Seq<char>)
    ensures
        trimmed_end(s).len() <= s.len(),
        trimmed_end(s) =~= s.take(trimmed_end(s).len() as int),
        trimmed_end(s).len() > 0 ==> !is_white_space(trimmed_end(s).last()),
    decreases s.len(),
{
    if s.len() > 0 && is_white_space(s.last()) {
        lemma_trimmed_end_last(s.drop_last());
    }
}

/// Trimming a text that does not start or end with white space changes nothing.
pub proof fn lemma_trimmed_fixed(s: Seq<char>)
    requires
        s.len() > 0 ==> !is_white_space(s[0]) && !is_white_space(s.last()),
    ensures
        trimmed(s) == s,
{
}

// ---------------------------------------------------------------------------
// Searching and replacing
// ---------------------------------------------------------------------------

/// `pat` stands in `s` at position `i`.
pub open spec fn stands_at(s: Seq<char>, pat: Seq<char>, i: int) -> bool {
    &&& 0 <= i
    &&& i + pat.len() <= s.len()
    &&& s.subrange(i, i + pat.len()) == pat
}

/// `pat` stands somewhere in `s`.
pub open spec fn holds(s: Seq<char>, pat: Seq<char>) -> bool {
    exists|i: int| stands_at(s, pat, i)
}

/// `s` begins with `pat`.
pub open spec fn begins(s: Seq<char>, pat: Seq<char>) -> bool {
    stands_at(s, pat, 0)
}

/// `s` ends with `pat`.
pub open spec fn ends(s: Seq<char>, pat: Seq<char>) -> bool {
    stands_at(s, pat, s.len() - pat.len())
}

/// `s` with every occurrence of `pat` replaced by `to`: occurrences are taken from
/// the left and do not overlap.
pub open spec fn replaced(s: Seq<char>, pat: Seq<char>, to: Seq<char>) -> Seq<char>
    decreases s.len(),
{
    if pat.len() == 0 || s.len() < pat.len() {
        s
    } else if begins(s, pat) {
        to + replaced(s.skip(pat.len() as int), pat, to)
    } else {
        seq![s[0]] + replaced(s.skip(1), pat, to)
    }
}

/// Whether `pat` stands in `chars` at position `i`.
fn matches_at(chars: &Vec<char>, pat: &Vec<char>, i: usize) -> (r: bool)
    requires
        i <= chars@.len(),
    ensures
        r == stands_at(chars@, pat@, i as int),
{
    let n: usize = chars.len();
    if n - i < pat.len() {
        return false;
    }
    let mut k: usize = 0;
    while k < pat.len()
        invariant
            k <= pat@.len(),
            n == chars@.len(),
            i + pat@.len() <= n,
            forall|m: int| 0 <= m < k ==> chars@[i + m] == #[trigger] pat@[m],
        decreases pat@.len() - k,
    {
        if chars[i + k] != pat[k] {
            proof {
                if stands_at(chars@, pat@, i as int) {
                    let sub = chars@.subrange(i as int, i + pat@.len());
                    assert(sub[k as int] == pat@[k as int]);
                }
            }
            return false;
        }
        k += 1;
    }
    assert(chars@.subrange(i as int, i + pat@.len()) =~= pat@);
    true
}

/// Whether `pat` stands somewhere in `text`.
pub fn contains(text: &str, pat: &str) -> (r: bool)
    ensures
        r == holds(text@, pat@),
{
    let chars = chars_of(text);
    let p = chars_of(pat);
    let mut i: usize = 0;
    while i < chars.len()
        invariant
            i <= chars@.len(),
            chars@ == text@,
            p@ == pat@,
            forall|k: int| 0 <= k < i ==> !stands_at(text@, pat@, k),
        decreases chars@.len() - i,
    {
        if matches_at(&chars, &p, i) {
            return true;
        }
        i += 1;
    }
    matches_at(&chars, &p, i)
}

/// Whether `text` begins with `pat`.
pub fn starts_with(text: &str, pat: &str) -> (r: bool)
    ensures
        r == begins(text@, pat@),
{
    let chars = chars_of(text);
    let p = chars_of(pat);
    matches_at(&chars, &p, 0)
}

/// Replaces every occurrence of `pat` by `to`.
pub fn replace(text: &str, pat: &str, to: &str) -> (out: String)
    requires
        pat@.len() > 0,
    ensures
        out@ == replaced(text@, pat@, to@),
{
    let chars = chars_of(text);
    let p = chars_of(pat);
    let mut out = String::new();
    let mut i: usize = 0;
    assert(chars@.skip(0) =~= chars@);
    assert(out@ + replaced(chars@, pat@, to@) =~= replaced(chars@, pat@, to@));
    while i < chars.len()
        invariant
            p@ == pat@,
            pat@.len() > 0,
            i <= chars@.len(),
            out@ + replaced(chars@.skip(i as int), pat@, to@) == replaced(chars@, pat@, to@),
        decreases chars@.len() - i,
    {
        let ghost rest = chars@.skip(i as int);
        let ghost before = out@;
        if matches_at(&chars, &p, i) {
            assert(rest.subrange(0, pat@.len() as int) =~= chars@.subrange(
                i as int,
                i + pat@.len(),
            ));
            assert(begins(rest, pat@));
            assert(rest.skip(pat@.len() as int) =~= chars@.skip(i + pat@.len()));
            out.append(to);
            i += p.len();
            assert(out@ + replaced(chars@.skip(i as int), pat@, to@) =~= before + (to@ + replaced(
                chars@.skip(i as int),
                pat@,
                to@,
            )));
        } else {
            proof {
                if rest.len() >= pat@.len() {
                    assert(rest.subrange(0, pat@.len() as int) =~= chars@.subrange(
                        i as int,
                        i + pat@.len(),
                    ));
                    assert(!begins(rest, pat@));
                } else {
                    assert(rest.skip(1).len() < pat@.len());
                    assert(rest =~= seq![rest[0]] + rest.skip(1));
                }
                assert(rest.skip(1) =~= chars@.skip(i + 1));
            }
            out.push(chars[i]);
            i += 1;
            assert(out@ + replaced(chars@.skip(i as int), pat@, to@) =~= before + (seq![rest[0]]
                + replaced(chars@.skip(i as int), pat@, to@)));
        }
    }
    assert(chars@.skip(i as int) =~= Seq::<char>::empty());
    assert(out@ + Seq::<char>::empty() =~= out@);
    out
}

/// No character of `pat` is `c`.
pub open spec fn lacks(pat: Seq<char>, c: char) -> bool {
    forall|i: int| 0 <= i < pat.len() ==> #[trigger] pat[i] != c
}

proof fn lemma_replaced_split(a: Seq<char>, v: Seq<char>, pat: Seq<char>, to: Seq<char>)
    requires
        pat.len() > 0,
        v.len() > 0,
        lacks(pat, v[0]),
    ensures
        replaced(a + v, pat, to) == replaced(a, pat, to) + replaced(v, pat, to),
    decreases a.len(),
{
    let s = a + v;
    let n = pat.len() as int;
    if a.len() == 0 {
        assert(s =~= v);
        assert(replaced(a, pat, to) + replaced(v, pat, to) =~= replaced(v, pat, to));
    } else {
        if begins(s, pat) {
            if n > a.len() {
                assert(s.subrange(0, n)[a.len() as int] == v[0]);
                assert(pat[a.len() as int] == v[0]);
            }
            assert(a.subrange(0, n) =~= s.subrange(0, n));
            assert(begins(a, pat));
            assert(s.skip(n) =~= a.skip(n) + v);
            lemma_replaced_split(a.skip(n), v, pat, to);
            assert(to + (replaced(a.skip(n), pat, to) + replaced(v, pat, to)) =~= (to + replaced(
                a.skip(n),
                pat,
                to,
            )) + replaced(v, pat, to));
        } else {
            if begins(a, pat) {
                assert(a.subrange(0, n) =~= s.subrange(0, n));
            }
            assert(s.skip(1) =~= a.skip(1) + v);
            lemma_replaced_split(a.skip(1), v, pat, to);
            assert(seq![a[0]] + (replaced(a.skip(1), pat, to) + replaced(v, pat, to)) =~= (
            seq![a[0]] + replaced(a.skip(1), pat, to)) + replaced(v, pat, to));
            if a.len() < n {
                assert(a =~= seq![a[0]] + a.skip(1));
            }
            if s.len() < n {
                assert(s =~= seq![s[0]] + s.skip(1));
            }
        }
    }
}

proof fn lemma_replaced_keeps_front(b: Seq<char>, c: Seq<char>, pat: Seq<char>, to: Seq<char>)
    requires
        pat.len() > 0,
        b.len() > 0,
        lacks(pat, b.last()),
        !holds(b, pat),
    ensures
        replaced(b + c, pat, to) == b + replaced(c, pat, to),
    decreases b.len(),
{
    let s = b + c;
    let n = pat.len() as int;
    if begins(s, pat) {
        if n <= b.len() {
            assert(b.subrange(0, n) =~= s.subrange(0, n));
            assert(stands_at(b, pat, 0));
        } else {
            assert(s.subrange(0, n)[b.len() - 1] == b.last());
            assert(pat[b.len() - 1] == b.last());
        }
    }
    if s.len() < n {
        assert(c.len() < n);
    } else {
        assert(s.skip(1) =~= b.skip(1) + c);
        if b.len() == 1 {
            assert(b.skip(1) + c =~= c);
            assert(b =~= seq![b[0]]);
        } else {
            assert forall|i: int| !stands_at(b.skip(1), pat, i) by {
                if stands_at(b.skip(1), pat, i) {
                    assert(b.skip(1).subrange(i, i + n) =~= b.subrange(i + 1, i + 1 + n));
                    assert(stands_at(b, pat, i + 1));
                }
            }
            lemma_replaced_keeps_front(b.skip(1), c, pat, to);
            assert(seq![b[0]] + (b.skip(1) + replaced(c, pat, to)) =~= b + replaced(c, pat, to));
        }
    }
}

/// A stretch of text passes a replacement unchanged where the pattern does not stand
/// in it and holds neither its first nor its last character.
pub proof fn lemma_replaced_round(
    a: Seq<char>,
    b: Seq<char>,
    c: Seq<char>,
    pat: Seq<char>,
    to: Seq<char>,
)
    requires
        pat.len() > 0,
        b.len() > 0,
        lacks(pat, b[0]),
        lacks(pat, b.last()),
        !holds(b, pat),
    ensures
        replaced(a + b + c, pat, to) == replaced(a, pat, to) + b + replaced(c, pat, to),
{
    assert(a + b + c =~= a + (b + c));
    lemma_replaced_split(a, b + c, pat, to);
    lemma_replaced_keeps_front(b, c, pat, to);
    assert(replaced(a, pat, to) + (b + replaced(c, pat, to)) =~= replaced(a, pat, to) + b
        + replaced(c, pat, to));
}

/// The first occurrence of a pattern is replaced where it stands: what is in front of it
/// stays, and what is behind it is treated in its turn.
pub proof fn lemma_replaced_first(a: Seq<char>, c: Seq<char>, pat: Seq<char>, to: Seq<char>)
    requires
        pat.len() > 0,
        forall|j: int| 0 <= j < a.len() ==> !#[trigger] stands_at(a + pat + c, pat, j),
    ensures
        replaced(a + pat + c, pat, to) == a + to + replaced(c, pat, to),
    decreases a.len(),
{
    let s = a + pat + c;
    let n = pat.len() as int;
    if a.len() == 0 {
        assert(s.subrange(0, n) =~= pat);
        assert(s.skip(n) =~= c);
        assert(a + to + replaced(c, pat, to) =~= to + replaced(c, pat, to));
    } else {
        assert(!stands_at(s, pat, 0));
        let t = a.skip(1) + pat + c;
        assert(s.skip(1) =~= t);
        assert forall|j: int| 0 <= j < a.len() - 1 implies !#[trigger] stands_at(t, pat, j) by {
            assert(!stands_at(s, pat, j + 1));
            if stands_at(t, pat, j) {
                assert(t.subrange(j, j + n) =~= s.subrange(j + 1, j + 1 + n));
            }
        }
        lemma_replaced_first(a.skip(1), c, pat, to);
        assert(seq![s[0]] + (a.skip(1) + to + replaced(c, pat, to)) =~= a + to + replaced(
            c,
            pat,
            to,
        ));
    }
}

/// What stands in the middle of a text stands in the text.
pub proof fn lemma_holds_middle(a: Seq<char>, b: Seq<char>, c: Seq<char>)
    ensures
        holds(a + b + c, b),
{
    let i = a.len() as int;
    assert((a + b + c).subrange(i, i + b.len()) =~= b);
    assert(stands_at(a + b + c, b, i));
}

/// A text that holds `b` is some text, then `b`, then some text.
pub proof fn lemma_holds_split(s: Seq<char>, b: Seq<char>) -> (parts: (Seq<char>, Seq<char>))
    requires
        holds(s, b),
    ensures
        s == parts.0 + b + parts.1,
{
    let i = choose|i: int| stands_at(s, b, i);
    let a = s.take(i);
    let c = s.skip(i + b.len());
    assert(s =~= a + s.subrange(i, i + b.len()) + c);
    (a, c)
}

/// Where `b` stands in a text, it stands in any text that holds that one.
pub proof fn lemma_holds_transitive(s: Seq<char>, m: Seq<char>, b: Seq<char>)
    requires
        holds(s, m),
        holds(m, b),
    ensures
        holds(s, b),
{
    let (a, c) = lemma_holds_split(s, m);
    let (d, e) = lemma_holds_split(m, b);
    assert(s =~= (a + d) + b + (e + c));
    lemma_holds_middle(a + d, b, e + c);
}

/// Replacing a pattern that occurs puts the replacement into the text.
pub proof fn lemma_replaced_holds_replacement(s: Seq<char>, pat: Seq<char>, to: Seq<char>)
    requires
        pat.len() > 0,
        holds(s, pat),
    ensures
        holds(replaced(s, pat, to), to),
    decreases s.len(),
{
    let i = choose|i: int| stands_at(s, pat, i);
    let n = pat.len() as int;
    if begins(s, pat) {
        let rest = replaced(s.skip(n), pat, to);
        assert(to + rest =~= Seq::<char>::empty() + to + rest);
        lemma_holds_middle(Seq::<char>::empty(), to, rest);
    } else {
        assert(i > 0);
        assert(s.skip(1).subrange(i - 1, i - 1 + n) =~= s.subrange(i, i + n));
        assert(stands_at(s.skip(1), pat, i - 1));
        lemma_replaced_holds_replacement(s.skip(1), pat, to);
        let (a, c) = lemma_holds_split(replaced(s.skip(1), pat, to), to);
        assert(seq![s[0]] + (a + to + c) =~= (seq![s[0]] + a) + to + c);
        lemma_holds_middle(seq![s[0]] + a, to, c);
    }
}

// ---------------------------------------------------------------------------
// Joining and cutting
// ---------------------------------------------------------------------------

/// The parts one after the other, with `sep` between neighbours.
pub open spec fn joined(parts: Seq<Seq<char>>, sep: Seq<char>) -> Seq<char>
    decreases parts.len(),
{
    if parts.len() == 0 {
        Seq::empty()
    } else if parts.len() == 1 {
        parts[0]
    } else {
        joined(parts.drop_last(), sep) + sep + parts.last()
    }
}

/// Joins `parts` with `sep` between neighbours.
pub fn join(parts: &Vec<String>, sep: &str) -> (out: String)
    ensures
        out@ == joined(texts(parts@), sep@),
{
    let mut out = String::new();
    let mut i: usize = 0;
    while i < parts.len()
        invariant
            i <= parts@.len(),
            out@ == joined(texts(parts@).take(i as int), sep@),
        decreases parts@.len() - i,
    {
        let ghost all = texts(parts@);
        assert(all.take(i + 1).drop_last() =~= all.take(i as int));
        if i > 0 {
            out.append(sep);
        } else {
            assert(out@ + parts@[0]@ =~= parts@[0]@);
        }
        out.append(parts[i].as_str());
        i += 1;
    }
    assert(texts(parts@).take(parts@.len() as int) =~= texts(parts@));
    out
}

/// Every part stands in the joined text.
pub proof fn lemma_joined_holds_part(parts: Seq<Seq<char>>, sep: Seq<char>, i: int)
    requires
        0 <= i < parts.len(),
    ensures
        holds(joined(parts, sep), parts[i]),
    decreases parts.len(),
{
    let e = Seq::<char>::empty();
    if parts.len() == 1 {
        assert(e + parts[0] + e =~= parts[0]);
        lemma_holds_middle(e, parts[0], e);
    } else {
        let front = joined(parts.drop_last(), sep);
        if i == parts.len() - 1 {
            assert(front + sep + parts.last() =~= (front + sep) + parts[i] + e);
            lemma_holds_middle(front + sep, parts[i], e);
        } else {
            lemma_joined_holds_part(parts.drop_last(), sep, i);
            assert(parts.drop_last()[i] == parts[i]);
            assert(front + sep + parts.last() =~= e + front + (sep + parts.last()));
            lemma_holds_middle(e, front, sep + parts.last());
            lemma_holds_transitive(joined(parts, sep), front, parts[i]);
        }
    }
}

/// What stands behind the last `/` of `s`, or all of `s` where it has none.
pub open spec fn last_segment(s: Seq<char>) -> Seq<char>
    decreases s.len(),
{
    if s.len() == 0 || s.last() == '/' {
        Seq::empty()
    } else {
        last_segment(s.drop_last()).push(s.last())
    }
}

/// Returns what stands behind the last `/` of `text`.
pub fn after_last_slash(text: &str) -> (out: String)
    ensures
        out@ == last_segment(text@),
{
    let chars = chars_of(text);
    let n: usize = chars.len();
    let mut j: usize = n;
    assert(chars@.subrange(0, n as int) =~= chars@);
    assert(chars@.subrange(n as int, n as int) =~= Seq::<char>::empty());
    assert(last_segment(chars@) + Seq::<char>::empty() =~= last_segment(chars@));
    while j > 0 && chars[j - 1] != '/'
        invariant
            j <= n,
            n == chars@.len(),
            last_segment(chars@) == last_segment(chars@.subrange(0, j as int)) + chars@.subrange(
                j as int,
                n as int,
            ),
        decreases j,
    {
        let ghost front = chars@.subrange(0, j as int);
        assert(front.drop_last() =~= chars@.subrange(0, j - 1));
        assert(last_segment(front.drop_last()).push(front.last()) + chars@.subrange(
            j as int,
            n as int,
        ) =~= last_segment(front.drop_last()) + chars@.subrange(j - 1, n as int));
        j -= 1;
    }
    assert(last_segment(chars@.subrange(0, j as int)) =~= Seq::<char>::empty());
    assert(last_segment(chars@) =~= chars@.subrange(j as int, n as int));
    string_between(&chars, j, n)
}

/// The last segment of a text that ends with a `/` and a slash-free name is that name.
pub proof fn lemma_last_segment_of_join(front: Seq<char>, name: Seq<char>)
    requires
        forall|i: int| 0 <= i < name.len() ==> name[i] != '/',
    ensures
        last_segment(front + seq!['/'] + name) == name,
    decreases name.len(),
{
    let s = front + seq!['/'] + name;
    if name.len() == 0 {
        assert(s.last() == '/');
        assert(name =~= Seq::<char>::empty());
    } else {
        lemma_last_segment_of_join(front, name.drop_last());
        assert(s.drop_last() =~= front + seq!['/'] + name.drop_last());
        assert(name.drop_last().push(name.last()) =~= name);
    }
}

// ---------------------------------------------------------------------------
// Decimal numbers
// ---------------------------------------------------------------------------

/// The digit that stands for `d`.
pub open spec fn digit_char(d: nat) -> char {
    (48 + d) as char
}

/// `n` in decimal, without leading zeros.
pub open spec fn decimal(n: nat) -> Seq<char>
    decreases n,
{
    if n < 10 {
        seq![digit_char(n)]
    } else {
        decimal(n / 10).push(digit_char(n % 10))
    }
}

/// Writes `n` in decimal.
pub fn decimal_string(n: u128) -> (out: String)
    ensures
        out@ == decimal(n as nat),
    decreases n,
{
    let last: char = (48u8 + (n % 10) as u8) as char;
    let mut out = if n < 10 {
        String::new()
    } else {
        decimal_string(n / 10)
    };
    out.push(last);
    assert(n < 10 ==> out@ =~= seq![digit_char(n as nat)]);
    out
}

/// The number that the decimal digits of `s` write.
pub open spec fn decimal_value(s: Seq<char>) -> nat
    decreases s.len(),
{
    if s.len() == 0 {
        0
    } else {
        decimal_value(s.drop_last()) * 10 + (s.last() as nat - 48) as nat
    }
}

/// `s` without one leading plus sign.
pub open spec fn unsigned_part(s: Seq<char>) -> Seq<char> {
    if s.len() > 0 && s[0] == '+' {
        s.skip(1)
    } else {
        s
    }
}

/// The number that `s` writes: at least one digit, nothing but digits behind an
/// optional plus sign, and no more than a `u64` holds.
pub open spec fn parsed_u64(s: Seq<char>) -> Option<u64> {
    let digits = unsigned_part(s);
    if digits.len() > 0 && (forall|i: int| 0 <= i < digits.len() ==> is_digit(digits[i]))
        && decimal_value(digits) <= u64::MAX {
        Some(decimal_value(digits) as u64)
    } else {
        None
    }
}

proof fn lemma_decimal_value_grows(s: Seq<char>, i: int)
    requires
        0 <= i <= s.len(),
    ensures
        decimal_value(s.take(i)) <= decimal_value(s),
    decreases s.len(),
{
    if i == s.len() {
        assert(s.take(i) =~= s);
    } else {
        lemma_decimal_value_grows(s.drop_last(), i);
        assert(s.drop_last().take(i) =~= s.take(i));
    }
}

/// Reads an unsigned decimal number.
pub fn parse_u64(text: &str) -> (r: Option<u64>)
    ensures
        r == parsed_u64(text@),
{
    let chars = chars_of(text);
    let from: usize = if chars.len() > 0 && chars[0] == '+' {
        1
    } else {
        0
    };
    let ghost digits = unsigned_part(text@);
    assert(digits =~= chars@.skip(from as int));
    if from == chars.len() {
        return None;
    }
    let mut value: u64 = 0;
    let mut i: usize = from;
    assert(digits.take(0) =~= Seq::<char>::empty());
    while i < chars.len()
        invariant
            from <= i <= chars@.len(),
            chars@ == text@,
            digits == unsigned_part(text@),
            digits == chars@.skip(from as int),
            forall|k: int| 0 <= k < i - from ==> is_digit(digits[k]),
            value == decimal_value(digits.take(i - from)),
        decreases chars@.len() - i,
    {
        let c = chars[i];
        let ghost k = i - from;
        assert(digits[k] == c);
        if !digit(c) {
            return None;
        }
        let d: u64 = (c as u8 - 48) as u64;
        proof {
            assert(digits.take(k + 1).drop_last() =~= digits.take(k));
            lemma_decimal_value_grows(digits, k + 1);
        }
        match value.checked_mul(10) {
            None => {
                return None;
            },
            Some(tens) => match tens.checked_add(d) {
                None => {
                    return None;
                },
                Some(v) => {
                    value = v;
                },
            },
        }
        i += 1;
    }
    assert(digits.take(digits.len() as int) =~= digits);
    Some(value)
}

// ---------------------------------------------------------------------------
// Laws
// ---------------------------------------------------------------------------

/// Trimming takes exactly the white space at the ends: whatever white space stands round
/// a text that begins and ends with other characters, that text comes out.
pub proof fn law_trimming_takes_the_ends_off(front: Seq<char>, body: Seq<char>, back: Seq<char>)
    requires
        forall|i: int| 0 <= i < front.len() ==> is_white_space(#[trigger] front[i]),
        forall|i: int| 0 <= i < back.len() ==> is_white_space(#[trigger] back[i]),
        body.len() > 0 ==> !is_white_space(body[0]) && !is_white_space(body.last()),
    ensures
        trimmed(front + body + back) == body,
    decreases front.len() + back.len(),
{
    let s = front + body + back;
    if back.len() > 0 {
        let less = back.drop_last();
        law_trimming_takes_the_ends_off(front, body, less);
        assert(s.drop_last() =~= front + body + less);
        assert(s.last() == back.last());
        lemma_trimmed_drop_last(s);
    } else if front.len() > 0 {
        let less = front.skip(1);
        law_trimming_takes_the_ends_off(less, body, back);
        assert(s.skip(1) =~= less + body + back);
        assert(s[0] == front[0]);
        assert(s =~= front + body);
    } else {
        assert(s =~= body);
        lemma_trimmed_fixed(body);
    }
}

/// Trimming the end takes exactly the white space there.
pub proof fn law_trimming_the_end(body: Seq<char>, back: Seq<char>)
    requires
        forall|i: int| 0 <= i < back.len() ==> is_white_space(#[trigger] back[i]),
        body.len() > 0 ==> !is_white_space(body.last()),
    ensures
        trimmed_end(body + back) == body,
    decreases back.len(),
{
    if back.len() > 0 {
        law_trimming_the_end(body, back.drop_last());
        assert((body + back).drop_last() =~= body + back.drop_last());
        assert((body + back).last() == back.last());
    } else {
        assert(body + back =~= body);
    }
}

proof fn lemma_trimmed_drop_last(s: Seq<char>)
    requires
        s.len() > 0,
        is_white_space(s.last()),
    ensures
        trimmed(s) == trimmed(s.drop_last()),
    decreases s.len(),
{
    if is_white_space(s[0]) {
        if s.len() == 1 {
            assert(s.skip(1) =~= s.drop_last());
        } else {
            assert(s.skip(1).drop_last() =~= s.drop_last().skip(1));
            lemma_trimmed_drop_last(s.skip(1));
        }
    }
}

/// Replacing leaves a text alone in which the pattern does not stand.
pub proof fn law_replacing_needs_an_occurrence(s: Seq<char>, pat: Seq<char>, to: Seq<char>)
    requires
        forall|i: int| 0 <= i <= s.len() - pat.len() ==> #[trigger] s.subrange(i, i + pat.len())
            != pat,
    ensures
        replaced(s, pat, to) == s,
    decreases s.len(),
{
    if pat.len() > 0 && s.len() >= pat.len() {
        let n = pat.len() as int;
        assert(s.subrange(0, 0 + n) != pat);
        let t = s.skip(1);
        assert forall|i: int| 0 <= i <= t.len() - pat.len() implies #[trigger] t.subrange(
            i,
            i + pat.len(),
        ) != pat by {
            assert(t.subrange(i, i + n) =~= s.subrange(i + 1, i + 1 + n));
        }
        law_replacing_needs_an_occurrence(t, pat, to);
        assert(seq![s[0]] + t =~= s);
    }
}

/// Joining two lists is joining their joins: the separator stands between neighbours and
/// nowhere else.
pub proof fn law_joining_puts_the_separator_between(
    a: Seq<Seq<char>>,
    b: Seq<Seq<char>>,
    sep: Seq<char>,
    x: Seq<char>,
)
    ensures
        joined(Seq::<Seq<char>>::empty(), sep) == Seq::<char>::empty(),
        joined(seq![x], sep) == x,
        a.len() > 0 && b.len() > 0 ==> joined(a + b, sep) == joined(a, sep) + sep + joined(b, sep),
    decreases b.len(),
{
    if a.len() > 0 && b.len() > 0 {
        assert((a + b).drop_last() =~= a + b.drop_last());
        if b.len() == 1 {
            assert(a + b.drop_last() =~= a);
        } else {
            law_joining_puts_the_separator_between(a, b.drop_last(), sep, x);
            assert(joined(a, sep) + sep + joined(b.drop_last(), sep) + sep + b.last() =~= joined(
                a,
                sep,
            ) + sep + (joined(b.drop_last(), sep) + sep + b.last()));
        }
    }
}

/// Trailing copies of a character are all taken off, and nothing else.
pub proof fn law_trailing_copies_are_taken_off(body: Seq<char>, copies: Seq<char>, c: char)
    requires
        body.len() > 0 ==> body.last() != c,
        forall|i: int| 0 <= i < copies.len() ==> #[trigger] copies[i] == c,
    ensures
        without_trailing(body + copies, c) == body,
    decreases copies.len(),
{
    if copies.len() > 0 {
        law_trailing_copies_are_taken_off(body, copies.drop_last(), c);
        assert((body + copies).drop_last() =~= body + copies.drop_last());
        assert((body + copies).last() == c);
    } else {
        assert(body + copies =~= body);
    }
}

/// The last segment is what stands behind the last slash, and all of a text without one.
pub proof fn law_last_segment_is_behind_the_last_slash(front: Seq<char>, name: Seq<char>)
    requires
        forall|i: int| 0 <= i < name.len() ==> #[trigger] name[i] != '/',
    ensures
        last_segment(front + seq!['/'] + name) == name,
        last_segment(name) == name,
    decreases name.len(),
{
    lemma_last_segment_of_join(front, name);
    if name.len() > 0 {
        law_last_segment_is_behind_the_last_slash(front, name.drop_last());
        assert(name.drop_last().push(name.last()) =~= name);
    } else {
        assert(name =~= Seq::<char>::empty());
    }
}

proof fn lemma_decimal_shape(n: nat)
    ensures
        decimal(n).len() > 0,
        forall|i: int| 0 <= i < decimal(n).len() ==> '0' <= #[trigger] decimal(n)[i]
            && decimal(n)[i] <= '9',
        n > 0 ==> decimal(n)[0] != '0',
        decimal_value(decimal(n)) == n,
    decreases n,
{
    if n < 10 {
        assert(decimal(n).drop_last() =~= Seq::<char>::empty());
        assert(decimal_value(decimal(n).drop_last()) == 0);
    } else {
        lemma_decimal_shape(n / 10);
        assert(decimal(n).drop_last() =~= decimal(n / 10));
    }
}

/// A number that is written in decimal and read again is the same number, also behind a
/// plus sign, and is written in digits without leading zeros. What does not fit is not
/// read.
pub proof fn law_numbers_read_back(n: nat)
    ensures
        forall|i: int| 0 <= i < decimal(n).len() ==> '0' <= #[trigger] decimal(n)[i]
            && decimal(n)[i] <= '9',
        n > 0 ==> decimal(n)[0] != '0',
        n <= u64::MAX ==> parsed_u64(decimal(n)) == Some(n as u64) && parsed_u64(
            seq!['+'] + decimal(n),
        ) == Some(n as u64),
        n > u64::MAX ==> parsed_u64(decimal(n)) is None,
{
    lemma_decimal_shape(n);
    assert((seq!['+'] + decimal(n)).skip(1) =~= decimal(n));
    assert(unsigned_part(decimal(n)) == decimal(n));
}

/// Reading goes digit by digit: a further digit multiplies by ten and adds itself, and
/// any other character behind the first makes the text no number.
pub proof fn law_reading_goes_digit_by_digit(s: Seq<char>, c: char)
    requires
        s.len() > 0,
    ensures
        parsed_u64(Seq::<char>::empty()) is None,
        !('0' <= c && c <= '9') ==> parsed_u64(s.push(c)) is None,
        parsed_u64(s) matches Some(v) ==> ('0' <= c && c <= '9') ==> parsed_u64(s.push(c)) == (
        if v * 10 + (c as int - 48) <= u64::MAX {
            Some((v * 10 + (c as int - 48)) as u64)
        } else {
            None
        }),
{
    let t = s.push(c);
    let d = unsigned_part(s);
    assert(unsigned_part(t) =~= d.push(c));
    assert(d.push(c).drop_last() =~= d);
    assert(d.push(c)[d.len() as int] == c);
    if parsed_u64(s) is Some && '0' <= c && c <= '9' {
        assert forall|i: int| 0 <= i < d.push(c).len() implies is_digit(d.push(c)[i]) by {
            if i < d.len() {
                assert(d.push(c)[i] == d[i]);
            }
        }
    }
}

/// The characters that count as white space: the tabulator and the four line breaks
/// behind it, the space, and the wider and narrower spaces and line breaks of Unicode.
pub proof fn law_white_space_is_the_unicode_property(c: char)
    ensures
        is_white_space(c) <==> (9 <= c as int <= 13 || c as int == 32 || c as int == 0x85
            || c as int == 0xA0 || c as int == 0x1680 || 0x2000 <= c as int <= 0x200A || c as int
            == 0x2028 || c as int == 0x2029 || c as int == 0x202F || c as int == 0x205F || c as int
            == 0x3000),
{
}

/// Lower case moves the 26 capital letters by 32 places, and no other character.
pub proof fn law_lower_case_moves_capitals_only(c: char)
    ensures
        65 <= c as int <= 90 ==> ascii_lower(c) as int == c as int + 32,
        !(65 <= c as int <= 90) ==> ascii_lower(c) == c,
{
}

/// A text holds, begins with and ends with a pattern exactly where it can be taken apart
/// round it.
pub proof fn law_searching_finds_what_is_there(s: Seq<char>, pat: Seq<char>)
    ensures
        holds(s, pat) <==> exists|a: Seq<char>, b: Seq<char>| s == #[trigger] (a + pat + b),
        begins(s, pat) <==> exists|b: Seq<char>| s == #[trigger] (pat + b),
        ends(s, pat) <==> exists|a: Seq<char>| s == #[trigger] (a + pat),
{
    let n = pat.len() as int;
    if holds(s, pat) {
        let i = choose|i: int| stands_at(s, pat, i);
        assert(s =~= s.take(i) + pat + s.skip(i + n)) by {
            assert(s =~= s.take(i) + s.subrange(i, i + n) + s.skip(i + n));
        }
    }
    if exists|a: Seq<char>, b: Seq<char>| s == #[trigger] (a + pat + b) {
        let (a, b) = choose|a: Seq<char>, b: Seq<char>| s == #[trigger] (a + pat + b);
        lemma_holds_middle(a, pat, b);
    }
    if begins(s, pat) {
        assert(s =~= s.subrange(0, n) + s.skip(n));
        assert(s == pat + s.skip(n));
    }
    if exists|b: Seq<char>| s == #[trigger] (pat + b) {
        let b = choose|b: Seq<char>| s == #[trigger] (pat + b);
        assert((pat + b).subrange(0, n) =~= pat);
    }
    if ends(s, pat) {
        let m = s.len() - n;
        assert(s =~= s.take(m) + s.subrange(m, m + n));
        assert(s == s.take(m) + pat);
    }
    if exists|a: Seq<char>| s == #[trigger] (a + pat) {
        let a = choose|a: Seq<char>| s == #[trigger] (a + pat);
        assert((a + pat).subrange(a.len() as int, a.len() + n) =~= pat);
    }
}

/// The texts of a list are those of its strings, each in its place.
pub proof fn law_texts_keep_their_places(list: Seq<String>, s: String, t: &str)
    ensures
        texts(list).len() == list.len(),
        forall|i: int| 0 <= i < list.len() ==> #[trigger] texts(list)[i] == list[i]@,
        string_opt(Some(s)) == Some(s@),
        string_opt(None) is None,
        text_opt(Some(t)) == Some(t@),
        text_opt(None) is None,
{
}

} // verus!
