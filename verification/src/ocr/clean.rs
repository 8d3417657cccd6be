//! Cleaning of recognized lines: noise, time stamps and stray spaces.

use vstd::prelude::*;

use crate::ocr::engine;
use crate::ocr::engine::{OcrLine, OcrResult};
use crate::strings;
use crate::strings::{chars_of, digit, join, starts_with, trim, white_space};

verus! {

/// What `char::is_alphanumeric` returns: whether the character has the Unicode
/// property Alphabetic or one of the general categories for numbers.
pub uninterp spec fn alphanumeric(c: char) -> bool;

/// `char::is_alphanumeric` is a function of the character alone; its tables are not
/// written out here.
pub assume_specification[ char::is_alphanumeric ](c: char) -> (r: bool)
    ensures
        r == alphanumeric(c),
;

// ---------------------------------------------------------------------------
// Noise
// ---------------------------------------------------------------------------

/// A CJK unified ideograph.
pub open spec fn is_ideograph(c: char) -> bool {
    '\u{4E00}' <= c && c <= '\u{9FFF}'
}

/// Whether `c` is a CJK unified ideograph.
pub fn is_cjk(c: char) -> (r: bool)
    ensures
        r == is_ideograph(c),
{
    '\u{4E00}' <= c && c <= '\u{9FFF}'
}

/// A character that carries meaning: a letter or digit, an ideograph, hiragana,
/// katakana or a Hangul syllable. `letter_or_digit` says whether `c` is one of the
/// first kind.
pub open spec fn is_significant(c: char, letter_or_digit: bool) -> bool {
    ||| letter_or_digit
    ||| is_ideograph(c)
    ||| ('\u{3040}' <= c && c <= '\u{309F}')
    ||| ('\u{30A0}' <= c && c <= '\u{30FF}')
    ||| ('\u{AC00}' <= c && c <= '\u{D7AF}')
}

/// Whether `c` carries meaning, given whether it is a letter or digit.
pub fn significant_given(c: char, letter_or_digit: bool) -> (r: bool)
    ensures
        r == is_significant(c, letter_or_digit),
{
    letter_or_digit || is_cjk(c) || ('\u{3040}' <= c && c <= '\u{309F}') || ('\u{30A0}' <= c && c
        <= '\u{30FF}') || ('\u{AC00}' <= c && c <= '\u{D7AF}')
}

/// Whether `c` carries meaning.
pub fn is_significant_char(c: char) -> (r: bool)
    ensures
        r == is_significant(c, alphanumeric(c)),
{
    significant_given(c, c.is_alphanumeric())
}

/// Fewer than half of `total` characters are significant, or there are none at all.
pub open spec fn too_few_significant(significant: nat, total: nat) -> bool {
    total == 0 || significant * 2 < total
}

/// Whether a text with that many characters and significant characters is noise.
pub fn noise_by_counts(significant: usize, total: usize) -> (r: bool)
    ensures
        r == too_few_significant(significant as nat, total as nat),
{
    if significant >= total {
        total == 0
    } else {
        significant < total - significant
    }
}

/// The number of significant characters of `s`.
pub open spec fn significant_count(s: Seq<char>) -> nat
    decreases s.len(),
{
    if s.len() == 0 {
        0
    } else {
        significant_count(s.drop_last()) + if is_significant(s.last(), alphanumeric(s.last())) {
            1nat
        } else {
            0nat
        }
    }
}

/// Whether a text consists mainly of symbols: icons, emoji, rules.
pub fn is_mostly_noise(text: &str) -> (r: bool)
    ensures
        r == too_few_significant(significant_count(text@), text@.len()),
{
    let chars = chars_of(text);
    let mut significant: usize = 0;
    let mut i: usize = 0;
    while i < chars.len()
        invariant
            i <= chars@.len(),
            significant <= i,
            significant == significant_count(chars@.take(i as int)),
        decreases chars@.len() - i,
    {
        assert(chars@.take(i + 1).drop_last() =~= chars@.take(i as int));
        if is_significant_char(chars[i]) {
            significant += 1;
        }
        i += 1;
    }
    assert(chars@.take(chars@.len() as int) =~= chars@);
    noise_by_counts(significant, chars.len())
}

// ---------------------------------------------------------------------------
// Time stamps
// ---------------------------------------------------------------------------

/// The number of ASCII digits in `s`.
pub open spec fn digit_count(s: Seq<char>) -> nat
    decreases s.len(),
{
    if s.len() == 0 {
        0
    } else {
        digit_count(s.drop_last()) + if strings::is_digit(s.last()) {
            1nat
        } else {
            0nat
        }
    }
}

/// Characters of a time of day.
pub open spec fn is_time_char(c: char) -> bool {
    strings::is_digit(c) || c == ':' || c == '-' || strings::is_white_space(c)
}

/// Characters of a date.
pub open spec fn is_date_char(c: char) -> bool {
    strings::is_digit(c) || c == '-' || c == '/' || c == '.' || c == '年' || c == '月' || c == '日'
}

/// A time alone on its line, such as `10:30`.
pub open spec fn is_time(s: Seq<char>) -> bool {
    &&& forall|i: int| 0 <= i < s.len() ==> is_time_char(#[trigger] s[i])
    &&& digit_count(s) >= 3
}

/// A date alone on its line, such as `2024-08-10` or `8/10`. With a slash three digits
/// are enough; without one a short decimal number would be taken for a date.
pub open spec fn is_date(s: Seq<char>) -> bool {
    &&& forall|i: int| 0 <= i < s.len() ==> is_date_char(#[trigger] s[i])
    &&& digit_count(s) >= 4 || (digit_count(s) >= 3 && exists|i: int|
        0 <= i < s.len() && #[trigger] s[i] == '/')
}

/// A day or a part of the day, with a digit somewhere behind or in it.
pub open spec fn is_day_and_time(s: Seq<char>) -> bool {
    &&& strings::begins(s, "昨天"@) || strings::begins(s, "今天"@) || strings::begins(s, "上午"@)
        || strings::begins(s, "下午"@)
    &&& digit_count(s) > 0
}

/// A line that chat programs put between messages.
pub open spec fn is_stamp(s: Seq<char>) -> bool {
    is_time(s) || is_date(s) || is_day_and_time(s)
}

/// Whether a line is a time stamp or a similar notice.
pub fn is_likely_timestamp_or_meta(text: &str) -> (r: bool)
    ensures
        r == is_stamp(text@),
{
    let chars = chars_of(text);
    let mut digits: usize = 0;
    let mut all_time = true;
    let mut all_date = true;
    let mut slash = false;
    let mut i: usize = 0;
    while i < chars.len()
        invariant
            i <= chars@.len(),
            digits <= i,
            digits == digit_count(chars@.take(i as int)),
            all_time == (forall|k: int| 0 <= k < i ==> is_time_char(#[trigger] chars@[k])),
            all_date == (forall|k: int| 0 <= k < i ==> is_date_char(#[trigger] chars@[k])),
            slash == (exists|k: int| 0 <= k < i && #[trigger] chars@[k] == '/'),
        decreases chars@.len() - i,
    {
        assert(chars@.take(i + 1).drop_last() =~= chars@.take(i as int));
        let c = chars[i];
        if digit(c) {
            digits += 1;
        }
        if !(digit(c) || c == ':' || c == '-' || white_space(c)) {
            all_time = false;
        }
        if !(digit(c) || c == '-' || c == '/' || c == '.' || c == '年' || c == '月' || c == '日') {
            all_date = false;
        }
        if c == '/' {
            slash = true;
        }
        i += 1;
    }
    assert(chars@.take(chars@.len() as int) =~= chars@);
    if all_time && digits >= 3 {
        return true;
    }
    if all_date && (digits >= 4 || (digits >= 3 && slash)) {
        return true;
    }
    (starts_with(text, "昨天") || starts_with(text, "今天") || starts_with(text, "上午")
        || starts_with(text, "下午")) && digits > 0
}

// ---------------------------------------------------------------------------
// Spaces between ideographs
// ---------------------------------------------------------------------------

/// Position `i` of `s` holds a space between two ideographs.
pub open spec fn is_stray_space(s: Seq<char>, i: int) -> bool {
    &&& 0 < i < s.len() - 1
    &&& s[i] == ' '
    &&& is_ideograph(s[i - 1])
    &&& is_ideograph(s[i + 1])
}

/// The first `n` characters of `s` without the spaces between two ideographs.
pub open spec fn closed_up_to(s: Seq<char>, n: int) -> Seq<char>
    decreases n,
{
    if n <= 0 {
        Seq::empty()
    } else if is_stray_space(s, n - 1) {
        closed_up_to(s, n - 1)
    } else {
        closed_up_to(s, n - 1).push(s[n - 1])
    }
}

/// `s` without the spaces between two ideographs.
pub open spec fn closed_up(s: Seq<char>) -> Seq<char> {
    closed_up_to(s, s.len() as int)
}

/// Removes every space that stands between two ideographs.
pub fn remove_spaces_between_cjk(text: &str) -> (out: String)
    ensures
        out@ == closed_up(text@),
{
    let chars = chars_of(text);
    let n: usize = chars.len();
    let mut out = String::new();
    let mut i: usize = 0;
    while i < n
        invariant
            i <= n,
            n == chars@.len(),
            out@ == closed_up_to(chars@, i as int),
        decreases n - i,
    {
        let c = chars[i];
        if !(c == ' ' && i > 0 && i < n - 1 && is_cjk(chars[i - 1]) && is_cjk(chars[i + 1])) {
            out.push(c);
        }
        i += 1;
    }
    out
}

// ---------------------------------------------------------------------------
// Lines
// ---------------------------------------------------------------------------

/// A recognized line as it is kept: trimmed, its stray spaces removed; or `None` for
/// one that is blank, noise or a time stamp.
pub open spec fn cleaned_text(s: Seq<char>) -> Option<Seq<char>> {
    let t = strings::trimmed(s);
    if t.len() == 0 || too_few_significant(significant_count(t), t.len()) || is_stamp(t) {
        None
    } else {
        Some(closed_up(t))
    }
}

/// Cleans one line; `None` for one to be dropped.
pub fn clean_ocr_text(text: &str) -> (out: Option<String>)
    ensures
        strings::string_opt(out) == cleaned_text(text@),
{
    let trimmed = trim(text);
    if trimmed.as_str().is_empty() {
        return None;
    }
    if is_mostly_noise(trimmed.as_str()) {
        return None;
    }
    if is_likely_timestamp_or_meta(trimmed.as_str()) {
        return None;
    }
    Some(remove_spaces_between_cjk(trimmed.as_str()))
}

/// The lines that are kept, cleaned, in their order and with their confidence.
pub open spec fn cleaned_lines(lines: Seq<engine::OcrLineView>) -> Seq<engine::OcrLineView>
    decreases lines.len(),
{
    if lines.len() == 0 {
        Seq::empty()
    } else {
        let rest = cleaned_lines(lines.drop_last());
        match cleaned_text(lines.last().text) {
            Some(text) => rest.push(
                engine::OcrLineView { text, confidence: lines.last().confidence },
            ),
            None => rest,
        }
    }
}

/// Cleans every line and drops those that are blank, noise or time stamps.
pub fn clean_ocr_lines(lines: &Vec<OcrLine>) -> (out: Vec<OcrLine>)
    ensures
        engine::line_views(out@) == cleaned_lines(engine::line_views(lines@)),
{
    let mut out: Vec<OcrLine> = Vec::new();
    let mut i: usize = 0;
    assert(engine::line_views(out@) =~= Seq::<engine::OcrLineView>::empty());
    while i < lines.len()
        invariant
            i <= lines@.len(),
            engine::line_views(out@) == cleaned_lines(engine::line_views(lines@).take(i as int)),
        decreases lines@.len() - i,
    {
        let ghost all = engine::line_views(lines@);
        assert(all.take(i + 1).drop_last() =~= all.take(i as int));
        if let Some(text) = clean_ocr_text(lines[i].text.as_str()) {
            let ghost before = engine::line_views(out@);
            let line = OcrLine { text, confidence: lines[i].confidence };
            out.push(line);
            assert(engine::line_views(out@) =~= before.push(line@));
        }
        i += 1;
    }
    assert(engine::line_views(lines@).take(lines@.len() as int) =~= engine::line_views(lines@));
    out
}

/// The texts of lines.
pub open spec fn line_texts(lines: Seq<engine::OcrLineView>) -> Seq<Seq<char>> {
    Seq::new(lines.len(), |i: int| lines[i].text)
}

/// The text of a screen: the kept lines, one below the other; `None` where no line is
/// kept.
pub open spec fn screen_text(lines: Seq<engine::OcrLineView>) -> Option<Seq<char>> {
    let kept = cleaned_lines(lines);
    if kept.len() == 0 {
        None
    } else {
        Some(strings::joined(line_texts(kept), "\n"@))
    }
}

/// Turns the result of a recognition into the text of the screen.
pub fn screen_text_of(result: &OcrResult) -> (out: Option<String>)
    ensures
        strings::string_opt(out) == screen_text(result@),
{
    let kept = clean_ocr_lines(&result.lines);
    assert(engine::line_views(kept@).len() == kept@.len());
    if kept.len() == 0 {
        return None;
    }
    let mut parts: Vec<String> = Vec::new();
    let mut i: usize = 0;
    while i < kept.len()
        invariant
            i <= kept@.len(),
            parts@.len() == i,
            forall|k: int| 0 <= k < i ==> (#[trigger] parts@[k])@ == kept@[k].text@,
        decreases kept@.len() - i,
    {
        parts.push(kept[i].text.clone());
        i += 1;
    }
    assert(strings::texts(parts@) =~= line_texts(cleaned_lines(result@)));
    Some(join(&parts, "\n"))
}

// ---------------------------------------------------------------------------
// Laws
// ---------------------------------------------------------------------------

proof fn lemma_closed_up_ends(s: Seq<char>, n: int)
    requires
        0 < n <= s.len(),
    ensures
        0 < closed_up_to(s, n).len() <= n,
        closed_up_to(s, n)[0] == s[0],
        n == s.len() ==> closed_up_to(s, n).last() == s.last(),
    decreases n,
{
    if n > 1 {
        lemma_closed_up_ends(s, n - 1);
    } else {
        assert(closed_up_to(s, 0) =~= Seq::<char>::empty());
    }
}

/// A kept line is never blank and has no white space at its ends.
pub proof fn law_kept_line_is_trimmed(s: Seq<char>)
    requires
        cleaned_text(s) is Some,
    ensures
        cleaned_text(s)->0.len() > 0,
        strings::trimmed(cleaned_text(s)->0) == cleaned_text(s)->0,
{
    let t = strings::trimmed(s);
    strings::lemma_trimmed_ends(s);
    lemma_closed_up_ends(t, t.len() as int);
    strings::lemma_trimmed_fixed(closed_up(t));
}

proof fn lemma_cleaned_lines_not_blank(lines: Seq<engine::OcrLineView>, i: int)
    requires
        0 <= i < cleaned_lines(lines).len(),
    ensures
        cleaned_lines(lines)[i].text.len() > 0,
    decreases lines.len(),
{
    if lines.len() > 0 {
        let rest = cleaned_lines(lines.drop_last());
        if i < rest.len() {
            lemma_cleaned_lines_not_blank(lines.drop_last(), i);
        } else {
            law_kept_line_is_trimmed(lines.last().text);
        }
    }
}

/// A screen either has text or is reported as having none: its text is never empty.
pub proof fn law_screen_text_is_not_empty(lines: Seq<engine::OcrLineView>)
    requires
        screen_text(lines) is Some,
    ensures
        screen_text(lines)->0.len() > 0,
{
    let kept = cleaned_lines(lines);
    let parts = line_texts(kept);
    lemma_cleaned_lines_not_blank(lines, 0);
    strings::lemma_joined_holds_part(parts, "\n"@, 0);
    let i = choose|i: int| strings::stands_at(strings::joined(parts, "\n"@), parts[0], i);
    assert(strings::stands_at(strings::joined(parts, "\n"@), parts[0], i));
}

/// Each line is judged by itself: cleaning a list is cleaning its parts.
pub proof fn law_lines_are_cleaned_one_by_one(
    a: Seq<engine::OcrLineView>,
    b: Seq<engine::OcrLineView>,
)
    ensures
        cleaned_lines(a + b) == cleaned_lines(a) + cleaned_lines(b),
    decreases b.len(),
{
    if b.len() == 0 {
        assert(a + b =~= a);
        assert(cleaned_lines(a) + cleaned_lines(b) =~= cleaned_lines(a));
    } else {
        law_lines_are_cleaned_one_by_one(a, b.drop_last());
        assert((a + b).drop_last() =~= a + b.drop_last());
        assert((a + b).last() == b.last());
        assert(cleaned_lines(a + b) =~= cleaned_lines(a) + cleaned_lines(b));
    }
}

/// After stray spaces are removed, none is left.
pub proof fn law_no_stray_space_is_left(s: Seq<char>, i: int)
    ensures
        !is_stray_space(closed_up(s), i),
{
    if is_stray_space(closed_up(s), i) {
        lemma_kept_space(s, s.len() as int, i);
    }
}

/// A space that is kept keeps both its neighbours.
proof fn lemma_kept_space(s: Seq<char>, n: int, i: int)
    requires
        0 <= n <= s.len(),
        0 < i < closed_up_to(s, n).len() - 1,
        closed_up_to(s, n)[i] == ' ',
    ensures
        !(is_ideograph(closed_up_to(s, n)[i - 1]) && is_ideograph(closed_up_to(s, n)[i + 1])),
    decreases n,
{
    let t = closed_up_to(s, n);
    let r = closed_up_to(s, n - 1);
    if is_stray_space(s, n - 1) {
        lemma_kept_space(s, n - 1, i);
    } else if i < r.len() - 1 {
        lemma_kept_space(s, n - 1, i);
        assert(t[i - 1] == r[i - 1] && t[i] == r[i] && t[i + 1] == r[i + 1]);
    } else {
        // The neighbour on the right is the character just added.
        assert(t[i + 1] == s[n - 1]);
        lemma_closed_up_ends(s, n - 1);
        lemma_last_kept(s, n - 1);
        assert(s[n - 2] == ' ');
        lemma_last_kept(s, n - 2);
        assert(t[i - 1] == s[n - 3]);
    }
}

/// What `closed_up_to` ends with.
proof fn lemma_last_kept(s: Seq<char>, n: int)
    requires
        0 < n <= s.len(),
    ensures
        closed_up_to(s, n).len() > 0,
        !is_stray_space(s, n - 1) ==> closed_up_to(s, n).last() == s[n - 1],
        is_stray_space(s, n - 1) ==> n >= 2 && closed_up_to(s, n) == closed_up_to(s, n - 1)
            && closed_up_to(s, n).last() == s[n - 2],
{
    lemma_closed_up_ends(s, n);
    if is_stray_space(s, n - 1) {
        assert(!is_stray_space(s, n - 2));
    }
}

/// Of a trimmed line that is no time stamp, half decides: it is kept where at least half
/// of its characters are significant, and dropped where fewer are. A blank line and a
/// time stamp are dropped.
pub proof fn law_half_decides(s: Seq<char>)
    ensures
        strings::trimmed(s).len() == 0 ==> cleaned_text(s) is None,
        is_stamp(strings::trimmed(s)) ==> cleaned_text(s) is None,
        2 * significant_count(strings::trimmed(s)) < strings::trimmed(s).len() ==> cleaned_text(
            s,
        ) is None,
        strings::trimmed(s).len() > 0 && 2 * significant_count(strings::trimmed(s))
            >= strings::trimmed(s).len() && !is_stamp(strings::trimmed(s)) ==> cleaned_text(s)
            == Some(closed_up(strings::trimmed(s))),
{
}

/// Counts of any size: there is noise exactly where there are no characters, or where
/// twice the significant ones are fewer than all.
pub proof fn law_noise_is_less_than_half(significant: nat, total: nat)
    ensures
        too_few_significant(significant, total) <==> (total == 0 || significant + significant
            < total),
{
}

/// Significant characters are counted one by one: letters and digits, ideographs,
/// hiragana, katakana and Hangul syllables count, and nothing else does.
pub proof fn law_significant_characters_are_counted(a: Seq<char>, b: Seq<char>, c: char)
    ensures
        significant_count(a + b) == significant_count(a) + significant_count(b),
        significant_count(seq![c]) == (if alphanumeric(c) || ('\u{4E00}' <= c && c <= '\u{9FFF}')
            || ('\u{3040}' <= c && c <= '\u{30FF}') || ('\u{AC00}' <= c && c <= '\u{D7AF}') {
            1nat
        } else {
            0nat
        }),
    decreases b.len(),
{
    assert(seq![c].drop_last() =~= Seq::<char>::empty());
    assert(significant_count(Seq::<char>::empty()) == 0);
    if b.len() > 0 {
        law_significant_characters_are_counted(a, b.drop_last(), c);
        assert((a + b).drop_last() =~= a + b.drop_last());
        assert((a + b).last() == b.last());
    } else {
        assert(a + b =~= a);
    }
}

/// Digits are counted one by one.
pub proof fn law_digits_are_counted(a: Seq<char>, b: Seq<char>, c: char)
    ensures
        digit_count(a + b) == digit_count(a) + digit_count(b),
        digit_count(seq![c]) == (if '0' <= c && c <= '9' {
            1nat
        } else {
            0nat
        }),
    decreases b.len(),
{
    assert(seq![c].drop_last() =~= Seq::<char>::empty());
    assert(digit_count(Seq::<char>::empty()) == 0);
    if b.len() > 0 {
        law_digits_are_counted(a, b.drop_last(), c);
        assert((a + b).drop_last() =~= a + b.drop_last());
        assert((a + b).last() == b.last());
    } else {
        assert(a + b =~= a);
    }
}

/// What a time stamp is: three digits among colons, hyphens and white space; four digits
/// among the signs of a date, or three where one of the signs is a slash; or a digit
/// behind one of four words. A line that does not begin with one of the words and that
/// holds a character foreign to times and one foreign to dates is none.
pub proof fn law_stamps_are_times_and_dates(s: Seq<char>)
    ensures
        (forall|i: int|
            0 <= i < s.len() ==> ('0' <= #[trigger] s[i] && s[i] <= '9') || s[i] == ':' || s[i]
                == '-' || strings::is_white_space(s[i])) && digit_count(s) >= 3 ==> is_stamp(s),
        (forall|i: int|
            0 <= i < s.len() ==> ('0' <= #[trigger] s[i] && s[i] <= '9') || s[i] == '-' || s[i]
                == '/' || s[i] == '.' || s[i] == '年' || s[i] == '月' || s[i] == '日')
            && digit_count(s) >= 3 ==> (is_stamp(s) <==> digit_count(s) >= 4 || s.contains('/')
            || (forall|i: int| 0 <= i < s.len() ==> ('0' <= #[trigger] s[i] && s[i] <= '9') || s[i]
            == '-')),
        (strings::begins(s, "昨天"@) || strings::begins(s, "今天"@) || strings::begins(s, "上午"@)
            || strings::begins(s, "下午"@)) && digit_count(s) > 0 ==> is_stamp(s),
        digit_count(s) == 0 ==> !is_stamp(s),
        !strings::begins(s, "昨天"@) && !strings::begins(s, "今天"@) && !strings::begins(
            s,
            "上午"@,
        ) && !strings::begins(s, "下午"@) && digit_count(s) < 3 ==> !is_stamp(s),
        !strings::begins(s, "昨天"@) && !strings::begins(s, "今天"@) && !strings::begins(
            s,
            "上午"@,
        ) && !strings::begins(s, "下午"@) && (exists|i: int|
            0 <= i < s.len() && !('0' <= #[trigger] s[i] && s[i] <= '9') && s[i] != ':' && s[i]
                != '-' && !strings::is_white_space(s[i])) && (exists|i: int|
            0 <= i < s.len() && !('0' <= #[trigger] s[i] && s[i] <= '9') && s[i] != '-' && s[i]
                != '/' && s[i] != '.' && s[i] != '年' && s[i] != '月' && s[i] != '日') ==> !is_stamp(s),
{
    reveal_strlit("昨天");
    reveal_strlit("今天");
    reveal_strlit("上午");
    reveal_strlit("下午");
    if strings::begins(s, "昨天"@) || strings::begins(s, "今天"@) || strings::begins(s, "上午"@)
        || strings::begins(s, "下午"@) {
        let w = s.subrange(0, 2);
        assert(w[0] == s[0] && w[1] == s[1]);
    }
}

proof fn lemma_closed_up_unchanged(s: Seq<char>, n: int)
    requires
        0 <= n <= s.len(),
        forall|i: int| 0 <= i < s.len() ==> !is_stray_space(s, i),
    ensures
        closed_up_to(s, n) == s.take(n),
    decreases n,
{
    if n > 0 {
        lemma_closed_up_unchanged(s, n - 1);
        assert(!is_stray_space(s, n - 1));
        assert(s.take(n) =~= s.take(n - 1).push(s[n - 1]));
    } else {
        assert(s.take(0) =~= Seq::<char>::empty());
    }
}

proof fn lemma_closed_up_front(s: Seq<char>, t: Seq<char>, n: int)
    requires
        0 <= n <= s.len(),
        n <= t.len(),
        forall|j: int| 0 <= j < n ==> s[j] == t[j],
        n > 0 ==> s[n - 1] != ' ',
    ensures
        closed_up_to(s, n) == closed_up_to(t, n),
{
    if n > 0 {
        lemma_closed_up_inner(s, t, n, n - 1);
        assert(!is_stray_space(s, n - 1) && !is_stray_space(t, n - 1));
        assert(s[n - 1] == t[n - 1]);
    }
}

proof fn lemma_closed_up_inner(s: Seq<char>, t: Seq<char>, n: int, k: int)
    requires
        0 <= k < n <= s.len(),
        n <= t.len(),
        forall|j: int| 0 <= j < n ==> s[j] == t[j],
    ensures
        closed_up_to(s, k) == closed_up_to(t, k),
    decreases k,
{
    if k > 0 {
        lemma_closed_up_inner(s, t, n, k - 1);
        assert(is_stray_space(s, k - 1) == is_stray_space(t, k - 1));
    }
}

proof fn lemma_closed_up_back(front: Seq<char>, back: Seq<char>, k: int)
    requires
        back.len() > 0,
        back[0] != ' ',
        0 <= k <= back.len(),
    ensures
        closed_up_to(front + back, front.len() + k) == closed_up_to(
            front + back,
            front.len() as int,
        ) + closed_up_to(back, k),
    decreases k,
{
    let s = front + back;
    let n = front.len() as int;
    if k == 0 {
        assert(closed_up_to(s, n) + closed_up_to(back, 0) =~= closed_up_to(s, n));
    } else {
        lemma_closed_up_back(front, back, k - 1);
        assert(s[n + k - 1] == back[k - 1]);
        if k > 1 {
            assert(s[n + k - 2] == back[k - 2]);
        }
        if k < back.len() {
            assert(s[n + k] == back[k]);
        }
        assert(is_stray_space(s, n + k - 1) == is_stray_space(back, k - 1));
        assert(closed_up_to(s, n) + closed_up_to(back, k - 1).push(back[k - 1]) =~= (closed_up_to(
            s,
            n,
        ) + closed_up_to(back, k - 1)).push(back[k - 1]));
    }
}

/// Closing up takes out the single space between two ideographs wherever it stands, and
/// leaves a text without one as it is; so no other character is lost and none is moved.
pub proof fn law_only_stray_spaces_are_taken_out(
    a: Seq<char>,
    x: char,
    y: char,
    b: Seq<char>,
    s: Seq<char>,
)
    requires
        '\u{4E00}' <= x && x <= '\u{9FFF}',
        '\u{4E00}' <= y && y <= '\u{9FFF}',
    ensures
        closed_up(a.push(x) + seq![' '] + (seq![y] + b)) == closed_up(a.push(x)) + closed_up(
            seq![y] + b,
        ),
        (forall|i: int|
            0 < i < s.len() - 1 && #[trigger] s[i] == ' ' ==> !('\u{4E00}' <= s[i - 1] && s[i - 1]
                <= '\u{9FFF}' && '\u{4E00}' <= s[i + 1] && s[i + 1] <= '\u{9FFF}')) ==> closed_up(s)
            == s,
{
    let left = a.push(x);
    let right = seq![y] + b;
    let front = left + seq![' '];
    let t = front + right;
    assert(left + seq![' '] + right =~= t);
    lemma_closed_up_back(front, right, right.len() as int);
    let n = left.len() as int;
    assert(t[n] == ' ' && t[n - 1] == x && t[n + 1] == y);
    assert(is_stray_space(t, n));
    lemma_closed_up_front(t, left, n);
    if forall|i: int|
        0 < i < s.len() - 1 && #[trigger] s[i] == ' ' ==> !('\u{4E00}' <= s[i - 1] && s[i - 1]
            <= '\u{9FFF}' && '\u{4E00}' <= s[i + 1] && s[i + 1] <= '\u{9FFF}') {
        lemma_closed_up_unchanged(s, s.len() as int);
        assert(s.take(s.len() as int) =~= s);
    }
}

/// The text of a screen is the cleaned lines in reading order, one below the other: a
/// further line below goes to the end, behind a line break, and a line that is dropped
/// changes nothing.
pub proof fn law_screen_text_is_in_reading_order(
    lines: Seq<engine::OcrLineView>,
    line: engine::OcrLineView,
)
    ensures
        screen_text(Seq::<engine::OcrLineView>::empty()) is None,
        cleaned_text(line.text) is None ==> screen_text(lines.push(line)) == screen_text(lines)
            && cleaned_lines(lines.push(line)) == cleaned_lines(lines),
        cleaned_text(line.text) matches Some(t) ==> {
            &&& cleaned_lines(lines.push(line)) == cleaned_lines(lines).push(
                engine::OcrLineView { text: t, confidence: line.confidence },
            )
            &&& screen_text(lines.push(line)) == Some(
                match screen_text(lines) {
                    Some(above) => above + "\n"@ + t,
                    None => t,
                },
            )
        },
{
    let more = lines.push(line);
    assert(more.drop_last() =~= lines);
    if let Some(t) = cleaned_text(line.text) {
        let kept = cleaned_lines(lines);
        let l = engine::OcrLineView { text: t, confidence: line.confidence };
        assert(line_texts(kept.push(l)).drop_last() =~= line_texts(kept));
        assert(line_texts(kept.push(l)).last() == t);
        assert(line_texts(kept.push(l))[0] == kept.push(l)[0].text);
    }
}

} // verus!
