//! The XML envelope round text that the user did not write.
//!
//! Text read off the screen may hold anything, also something that looks like the
//! tags of the envelope it is put into. It is neutralized first, so that the
//! envelope's own two tags stay the only ones.

use vstd::prelude::*;

use crate::strings;
use crate::strings::{chars_of, string_between, to_ascii_lower, white_space};

verus! {

/// The most characters of screen text that a prompt carries.
pub const SCREEN_CONTEXT_MAX_CHARS: usize = 8_000;

/// The name of the tag round the screen text.
pub const SCREEN_CONTEXT_TAG: &'static str = "screen_context";

// ---------------------------------------------------------------------------
// Tags
// ---------------------------------------------------------------------------

/// `s` begins with `name`, ASCII letters compared without regard to case.
pub open spec fn begins_ignoring_case(s: Seq<char>, name: Seq<char>) -> bool {
    &&& name.len() <= s.len()
    &&& forall|i: int| 0 <= i < name.len() ==> strings::ascii_lower(#[trigger] s[i]) == strings::ascii_lower(name[i])
}

/// `s` without leading white space, one slash, and the white space behind it.
pub open spec fn past_slash(s: Seq<char>) -> Seq<char> {
    let a = strings::trimmed_start(s);
    if a.len() > 0 && a[0] == '/' {
        strings::trimmed_start(a.skip(1))
    } else {
        a
    }
}

/// `s` begins with an opening or a closing tag called `tag`: a `<`, an optional
/// slash, and the name in either case, with white space allowed between them.
pub open spec fn opens_tag(s: Seq<char>, tag: Seq<char>) -> bool {
    &&& s.len() > 0
    &&& s[0] == '<'
    &&& begins_ignoring_case(past_slash(s.skip(1)), tag)
}

/// What a neutralized `<` becomes.
pub open spec fn escaped_lt() -> Seq<char> {
    seq!['&', 'l', 't', ';']
}

/// `s` with the `<` of every tag called `tag` written as `&lt;`; nothing else changes.
pub open spec fn neutralized(s: Seq<char>, tag: Seq<char>) -> Seq<char>
    decreases s.len(),
{
    if s.len() == 0 {
        s
    } else if opens_tag(s, tag) {
        escaped_lt() + neutralized(s.skip(1), tag)
    } else {
        seq![s[0]] + neutralized(s.skip(1), tag)
    }
}

/// The position of the first character from `from` on that is not white space.
fn skip_white_space(chars: &Vec<char>, from: usize) -> (i: usize)
    requires
        from <= chars@.len(),
    ensures
        from <= i <= chars@.len(),
        strings::trimmed_start(chars@.skip(from as int)) == chars@.skip(i as int),
{
    let mut i: usize = from;
    while i < chars.len() && white_space(chars[i])
        invariant
            from <= i <= chars@.len(),
            strings::trimmed_start(chars@.skip(from as int)) == strings::trimmed_start(chars@.skip(i as int)),
        decreases chars@.len() - i,
    {
        assert(chars@.skip(i as int).skip(1) =~= chars@.skip(i + 1));
        i += 1;
    }
    i
}

/// Whether the characters from `from` on begin with `name`, ignoring ASCII case.
fn name_at(chars: &Vec<char>, name: &Vec<char>, from: usize) -> (r: bool)
    requires
        from <= chars@.len(),
    ensures
        r == begins_ignoring_case(chars@.skip(from as int), name@),
{
    let n: usize = chars.len();
    if n - from < name.len() {
        return false;
    }
    let ghost rest = chars@.skip(from as int);
    let mut k: usize = 0;
    while k < name.len()
        invariant
            k <= name@.len(),
            n == chars@.len(),
            from + name@.len() <= n,
            rest == chars@.skip(from as int),
            forall|i: int| 0 <= i < k ==> strings::ascii_lower(#[trigger] rest[i]) == strings::ascii_lower(name@[i]),
        decreases name@.len() - k,
    {
        assert(rest[k as int] == chars@[from + k]);
        if to_ascii_lower(chars[from + k]) != to_ascii_lower(name[k]) {
            return false;
        }
        k += 1;
    }
    true
}

/// Whether a tag called `tag` begins at position `at`.
fn tag_at(chars: &Vec<char>, tag: &Vec<char>, at: usize) -> (r: bool)
    requires
        at < chars@.len(),
    ensures
        r == opens_tag(chars@.skip(at as int), tag@),
{
    let n: usize = chars.len();
    if chars[at] != '<' {
        return false;
    }
    assert(chars@.skip(at as int).skip(1) =~= chars@.skip(at + 1));
    let i: usize = skip_white_space(chars, at + 1);
    if i < n && chars[i] == '/' {
        assert(chars@.skip(i as int).skip(1) =~= chars@.skip(i + 1));
        let j: usize = skip_white_space(chars, i + 1);
        name_at(chars, tag, j)
    } else {
        name_at(chars, tag, i)
    }
}

/// Neutralizes every opening and closing tag called `tag`, in either case and with
/// white space inside, so that `text` can stand in an envelope of that name.
pub fn sanitize_for_xml_envelope(text: &str, tag: &str) -> (out: String)
    ensures
        out@ == neutralized(text@, tag@),
{
    let chars = chars_of(text);
    let name = chars_of(tag);
    let mut out = String::new();
    let mut i: usize = 0;
    assert(chars@.skip(0) =~= chars@);
    assert(out@ + neutralized(chars@, tag@) =~= neutralized(chars@, tag@));
    while i < chars.len()
        invariant
            i <= chars@.len(),
            name@ == tag@,
            out@ + neutralized(chars@.skip(i as int), tag@) == neutralized(chars@, tag@),
        decreases chars@.len() - i,
    {
        let ghost before = out@;
        let ghost rest = chars@.skip(i as int);
        assert(rest.skip(1) =~= chars@.skip(i + 1));
        if tag_at(&chars, &name, i) {
            out.push('&');
            out.push('l');
            out.push('t');
            out.push(';');
            assert(out@ =~= before + escaped_lt());
            assert(out@ + neutralized(rest.skip(1), tag@) =~= before + (escaped_lt() + neutralized(
                rest.skip(1),
                tag@,
            )));
        } else {
            out.push(chars[i]);
            assert(out@ + neutralized(rest.skip(1), tag@) =~= before + (seq![rest[0]] + neutralized(
                rest.skip(1),
                tag@,
            )));
        }
        i += 1;
    }
    assert(chars@.skip(i as int) =~= Seq::<char>::empty());
    assert(out@ + Seq::<char>::empty() =~= out@);
    out
}

// ---------------------------------------------------------------------------
// The envelope
// ---------------------------------------------------------------------------

/// What stands between the tags: the text itself, or its first
/// `SCREEN_CONTEXT_MAX_CHARS` characters and a mark where it is longer.
pub open spec fn envelope_body(text: Seq<char>) -> Seq<char> {
    if text.len() <= SCREEN_CONTEXT_MAX_CHARS {
        text
    } else {
        text.take(SCREEN_CONTEXT_MAX_CHARS as int) + "...[truncated]"@
    }
}

/// `text`, cut to size, between the two tags of the envelope.
pub open spec fn envelope(text: Seq<char>) -> Seq<char> {
    "<screen_context>\n"@ + envelope_body(text) + "\n</screen_context>"@
}

/// Cuts `text` to `SCREEN_CONTEXT_MAX_CHARS` characters, marks the cut, and puts it
/// between the tags of the envelope.
pub fn truncate_for_screen_context(text: &str) -> (out: String)
    ensures
        out@ == envelope(text@),
{
    let chars = chars_of(text);
    let mut out = "<screen_context>\n".to_string();
    if chars.len() <= SCREEN_CONTEXT_MAX_CHARS {
        out.append(text);
    } else {
        let head = string_between(&chars, 0, SCREEN_CONTEXT_MAX_CHARS);
        out.append(head.as_str());
        out.append("...[truncated]");
        assert(out@ =~= "<screen_context>\n"@ + envelope_body(text@));
    }
    out.append("\n</screen_context>");
    out
}

// ---------------------------------------------------------------------------
// Laws
// ---------------------------------------------------------------------------

/// No tag called `tag` begins anywhere in `s`.
pub open spec fn tag_free(s: Seq<char>, tag: Seq<char>) -> bool {
    forall|i: int| 0 <= i < s.len() ==> !#[trigger] opens_tag(s.skip(i), tag)
}

/// A name that can be told from what neutralizing inserts.
pub open spec fn plain_name(tag: Seq<char>) -> bool {
    &&& tag.len() > 0
    &&& forall|i: int| 0 <= i < tag.len() ==> tag[i] != '&'
}

proof fn lemma_neutralized_step(s: Seq<char>, tag: Seq<char>)
    requires
        s.len() > 0,
        s[0] != '<',
    ensures
        neutralized(s, tag) == seq![s[0]] + neutralized(s.skip(1), tag),
        neutralized(s, tag).skip(1) =~= neutralized(s.skip(1), tag),
{
}

/// The first character of a neutralized text is the old one, or the `&` that stands
/// for a `<`.
proof fn lemma_neutralized_head(s: Seq<char>, tag: Seq<char>)
    ensures
        neutralized(s, tag).len() == 0 <==> s.len() == 0,
        s.len() > 0 ==> (neutralized(s, tag)[0] == s[0] || (s[0] == '<' && neutralized(
            s,
            tag,
        )[0] == '&')),
{
}

proof fn lemma_neutralized_trim(s: Seq<char>, tag: Seq<char>)
    ensures
        strings::trimmed_start(neutralized(s, tag)) == neutralized(strings::trimmed_start(s), tag),
    decreases s.len(),
{
    lemma_neutralized_head(s, tag);
    if s.len() > 0 && strings::is_white_space(s[0]) {
        lemma_neutralized_step(s, tag);
        lemma_neutralized_trim(s.skip(1), tag);
    }
}

proof fn lemma_neutralized_name(s: Seq<char>, tag: Seq<char>, name: Seq<char>)
    requires
        forall|i: int| 0 <= i < name.len() ==> name[i] != '&',
        begins_ignoring_case(neutralized(s, tag), name),
    ensures
        begins_ignoring_case(s, name),
    decreases name.len(),
{
    if name.len() > 0 {
        let n = neutralized(s, tag);
        lemma_neutralized_head(s, tag);
        assert(strings::ascii_lower(n[0]) == strings::ascii_lower(name[0]));
        assert(n[0] == s[0]);
        assert(n.skip(1) =~= neutralized(s.skip(1), tag));
        assert forall|i: int| 0 <= i < name.skip(1).len() implies strings::ascii_lower(
            #[trigger] n.skip(1)[i],
        ) == strings::ascii_lower(name.skip(1)[i]) by {
            assert(strings::ascii_lower(n[i + 1]) == strings::ascii_lower(name[i + 1]));
        }
        lemma_neutralized_name(s.skip(1), tag, name.skip(1));
        assert forall|i: int| 0 <= i < name.len() implies strings::ascii_lower(#[trigger] s[i])
            == strings::ascii_lower(name[i]) by {
            if i > 0 {
                assert(strings::ascii_lower(s.skip(1)[i - 1]) == strings::ascii_lower(name.skip(1)[i - 1]));
            }
        }
    }
}

proof fn lemma_neutralized_past_slash(s: Seq<char>, tag: Seq<char>)
    ensures
        past_slash(neutralized(s, tag)) == neutralized(past_slash(s), tag),
{
    lemma_neutralized_trim(s, tag);
    let a = strings::trimmed_start(s);
    lemma_neutralized_head(a, tag);
    if a.len() > 0 && a[0] == '/' {
        lemma_neutralized_step(a, tag);
        lemma_neutralized_trim(a.skip(1), tag);
    }
}

/// Neutralized text holds no tag of that name any more, in whatever case and with
/// whatever white space it was written.
pub proof fn law_neutralized_is_tag_free(s: Seq<char>, tag: Seq<char>)
    requires
        plain_name(tag),
    ensures
        tag_free(neutralized(s, tag), tag),
    decreases s.len(),
{
    let n = neutralized(s, tag);
    if s.len() > 0 {
        let rest = neutralized(s.skip(1), tag);
        law_neutralized_is_tag_free(s.skip(1), tag);
        assert forall|i: int| 0 <= i < n.len() implies !#[trigger] opens_tag(n.skip(i), tag) by {
            if opens_tag(s, tag) {
                if i >= 4 {
                    assert(n.skip(i) =~= rest.skip(i - 4));
                } else {
                    assert(n.skip(i)[0] == n[i]);
                }
            } else if i >= 1 {
                assert(n.skip(i) =~= rest.skip(i - 1));
            } else {
                assert(n.skip(0) =~= n);
                assert(n.skip(1) =~= rest);
                lemma_neutralized_past_slash(s.skip(1), tag);
                if opens_tag(n, tag) {
                    lemma_neutralized_name(past_slash(s.skip(1)), tag, tag);
                }
            }
        }
    }
}

/// Text without a tag of that name passes unchanged.
pub proof fn law_neutralizing_keeps_other_text(s: Seq<char>, tag: Seq<char>)
    requires
        tag_free(s, tag),
    ensures
        neutralized(s, tag) == s,
    decreases s.len(),
{
    if s.len() > 0 {
        assert(s.skip(0) =~= s);
        assert(!opens_tag(s.skip(0), tag));
        assert forall|i: int| 0 <= i < s.skip(1).len() implies !#[trigger] opens_tag(
            s.skip(1).skip(i),
            tag,
        ) by {
            assert(s.skip(1).skip(i) =~= s.skip(i + 1));
        }
        law_neutralizing_keeps_other_text(s.skip(1), tag);
        assert(s =~= seq![s[0]] + s.skip(1));
    }
}

/// `v` cannot continue a tag: it starts with a character that is not white space, no
/// slash, and not in the name.
spec fn stops_tag(v: Seq<char>, tag: Seq<char>) -> bool {
    &&& v.len() > 0
    &&& !strings::is_white_space(v[0])
    &&& v[0] != '/'
    &&& forall|i: int|
        0 <= i < tag.len() ==> strings::ascii_lower(#[trigger] tag[i]) != strings::ascii_lower(v[0])
}

/// `v` stops a tag, or does so behind one line break that is not in the name.
spec fn stops_tag_soon(v: Seq<char>, tag: Seq<char>) -> bool {
    ||| stops_tag(v, tag)
    ||| {
        &&& v.len() > 0
        &&& v[0] == '\n'
        &&& stops_tag(v.skip(1), tag)
        &&& forall|i: int| 0 <= i < tag.len() ==> #[trigger] tag[i] != '\n'
    }
}

proof fn lemma_trim_concat(u: Seq<char>, v: Seq<char>)
    ensures
        strings::trimmed_start(u).len() > 0 ==> strings::trimmed_start(u + v)
            == strings::trimmed_start(u) + v,
        strings::trimmed_start(u).len() == 0 ==> strings::trimmed_start(u + v)
            == strings::trimmed_start(v),
    decreases u.len(),
{
    if u.len() == 0 {
        assert(u + v =~= v);
    } else if strings::is_white_space(u[0]) {
        assert((u + v).skip(1) =~= u.skip(1) + v);
        lemma_trim_concat(u.skip(1), v);
    }
}

/// What stands behind a stop takes no part in a tag.
proof fn lemma_name_stops(u: Seq<char>, v: Seq<char>, tag: Seq<char>)
    requires
        stops_tag_soon(v, tag),
        begins_ignoring_case(u + v, tag),
    ensures
        begins_ignoring_case(u, tag),
{
    if tag.len() > u.len() {
        let k = u.len() as int;
        assert(strings::ascii_lower((u + v)[k]) == strings::ascii_lower(tag[k]));
        assert((u + v)[k] == v[0]);
    } else {
        assert forall|i: int| 0 <= i < tag.len() implies strings::ascii_lower(#[trigger] u[i])
            == strings::ascii_lower(tag[i]) by {
            assert(u[i] == (u + v)[i]);
        }
    }
}

proof fn lemma_stop_is_no_name(v: Seq<char>, tag: Seq<char>)
    requires
        tag.len() > 0,
        stops_tag_soon(v, tag),
    ensures
        !begins_ignoring_case(strings::trimmed_start(v), tag),
        strings::trimmed_start(v).len() > 0,
        strings::trimmed_start(v)[0] != '/',
{
    let w = strings::trimmed_start(v);
    if stops_tag(v, tag) {
        assert(w == v);
    } else {
        assert(w == strings::trimmed_start(v.skip(1)));
    }
    if begins_ignoring_case(w, tag) {
        assert(strings::ascii_lower(w[0]) == strings::ascii_lower(tag[0]));
    }
}

proof fn lemma_past_slash_stops(u: Seq<char>, v: Seq<char>, tag: Seq<char>)
    requires
        tag.len() > 0,
        stops_tag_soon(v, tag),
        begins_ignoring_case(past_slash(u + v), tag),
    ensures
        begins_ignoring_case(past_slash(u), tag),
{
    lemma_trim_concat(u, v);
    lemma_stop_is_no_name(v, tag);
    let a = strings::trimmed_start(u);
    if a.len() > 0 {
        if a[0] == '/' {
            assert((a + v).skip(1) =~= a.skip(1) + v);
            lemma_trim_concat(a.skip(1), v);
            let b = strings::trimmed_start(a.skip(1));
            if b.len() > 0 {
                lemma_name_stops(b, v, tag);
            }
        } else {
            lemma_name_stops(a, v, tag);
        }
    }
}

proof fn lemma_past_slash_grows(u: Seq<char>, v: Seq<char>, tag: Seq<char>)
    requires
        tag.len() > 0,
        begins_ignoring_case(past_slash(u), tag),
    ensures
        begins_ignoring_case(past_slash(u + v), tag),
{
    lemma_trim_concat(u, v);
    let a = strings::trimmed_start(u);
    let p = past_slash(u);
    if a[0] == '/' {
        assert((a + v).skip(1) =~= a.skip(1) + v);
        lemma_trim_concat(a.skip(1), v);
    }
    assert(past_slash(u + v) == p + v);
    assert forall|i: int| 0 <= i < tag.len() implies strings::ascii_lower(#[trigger] (p + v)[i])
        == strings::ascii_lower(tag[i]) by {
        assert((p + v)[i] == p[i]);
    }
}

proof fn lemma_prefix_tag_free(s: Seq<char>, n: int, tag: Seq<char>)
    requires
        tag.len() > 0,
        tag_free(s, tag),
        0 <= n <= s.len(),
    ensures
        tag_free(s.take(n), tag),
{
    assert forall|i: int| 0 <= i < n implies !#[trigger] opens_tag(s.take(n).skip(i), tag) by {
        assert(!opens_tag(s.skip(i), tag));
        let u = s.take(n).skip(i).skip(1);
        assert(s.skip(i).skip(1) =~= u + s.skip(n));
        if opens_tag(s.take(n).skip(i), tag) {
            lemma_past_slash_grows(u, s.skip(n), tag);
        }
    }
}

/// Where no tag begins in `s` and `v` stops a tag, the tags of `s + v` are those of `v`.
proof fn lemma_tags_of_concat(s: Seq<char>, v: Seq<char>, tag: Seq<char>, i: int)
    requires
        tag.len() > 0,
        tag_free(s, tag),
        stops_tag_soon(v, tag),
        0 <= i < s.len(),
    ensures
        !opens_tag((s + v).skip(i), tag),
{
    assert(!opens_tag(s.skip(i), tag));
    let u = s.skip(i).skip(1);
    assert((s + v).skip(i).skip(1) =~= u + v);
    if opens_tag((s + v).skip(i), tag) {
        lemma_past_slash_stops(u, v, tag);
    }
}

/// The screen text cannot forge the boundaries of its envelope: whatever it holds,
/// the only tags of the envelope's name are the one at its start and the one at its
/// end.
pub proof fn law_envelope_has_two_tags(text: Seq<char>, i: int)
    requires
        0 <= i < envelope(neutralized(text, SCREEN_CONTEXT_TAG@)).len(),
    ensures
        opens_tag(
            envelope(neutralized(text, SCREEN_CONTEXT_TAG@)).skip(i),
            SCREEN_CONTEXT_TAG@,
        ) <==> (i == 0 || i == envelope(neutralized(text, SCREEN_CONTEXT_TAG@)).len() - 17),
{
    let tag = SCREEN_CONTEXT_TAG@;
    let clean = neutralized(text, tag);
    let body = envelope_body(clean);
    let head = "<screen_context>\n"@;
    let mark = "...[truncated]"@;
    let tail = "\n</screen_context>"@;
    let e = envelope(clean);
    reveal_strlit("screen_context");
    reveal_strlit("<screen_context>\n");
    reveal_strlit("...[truncated]");
    reveal_strlit("\n</screen_context>");
    law_neutralized_is_tag_free(text, tag);
    let n = head.len() as int;
    let m = n + body.len();
    if i < n {
        assert(e.skip(i)[0] == head[i]);
        if i == 0 {
            let rest = e.skip(0).skip(1);
            assert(rest[0] == head[1]);
            assert(strings::trimmed_start(rest) == rest);
            assert forall|k: int| 0 <= k < tag.len() implies strings::ascii_lower(
                #[trigger] rest[k],
            ) == strings::ascii_lower(tag[k]) by {
                assert(rest[k] == head[k + 1]);
            }
        }
    } else if i >= m {
        assert(e.skip(i)[0] == tail[i - m]);
        if i == m + 1 {
            let rest = e.skip(i).skip(1);
            assert(rest[0] == tail[2]);
            let name = rest.skip(1);
            assert(name[0] == tail[3]);
            assert(strings::trimmed_start(rest) == rest);
            assert(strings::trimmed_start(name) == name);
            assert forall|k: int| 0 <= k < tag.len() implies strings::ascii_lower(
                #[trigger] name[k],
            ) == strings::ascii_lower(tag[k]) by {
                assert(name[k] == tail[k + 3]);
            }
        }
    } else {
        let j = i - n;
        assert(tail.skip(1)[0] == '<');
        assert(stops_tag(tail.skip(1), tag));
        assert(stops_tag_soon(tail, tag));
        if clean.len() <= SCREEN_CONTEXT_MAX_CHARS {
            assert(e.skip(i) =~= (clean + tail).skip(j));
            lemma_tags_of_concat(clean, tail, tag, j);
        } else {
            let cut = clean.take(SCREEN_CONTEXT_MAX_CHARS as int);
            lemma_prefix_tag_free(clean, SCREEN_CONTEXT_MAX_CHARS as int, tag);
            let v = mark + tail;
            assert(v[0] == mark[0]);
            assert(stops_tag(v, tag));
            assert(e.skip(i) =~= (cut + v).skip(j));
            if j < cut.len() {
                lemma_tags_of_concat(cut, v, tag, j);
            } else {
                assert(e.skip(i)[0] == mark[j - cut.len()]);
            }
        }
    }
}

/// What a tag is: a `<`, white space or none, a slash or none, white space or none, and
/// the name in capital or small letters, whatever follows. Anything else that a `<`
/// begins is none, and nothing else begins one.
pub proof fn law_tags_are_recognized(
    first: Seq<char>,
    second: Seq<char>,
    name: Seq<char>,
    rest: Seq<char>,
    tag: Seq<char>,
    c: char,
)
    requires
        forall|i: int| 0 <= i < first.len() ==> strings::is_white_space(#[trigger] first[i]),
        forall|i: int| 0 <= i < second.len() ==> strings::is_white_space(#[trigger] second[i]),
        tag.len() > 0,
        !strings::is_white_space(tag[0]) && tag[0] != '/',
        name.len() == tag.len(),
    ensures
        (forall|i: int|
            0 <= i < name.len() ==> strings::ascii_lower(#[trigger] name[i])
                == strings::ascii_lower(tag[i])) ==> opens_tag(
            seq!['<'] + first + (name + rest),
            tag,
        ) && opens_tag(seq!['<'] + first + seq!['/'] + second + (name + rest), tag),
        (exists|i: int|
            0 <= i < name.len() && strings::ascii_lower(#[trigger] name[i])
                != strings::ascii_lower(tag[i])) && !strings::is_white_space(name[0]) ==> (name[0]
            != '/' ==> !opens_tag(seq!['<'] + first + (name + rest), tag)) && !opens_tag(
            seq!['<'] + first + seq!['/'] + second + (name + rest),
            tag,
        ),
        c != '<' ==> !opens_tag(seq![c] + rest, tag),
{
    let x = name + rest;
    if !strings::is_white_space(name[0]) {
        lemma_past_white_space(first, x);
        lemma_past_white_space(second, x);
        let y = seq!['/'] + second + x;
        lemma_past_white_space(first, y);
        assert((seq!['<'] + first + x).skip(1) =~= first + x);
        assert((seq!['<'] + first + seq!['/'] + second + x).skip(1) =~= first + y);
        assert(y.skip(1) =~= second + x);
        assert forall|i: int| 0 <= i < name.len() implies x[i] == name[i] by {}
        if exists|i: int|
            0 <= i < name.len() && strings::ascii_lower(#[trigger] name[i])
                != strings::ascii_lower(tag[i]) {
            let i = choose|i: int|
                0 <= i < name.len() && strings::ascii_lower(#[trigger] name[i])
                    != strings::ascii_lower(tag[i]);
            assert(x[i] == name[i]);
        }
    } else {
        assert(strings::ascii_lower(name[0]) == name[0]);
    }
}

proof fn lemma_past_white_space(white: Seq<char>, s: Seq<char>)
    requires
        forall|i: int| 0 <= i < white.len() ==> strings::is_white_space(#[trigger] white[i]),
        s.len() > 0,
        !strings::is_white_space(s[0]),
    ensures
        strings::trimmed_start(white + s) == s,
    decreases white.len(),
{
    if white.len() > 0 {
        assert((white + s).skip(1) =~= white.skip(1) + s);
        assert((white + s)[0] == white[0]);
        lemma_past_white_space(white.skip(1), s);
    } else {
        assert(white + s =~= s);
    }
}

/// Neutralizing goes character by character: a `<` that begins a tag becomes `&lt;`, and
/// every other character stays what it is.
pub proof fn law_neutralizing_escapes_tags_only(c: char, rest: Seq<char>, tag: Seq<char>)
    ensures
        neutralized(Seq::<char>::empty(), tag) == Seq::<char>::empty(),
        opens_tag(seq![c] + rest, tag) ==> neutralized(seq![c] + rest, tag) == "&lt;"@
            + neutralized(rest, tag),
        !opens_tag(seq![c] + rest, tag) ==> neutralized(seq![c] + rest, tag) == seq![c]
            + neutralized(rest, tag),
{
    reveal_strlit("&lt;");
    assert("&lt;"@ =~= escaped_lt());
    assert((seq![c] + rest).skip(1) =~= rest);
    assert((seq![c] + rest)[0] == c);
}

} // verus!
