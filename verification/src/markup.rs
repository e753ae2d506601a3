//! The small markup interpretation the renderer needs from a notification
//! body: recognizing an inline image reference, picking the CSS class that
//! simple `<u>` markup asks for, and stripping that markup from the text.

use vstd::prelude::*;

verus! {

/// The pattern occurs in `s` at position `i`.
pub open spec fn match_at(s: Seq<char>, pat: Seq<char>, i: int) -> bool {
    0 <= i && i + pat.len() <= s.len() && s.subrange(i, i + pat.len()) == pat
}

/// The first position at or after `from` where the pattern occurs.
pub open spec fn find_from(s: Seq<char>, pat: Seq<char>, from: int) -> Option<int>
    decreases s.len() - from,
    when 0 <= from <= s.len()
    via find_from_decreases
{
    if from + pat.len() > s.len() {
        None
    } else if match_at(s, pat, from) {
        Some(from)
    } else {
        find_from(s, pat, from + 1)
    }
}

#[via_fn]
proof fn find_from_decreases(s: Seq<char>, pat: Seq<char>, from: int) {
    if from + pat.len() <= s.len() && !match_at(s, pat, from) && pat.len() == 0 {
        assert(s.subrange(from, from + pat.len() as int) =~= pat);
    }
}

/// A found position is a real occurrence at or after the start.
pub proof fn lemma_find_from_valid(s: Seq<char>, pat: Seq<char>, from: int)
    requires
        0 <= from <= s.len(),
    ensures
        find_from(s, pat, from) matches Some(i) ==> from <= i && match_at(s, pat, i),
    decreases s.len() - from,
{
    if from + pat.len() > s.len() {
    } else if match_at(s, pat, from) {
    } else {
        assert(pat.len() >= 1) by {
            if pat.len() == 0 {
                assert(s.subrange(from, from + pat.len() as int) =~= pat);
            }
        }
        lemma_find_from_valid(s, pat, from + 1);
    }
}

/// `s` with every occurrence of `pat` struck out, scanning left to right;
/// text joined across a removal is not rescanned.
pub open spec fn strip_pattern(s: Seq<char>, pat: Seq<char>) -> Seq<char>
    decreases s.len(),
    when pat.len() >= 1
    via strip_pattern_decreases
{
    match find_from(s, pat, 0) {
        None => s,
        Some(i) => s.subrange(0, i) + strip_pattern(
            s.subrange(i + pat.len(), s.len() as int),
            pat,
        ),
    }
}

#[via_fn]
proof fn strip_pattern_decreases(s: Seq<char>, pat: Seq<char>) {
    lemma_find_from_valid(s, pat, 0);
}

/// The marker with which a body smuggles in an image file reference.
pub open spec fn image_marker() -> Seq<char> {
    "<br><img src=\"file:///"@
}

/// The text that replaces an inline image reference.
pub open spec fn image_replacement_text() -> Seq<char> {
    "sent an image."@
}

/// Opening underline tag.
pub open spec fn u_open_tag() -> Seq<char> {
    seq!['<', 'u', '>']
}

/// Closing underline tag.
pub open spec fn u_close_tag() -> Seq<char> {
    seq!['<', '/', 'u', '>']
}

/// The CSS class a body asks for: `underline` exactly when the character
/// after the first `<` is a `u`, nothing otherwise.
pub open spec fn underline_class(s: Seq<char>) -> Seq<char> {
    match find_from(s, seq!['<'], 0) {
        Some(i) => if i + 1 < s.len() && s[i + 1] == 'u' {
            "underline"@
        } else {
            Seq::empty()
        },
        None => Seq::empty(),
    }
}

/// What `class_from_html` returns for a body: if the body carries the image
/// marker, the text up to the marker with the replacement text appended,
/// the file path that follows the marker up to its closing quote, and a
/// flag saying an image was found; otherwise the body with underline tags
/// struck out, the CSS class the markup asks for, and no image.
pub open spec fn class_from_html_view(body: Seq<char>) -> (Seq<char>, Seq<char>, bool) {
    match find_from(body, image_marker(), 0) {
        Some(i) => {
            let after = body.subrange(i + image_marker().len(), body.len() as int);
            let text = body.subrange(0, i) + image_replacement_text();
            let path = match find_from(after, seq!['"'], 0) {
                Some(j) => after.subrange(0, j),
                None => Seq::empty(),
            };
            (text, path, true)
        },
        None => (
            strip_pattern(strip_pattern(body, u_open_tag()), u_close_tag()),
            underline_class(body),
            false,
        ),
    }
}

/// Relies on `String::from_iter` over `char` (through `Iterator::collect`):
/// the collected string holds exactly the characters of the vector, in
/// order.
#[verifier::external_body]
fn chars_to_string(v: &Vec<char>) -> (r: String)
    ensures
        r@ == v@,
{
    v.iter().collect()
}

/// The characters of a string slice, in order.
fn str_to_chars(s: &str) -> (r: Vec<char>)
    ensures
        r@ == s@,
{
    let n = s.unicode_len();
    let mut r: Vec<char> = Vec::new();
    let mut i: usize = 0;
    while i < n
        invariant
            i <= n,
            n == s@.len(),
            r@ =~= s@.subrange(0, i as int),
        decreases n - i,
    {
        r.push(s.get_char(i));
        i = i + 1;
    }
    proof {
        assert(r@ =~= s@);
    }
    r
}

/// Whether the pattern sits at position `j`.
fn pattern_matches_at(s: &Vec<char>, pat: &Vec<char>, j: usize) -> (r: bool)
    requires
        j + pat@.len() <= s@.len(),
    ensures
        r == match_at(s@, pat@, j as int),
{
    let n = s.len();
    let mut k: usize = 0;
    while k < pat.len()
        invariant
            n == s@.len(),
            k <= pat@.len(),
            forall|l: int| 0 <= l < k ==> s@[j + l] == pat@[l],
        decreases pat@.len() - k,
    {
        if s[j + k] != pat[k] {
            proof {
                if match_at(s@, pat@, j as int) {
                    assert(s@.subrange(j as int, j + pat@.len())[k as int] == pat@[k as int]);
                }
            }
            return false;
        }
        k = k + 1;
    }
    proof {
        assert(s@.subrange(j as int, j + pat@.len()) =~= pat@);
    }
    true
}

/// The first occurrence of the pattern at or after `from`, if any.
fn find_pattern(s: &Vec<char>, pat: &Vec<char>, from: usize) -> (r: Option<usize>)
    requires
        from <= s@.len(),
        pat@.len() >= 1,
    ensures
        match find_from(s@, pat@, from as int) {
            Some(i) => r matches Some(ri) && ri == i,
            None => r is None,
        },
{
    if pat.len() > s.len() {
        return None;
    }
    let mut j: usize = from;
    while j <= s.len() - pat.len()
        invariant
            from <= j <= s@.len(),
            pat@.len() <= s@.len(),
            find_from(s@, pat@, from as int) == find_from(s@, pat@, j as int),
        decreases s@.len() - j,
    {
        if pattern_matches_at(s, pat, j) {
            return Some(j);
        }
        j = j + 1;
    }
    None
}

/// Copies `s[from..to]` into a fresh vector.
fn copy_range(s: &Vec<char>, from: usize, to: usize) -> (r: Vec<char>)
    requires
        from <= to <= s@.len(),
    ensures
        r@ == s@.subrange(from as int, to as int),
{
    let mut r: Vec<char> = Vec::new();
    let mut i: usize = from;
    while i < to
        invariant
            from <= i <= to,
            r@ =~= s@.subrange(from as int, i as int),
        decreases to - i,
    {
        r.push(s[i]);
        i = i + 1;
    }
    proof {
        assert(r@ =~= s@.subrange(from as int, to as int));
    }
    r
}

/// Appends a copy of `src` to `dst`.
fn append_chars(dst: &mut Vec<char>, src: &Vec<char>)
    ensures
        final(dst)@ == old(dst)@ + src@,
{
    let mut i: usize = 0;
    while i < src.len()
        invariant
            i <= src@.len(),
            dst@ =~= old(dst)@ + src@.subrange(0, i as int),
        decreases src@.len() - i,
    {
        dst.push(src[i]);
        i = i + 1;
    }
    proof {
        assert(dst@ =~= old(dst)@ + src@);
    }
}

/// Strikes every occurrence of the pattern out of the text.
fn strip_pattern_chars(s: Vec<char>, pat: &Vec<char>) -> (r: Vec<char>)
    requires
        pat@.len() >= 1,
    ensures
        r@ == strip_pattern(s@, pat@),
    decreases s@.len(),
{
    proof {
        lemma_find_from_valid(s@, pat@, 0);
    }
    let n = s.len();
    match find_pattern(&s, pat, 0) {
        None => s,
        Some(i) => {
            let mut r = copy_range(&s, 0, i);
            let rest = copy_range(&s, i + pat.len(), n);
            let stripped = strip_pattern_chars(rest, pat);
            append_chars(&mut r, &stripped);
            r
        },
    }
}

/// Interprets the markup of a notification body: the text to display, the
/// CSS class (or, for an inline image, the image's file path), and whether
/// an inline image was found.
pub fn class_from_html(body: String) -> (r: (String, String, bool))
    ensures
        ({
            let (text, class, has_image) = class_from_html_view(body@);
            &&& r.0@ == text
            &&& r.1@ == class
            &&& r.2 == has_image
        }),
{
    let chars = str_to_chars(body.as_str());
    let marker = str_to_chars("<br><img src=\"file:///");
    proof {
        reveal_strlit("<br><img src=\"file:///");
        lemma_find_from_valid(chars@, marker@, 0);
    }
    let n = chars.len();
    match find_pattern(&chars, &marker, 0) {
        Some(i) => {
            let mut text_chars = copy_range(&chars, 0, i);
            let replacement = str_to_chars("sent an image.");
            append_chars(&mut text_chars, &replacement);
            let after = copy_range(&chars, i + marker.len(), n);
            let mut quote: Vec<char> = Vec::new();
            quote.push('"');
            proof {
                assert(quote@ =~= seq!['"']);
                lemma_find_from_valid(after@, quote@, 0);
            }
            let path_chars = match find_pattern(&after, &quote, 0) {
                Some(j) => copy_range(&after, 0, j),
                None => Vec::new(),
            };
            (chars_to_string(&text_chars), chars_to_string(&path_chars), true)
        },
        None => {
            let mut lt: Vec<char> = Vec::new();
            lt.push('<');
            proof {
                assert(lt@ =~= seq!['<']);
                lemma_find_from_valid(chars@, lt@, 0);
            }
            let class = match find_pattern(&chars, &lt, 0) {
                Some(i) => {
                    if i + 1 < n && chars[i + 1] == 'u' {
                        String::from_str("underline")
                    } else {
                        String::new()
                    }
                },
                None => String::new(),
            };
            let mut u_open: Vec<char> = Vec::new();
            u_open.push('<');
            u_open.push('u');
            u_open.push('>');
            let mut u_close: Vec<char> = Vec::new();
            u_close.push('<');
            u_close.push('/');
            u_close.push('u');
            u_close.push('>');
            proof {
                assert(u_open@ =~= u_open_tag());
                assert(u_close@ =~= u_close_tag());
            }
            let stripped = strip_pattern_chars(strip_pattern_chars(chars, &u_open), &u_close);
            (chars_to_string(&stripped), class, false)
        },
    }
}

} // verus!
