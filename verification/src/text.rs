//! Text helpers: the characters of a string, trimming, PINs and file names.

use vstd::prelude::*;

verus! {

/// Whether a character has the Unicode property White_Space: the controls
/// from tab to carriage return, the space, next line, the no-break space,
/// the Ogham space mark, the spaces from en quad to hair space, the line and
/// paragraph separators, the narrow no-break space, the medium mathematical
/// space and the ideographic space.
pub open spec fn white_space(c: char) -> bool {
    let n = c as u32;
    ||| 0x0009 <= n <= 0x000D
    ||| n == 0x0020
    ||| n == 0x0085
    ||| n == 0x00A0
    ||| n == 0x1680
    ||| 0x2000 <= n <= 0x200A
    ||| n == 0x2028
    ||| n == 0x2029
    ||| n == 0x202F
    ||| n == 0x205F
    ||| n == 0x3000
}

/// Whether a character is white space.
pub fn is_white_space(c: char) -> (r: bool)
    ensures
        r == white_space(c),
{
    let n: u32 = c as u32;
    (0x0009 <= n && n <= 0x000D) || n == 0x0020 || n == 0x0085 || n == 0x00A0 || n == 0x1680 || (
    0x2000 <= n && n <= 0x200A) || n == 0x2028 || n == 0x2029 || n == 0x202F || n == 0x205F || n
        == 0x3000
}

/// `String::push`.
///
/// Trusted: the character is appended to the end of the string.
#[verifier::external_body]
fn push_char(s: &mut String, c: char)
    ensures
        final(s)@ == old(s)@.push(c),
{
    s.push(c)
}

/// The characters of a string.
pub fn to_chars(s: &str) -> (r: Vec<char>)
    ensures
        r@ == s@,
{
    let mut out: Vec<char> = Vec::new();
    for c in it: s.chars()
        invariant
            it.seq() == s@,
            out@ == it.seq().take(it.index()),
    {
        out.push(c);
    }
    out
}

/// The string of the characters from `from` up to `to`.
pub fn from_chars(chars: &Vec<char>, from: usize, to: usize) -> (r: String)
    requires
        from <= to <= chars@.len(),
    ensures
        r@ == chars@.subrange(from as int, to as int),
{
    let mut out = String::new();
    let mut i: usize = from;
    while i < to
        invariant
            from <= i <= to <= chars@.len(),
            out@ == chars@.subrange(from as int, i as int),
        decreases to - i,
    {
        push_char(&mut out, chars[i]);
        i = i + 1;
    }
    out
}

/// The first position at or after `from` that is not marked, or the length
/// where every later position is marked.
pub open spec fn skip_start(marked: Seq<bool>, from: int) -> int
    decreases marked.len() - from,
{
    if 0 <= from < marked.len() && marked[from] {
        skip_start(marked, from + 1)
    } else {
        from
    }
}

/// The end of the last unmarked position before `to`, or `start` where
/// every position from `start` on is marked.
pub open spec fn skip_end(marked: Seq<bool>, start: int, to: int) -> int
    decreases to,
{
    if 0 <= start < to <= marked.len() && marked[to - 1] {
        skip_end(marked, start, to - 1)
    } else {
        to
    }
}

/// A text without its marked characters at the start and at the end.
pub open spec fn unmarked_core(s: Seq<char>, marked: Seq<bool>) -> Seq<char>
    recommends
        marked.len() == s.len(),
{
    let start = skip_start(marked, 0);
    let end = skip_end(marked, start, s.len() as int);
    s.subrange(start, end)
}

/// The start of the core is within the text.
pub proof fn lemma_skip_start_bounds(marked: Seq<bool>, from: int)
    requires
        0 <= from <= marked.len(),
    ensures
        from <= skip_start(marked, from) <= marked.len(),
    decreases marked.len() - from,
{
    if from < marked.len() && marked[from] {
        lemma_skip_start_bounds(marked, from + 1);
    }
}

/// The end of the core is within the text and not before its start.
pub proof fn lemma_skip_end_bounds(marked: Seq<bool>, start: int, to: int)
    requires
        0 <= start <= to <= marked.len(),
    ensures
        start <= skip_end(marked, start, to) <= to,
    decreases to,
{
    if start < to && marked[to - 1] {
        lemma_skip_end_bounds(marked, start, to - 1);
    }
}

/// Finds the bounds of the core of a text from the marks of its characters.
fn core_bounds(marked: &Vec<bool>) -> (r: (usize, usize))
    ensures
        r.0 == skip_start(marked@, 0),
        r.1 == skip_end(marked@, r.0 as int, marked@.len() as int),
        r.0 <= r.1 <= marked@.len(),
{
    let mut start: usize = 0;
    while start < marked.len() && marked[start]
        invariant
            start <= marked.len(),
            skip_start(marked@, 0) == skip_start(marked@, start as int),
        decreases marked.len() - start,
    {
        start = start + 1;
    }
    let mut end: usize = marked.len();
    while start < end && marked[end - 1]
        invariant
            start <= end <= marked.len(),
            skip_end(marked@, start as int, marked@.len() as int) == skip_end(
                marked@,
                start as int,
                end as int,
            ),
        decreases end,
    {
        end = end - 1;
    }
    (start, end)
}

/// The marks of the white space in a text.
pub open spec fn white_space_marks(s: Seq<char>) -> Seq<bool> {
    s.map_values(|c: char| white_space(c))
}

/// A text without the white space at its start and at its end.
pub open spec fn trimmed(s: Seq<char>) -> Seq<char> {
    unmarked_core(s, white_space_marks(s))
}

/// Removes the white space at the start and at the end of a text.
pub fn trim(s: &str) -> (r: String)
    ensures
        r@ == trimmed(s@),
{
    let chars = to_chars(s);
    let mut marked: Vec<bool> = Vec::new();
    let mut i: usize = 0;
    while i < chars.len()
        invariant
            i <= chars.len(),
            marked@.len() == i,
            forall|j: int| 0 <= j < i ==> marked@[j] == white_space(#[trigger] chars@[j]),
        decreases chars.len() - i,
    {
        marked.push(is_white_space(chars[i]));
        i = i + 1;
    }
    assert(marked@ =~= white_space_marks(s@));
    let (start, end) = core_bounds(&marked);
    from_chars(&chars, start, end)
}

/// Whether a text is empty once trimmed.
pub open spec fn blank(s: Seq<char>) -> bool {
    trimmed(s).len() == 0
}

/// Where every position from `from` on is marked, the core starts at the
/// end of the text.
proof fn lemma_skip_start_all_marked(marked: Seq<bool>, from: int)
    requires
        0 <= from <= marked.len(),
        forall|j: int| from <= j < marked.len() ==> marked[j],
    ensures
        skip_start(marked, from) == marked.len(),
    decreases marked.len() - from,
{
    if from < marked.len() {
        lemma_skip_start_all_marked(marked, from + 1);
    }
}

/// The core does not start after an unmarked position.
proof fn lemma_skip_start_stops(marked: Seq<bool>, from: int, k: int)
    requires
        0 <= from <= k < marked.len(),
        !marked[k],
    ensures
        skip_start(marked, from) <= k,
    decreases k - from,
{
    if from < k && marked[from] {
        lemma_skip_start_stops(marked, from + 1, k);
    }
}

/// The core does not end before an unmarked position.
proof fn lemma_skip_end_stops(marked: Seq<bool>, start: int, to: int, k: int)
    requires
        0 <= start <= k < to <= marked.len(),
        !marked[k],
    ensures
        skip_end(marked, start, to) > k,
    decreases to,
{
    if to - 1 > k && marked[to - 1] {
        lemma_skip_end_stops(marked, start, to - 1, k);
    }
}

/// A text is blank exactly when it holds nothing but white space; the
/// empty text is blank.
pub proof fn lemma_blank_is_all_white_space(s: Seq<char>)
    ensures
        blank(s) <==> forall|i: int| 0 <= i < s.len() ==> white_space(#[trigger] s[i]),
{
    let marked = white_space_marks(s);
    let start = skip_start(marked, 0);
    lemma_skip_start_bounds(marked, 0);
    lemma_skip_end_bounds(marked, start, s.len() as int);
    if forall|i: int| 0 <= i < s.len() ==> white_space(#[trigger] s[i]) {
        assert forall|j: int| 0 <= j < marked.len() implies marked[j] by {
            assert(white_space(s[j]));
        }
        lemma_skip_start_all_marked(marked, 0);
    } else {
        let k = choose|k: int| 0 <= k < s.len() && !white_space(#[trigger] s[k]);
        lemma_skip_start_stops(marked, 0, k);
        lemma_skip_end_stops(marked, start, s.len() as int, k);
    }
}

/// Whether a text holds nothing but white space.
pub fn is_blank(s: &str) -> (r: bool)
    ensures
        r == blank(s@),
{
    let t = trim(s);
    t.as_str().unicode_len() == 0
}

/// Whether a character is an ASCII digit.
pub open spec fn ascii_digit(c: char) -> bool {
    0x30 <= c as u32 <= 0x39
}

/// Whether a character is an ASCII letter or an ASCII digit.
pub open spec fn ascii_alphanumeric(c: char) -> bool {
    ascii_digit(c) || 0x41 <= c as u32 <= 0x5A || 0x61 <= c as u32 <= 0x7A
}

/// Whether a character is an ASCII digit.
pub fn is_ascii_digit(c: char) -> (r: bool)
    ensures
        r == ascii_digit(c),
{
    let n: u32 = c as u32;
    0x30 <= n && n <= 0x39
}

/// Whether a character is an ASCII letter or an ASCII digit.
pub fn is_ascii_alphanumeric(c: char) -> (r: bool)
    ensures
        r == ascii_alphanumeric(c),
{
    let n: u32 = c as u32;
    (0x30 <= n && n <= 0x39) || (0x41 <= n && n <= 0x5A) || (0x61 <= n && n <= 0x7A)
}

/// Whether a text is a PIN: exactly four ASCII digits.
pub open spec fn pin_text(s: Seq<char>) -> bool {
    s.len() == 4 && forall|i: int| 0 <= i < s.len() ==> ascii_digit(#[trigger] s[i])
}

/// Whether a text is exactly four ASCII digits.
pub fn is_pin(s: &str) -> (r: bool)
    ensures
        r == pin_text(s@),
{
    let chars = to_chars(s);
    if chars.len() != 4 {
        return false;
    }
    let mut i: usize = 0;
    while i < chars.len()
        invariant
            i <= chars.len(),
            chars@ == s@,
            forall|j: int| 0 <= j < i ==> ascii_digit(#[trigger] chars@[j]),
        decreases chars.len() - i,
    {
        if !is_ascii_digit(chars[i]) {
            return false;
        }
        i = i + 1;
    }
    true
}

/// What a character becomes in a file name: itself where it is an ASCII
/// letter, an ASCII digit, a hyphen or an underscore, and an underscore
/// otherwise.
pub open spec fn file_name_char(c: char) -> char {
    if ascii_alphanumeric(c) || c == '-' || c == '_' {
        c
    } else {
        '_'
    }
}

/// A text in which every run of underscores has become one underscore.
pub open spec fn collapsed(s: Seq<char>) -> Seq<char>
    decreases s.len(),
{
    if s.len() == 0 {
        s
    } else if s.len() >= 2 && s[s.len() - 1] == '_' && s[s.len() - 2] == '_' {
        collapsed(s.drop_last())
    } else {
        collapsed(s.drop_last()).push(s.last())
    }
}

/// The marks of the underscores in a text.
pub open spec fn underscore_marks(s: Seq<char>) -> Seq<bool> {
    s.map_values(|c: char| c == '_')
}

/// The name that stands in when nothing of a vault's name is left.
pub open spec fn placeholder_name() -> Seq<char> {
    "vault"@
}

/// The file name of a vault's name: every character that is not an ASCII
/// letter, an ASCII digit, a hyphen or an underscore replaced by an
/// underscore, runs of underscores collapsed into one, underscores at the
/// start and at the end removed, and the placeholder where nothing is left.
pub open spec fn sanitized_file_name(input: Seq<char>) -> Seq<char> {
    let replaced = input.map_values(|c: char| file_name_char(c));
    let single = collapsed(replaced);
    let core = unmarked_core(single, underscore_marks(single));
    if core.len() == 0 {
        placeholder_name()
    } else {
        core
    }
}

/// Derives a file name that is safe on every file system from the name of
/// a vault.
pub fn sanitize_file_name(input: &str) -> (r: String)
    ensures
        r@ == sanitized_file_name(input@),
{
    let chars = to_chars(input);
    let ghost replaced = input@.map_values(|c: char| file_name_char(c));
    let mut single: Vec<char> = Vec::new();
    let mut previous_underscore = false;
    let mut i: usize = 0;
    while i < chars.len()
        invariant
            i <= chars.len(),
            chars@ == input@,
            replaced == input@.map_values(|c: char| file_name_char(c)),
            single@ == collapsed(replaced.take(i as int)),
            previous_underscore == (i > 0 && replaced[i - 1] == '_'),
        decreases chars.len() - i,
    {
        let c = chars[i];
        let safe = if is_ascii_alphanumeric(c) || c == '-' || c == '_' {
            c
        } else {
            '_'
        };
        proof {
            let next = replaced.take(i + 1);
            assert(next.drop_last() =~= replaced.take(i as int));
        }
        if !(safe == '_' && previous_underscore) {
            single.push(safe);
        }
        previous_underscore = safe == '_';
        i = i + 1;
    }
    assert(replaced.take(chars@.len() as int) =~= replaced);
    let mut marked: Vec<bool> = Vec::new();
    let mut j: usize = 0;
    while j < single.len()
        invariant
            j <= single.len(),
            marked@.len() == j,
            forall|k: int| 0 <= k < j ==> marked@[k] == (#[trigger] single@[k] == '_'),
        decreases single.len() - j,
    {
        marked.push(single[j] == '_');
        j = j + 1;
    }
    assert(marked@ =~= underscore_marks(single@));
    let (start, end) = core_bounds(&marked);
    if start == end {
        "vault".to_owned()
    } else {
        from_chars(&single, start, end)
    }
}

/// Whether a character may stand in a file name.
pub open spec fn file_name_safe(c: char) -> bool {
    ascii_alphanumeric(c) || c == '-' || c == '_'
}

/// Where the start of the core is not the end of the text, it is unmarked.
pub proof fn lemma_skip_start_unmarked(marked: Seq<bool>, from: int)
    requires
        0 <= from <= marked.len(),
    ensures
        skip_start(marked, from) < marked.len() ==> !marked[skip_start(marked, from)],
    decreases marked.len() - from,
{
    if from < marked.len() && marked[from] {
        lemma_skip_start_unmarked(marked, from + 1);
    }
}

/// Where the end of the core is not its start, the position before it is
/// unmarked.
pub proof fn lemma_skip_end_unmarked(marked: Seq<bool>, start: int, to: int)
    requires
        0 <= start <= to <= marked.len(),
    ensures
        start < skip_end(marked, start, to) ==> !marked[skip_end(marked, start, to) - 1],
    decreases to,
{
    if start < to && marked[to - 1] {
        lemma_skip_end_unmarked(marked, start, to - 1);
    }
}

/// Collapsing keeps only characters of the text, ends as the text ends, and
/// leaves no two underscores side by side.
pub proof fn lemma_collapsed(s: Seq<char>)
    ensures
        forall|i: int|
            0 <= i < collapsed(s).len() ==> exists|j: int|
                0 <= j < s.len() && s[j] == #[trigger] collapsed(s)[i],
        s.len() > 0 ==> collapsed(s).len() > 0 && collapsed(s).last() == s.last(),
        s.len() == 0 ==> collapsed(s).len() == 0,
        forall|i: int|
            0 <= i && i + 1 < collapsed(s).len() ==> !(#[trigger] collapsed(s)[i] == '_'
                && collapsed(s)[i + 1] == '_'),
    decreases s.len(),
{
    if s.len() > 0 {
        let front = s.drop_last();
        lemma_collapsed(front);
        let c = collapsed(s);
        let f = collapsed(front);
        assert forall|i: int| 0 <= i < c.len() implies exists|j: int|
            0 <= j < s.len() && s[j] == #[trigger] c[i] by {
            if i < f.len() {
                let j = choose|j: int| 0 <= j < front.len() && front[j] == f[i];
                assert(s[j] == c[i]);
            } else {
                assert(s[s.len() - 1] == c[i]);
            }
        }
    }
}

/// A sanitized file name is never empty, holds nothing but ASCII letters,
/// ASCII digits, hyphens and underscores, neither starts nor ends with an
/// underscore, and has no two underscores side by side.
pub proof fn lemma_sanitized_file_name_is_safe(input: Seq<char>)
    ensures
        sanitized_file_name(input).len() > 0,
        forall|i: int|
            0 <= i < sanitized_file_name(input).len() ==> file_name_safe(
                #[trigger] sanitized_file_name(input)[i],
            ),
        sanitized_file_name(input).first() != '_',
        sanitized_file_name(input).last() != '_',
        forall|i: int|
            0 <= i && i + 1 < sanitized_file_name(input).len() ==> !(
            #[trigger] sanitized_file_name(input)[i] == '_' && sanitized_file_name(input)[i + 1]
                == '_'),
{
    let replaced = input.map_values(|c: char| file_name_char(c));
    let single = collapsed(replaced);
    let marked = underscore_marks(single);
    let start = skip_start(marked, 0);
    let end = skip_end(marked, start, single.len() as int);
    let core = single.subrange(start, end);
    lemma_collapsed(replaced);
    lemma_skip_start_bounds(marked, 0);
    lemma_skip_start_unmarked(marked, 0);
    lemma_skip_end_bounds(marked, start, single.len() as int);
    lemma_skip_end_unmarked(marked, start, single.len() as int);
    if core.len() == 0 {
        reveal_strlit("vault");
    } else {
        assert forall|i: int| 0 <= i < core.len() implies file_name_safe(#[trigger] core[i]) by {
            let j = choose|j: int| 0 <= j < replaced.len() && replaced[j] == single[start + i];
            assert(replaced[j] == file_name_char(input[j]));
        }
        assert forall|i: int| 0 <= i && i + 1 < core.len() implies !(#[trigger] core[i] == '_'
            && core[i + 1] == '_') by {
            assert(core[i] == single[start + i] && core[i + 1] == single[start + i + 1]);
        }
    }
}

} // verus!
