use vstd::prelude::*;

verus! {

/// Whether `c` is white space: one of the code points with the Unicode property White_Space.
/// These are the controls from tab to carriage return, the space, next line, the no-break
/// space, the Ogham space mark, the spaces from en quad to hair space, the line and the
/// paragraph separator, the narrow no-break space, the medium mathematical space and the
/// ideographic space.
pub open spec fn white_space(c: char) -> bool {
    let code = c as u32;
    ||| 0x0009 <= code <= 0x000D
    ||| code == 0x0020
    ||| code == 0x0085
    ||| code == 0x00A0
    ||| code == 0x1680
    ||| 0x2000 <= code <= 0x200A
    ||| code == 0x2028
    ||| code == 0x2029
    ||| code == 0x202F
    ||| code == 0x205F
    ||| code == 0x3000
}

/// `char::is_whitespace`, which holds of the code points with the property White_Space.
#[verifier::external_body]
fn is_whitespace(c: char) -> (white: bool)
    ensures
        white == white_space(c),
{
    c.is_whitespace()
}

/// `s` without its leading white space.
pub open spec fn trim_start(s: Seq<char>) -> Seq<char>
    decreases s.len(),
{
    if s.len() > 0 && white_space(s[0]) {
        trim_start(s.drop_first())
    } else {
        s
    }
}

/// `s` without its trailing white space.
pub open spec fn trim_end(s: Seq<char>) -> Seq<char>
    decreases s.len(),
{
    if s.len() > 0 && white_space(s.last()) {
        trim_end(s.drop_last())
    } else {
        s
    }
}

/// `s` without leading and trailing white space.
pub open spec fn trimmed(s: Seq<char>) -> Seq<char> {
    trim_end(trim_start(s))
}

/// `s` with `prefix` taken from its front as often as it stands there. An empty prefix takes
/// nothing.
pub open spec fn strip_all(s: Seq<char>, prefix: Seq<char>) -> Seq<char>
    decreases s.len(),
{
    if prefix.len() > 0 && prefix.is_prefix_of(s) {
        strip_all(s.skip(prefix.len() as int), prefix)
    } else {
        s
    }
}

/// The characters of each string of a vector, in order.
pub open spec fn texts(strings: Seq<String>) -> Seq<Seq<char>> {
    Seq::new(strings.len(), |i: int| strings[i]@)
}

/// The characters of a text that may be missing.
pub open spec fn optional_text_view(text: Option<&str>) -> Option<Seq<char>> {
    match text {
        Some(text) => Some(text@),
        None => None,
    }
}

/// Skipping leading white space one character at a time reaches `trim_start`.
pub proof fn lemma_trim_start_skip(s: Seq<char>, n: int)
    requires
        0 <= n <= s.len(),
        forall|i: int| 0 <= i < n ==> white_space(#[trigger] s[i]),
    ensures
        trim_start(s) == trim_start(s.skip(n)),
    decreases n,
{
    if n > 0 {
        assert(s.drop_first().skip(n - 1) =~= s.skip(n));
        lemma_trim_start_skip(s.drop_first(), n - 1);
    } else {
        assert(s.skip(0) =~= s);
    }
}

/// Dropping trailing white space one character at a time reaches `trim_end`.
pub proof fn lemma_trim_end_take(s: Seq<char>, n: int)
    requires
        0 <= n <= s.len(),
        forall|i: int| n <= i < s.len() ==> white_space(#[trigger] s[i]),
    ensures
        trim_end(s) == trim_end(s.take(n)),
    decreases s.len() - n,
{
    if n < s.len() {
        assert(s.drop_last().take(n) =~= s.take(n));
        lemma_trim_end_take(s.drop_last(), n);
    } else {
        assert(s.take(n) =~= s);
    }
}

/// The characters of `s`, in order, as a vector that can be indexed in constant time.
pub fn chars_of(s: &str) -> (chars: Vec<char>)
    ensures
        chars@ == s@,
{
    let mut chars: Vec<char> = Vec::new();
    for c in it: s.chars()
        invariant
            chars@ == it.seq().take(it.index() as int),
            it.seq() == s@,
    {
        chars.push(c);
    }
    chars
}

/// Whether two strings hold the same characters.
pub fn same_text(a: &str, b: &str) -> (same: bool)
    ensures
        same == (a@ == b@),
{
    a.to_owned() == b.to_owned()
}

/// Takes `prefix` from the front of `s` once, or reports that `s` does not start with it.
pub fn strip_prefix<'a>(s: &'a str, prefix: &str) -> (rest: Option<&'a str>)
    ensures
        match rest {
            Some(rest) => s@ == prefix@ + rest@,
            None => !prefix@.is_prefix_of(s@),
        },
{
    let n = prefix.unicode_len();
    let len = s.unicode_len();
    if n > len {
        return None;
    }
    let head = s.substring_char(0, n);
    if same_text(head, prefix) {
        let rest = s.substring_char(n, len);
        assert(s@ =~= prefix@ + rest@);
        Some(rest)
    } else {
        None
    }
}

/// Takes `prefix` from the front of `s` as often as it stands there.
pub fn strip_prefix_repeated<'a>(s: &'a str, prefix: &str) -> (rest: &'a str)
    ensures
        rest@ == strip_all(s@, prefix@),
{
    if prefix.unicode_len() == 0 {
        return s;
    }
    let mut rest = s;
    loop
        invariant
            prefix@.len() > 0,
            strip_all(s@, prefix@) == strip_all(rest@, prefix@),
        ensures
            rest@ == strip_all(s@, prefix@),
        decreases rest@.len(),
    {
        match strip_prefix(rest, prefix) {
            Some(shorter) => {
                assert(rest@.skip(prefix@.len() as int) =~= shorter@);
                assert(prefix@.is_prefix_of(rest@));
                rest = shorter;
            },
            None => {
                break ;
            },
        }
    }
    rest
}

/// `s` without leading and trailing white space.
pub fn trim(s: &str) -> (inner: &str)
    ensures
        inner@ == trimmed(s@),
{
    let chars = chars_of(s);
    let len = chars.len();
    let mut start: usize = 0;
    while start < len && is_whitespace(chars[start])
        invariant
            start <= len == chars@.len(),
            forall|i: int| 0 <= i < start ==> white_space(#[trigger] chars@[i]),
        decreases len - start,
    {
        start += 1;
    }
    let mut end: usize = len;
    while end > start && is_whitespace(chars[end - 1])
        invariant
            start <= end <= len == chars@.len(),
            forall|i: int| end <= i < len ==> white_space(#[trigger] chars@[i]),
        decreases end,
    {
        end -= 1;
    }
    let inner = s.substring_char(start, end);
    proof {
        let front = s@.skip(start as int);
        lemma_trim_start_skip(s@, start as int);
        assert(trim_start(s@) == front);
        assert(forall|i: int|
            end - start <= i < front.len() ==> white_space(#[trigger] front[i])) by {
            assert forall|i: int| end - start <= i < front.len() implies white_space(
                #[trigger] front[i],
            ) by {
                assert(front[i] == chars@[i + start]);
            }
        }
        lemma_trim_end_take(front, end - start);
        assert(front.take(end - start) =~= inner@);
        if end > start {
            assert(inner@.last() == chars@[end - 1]);
        }
    }
    inner
}

} // verus!
