//! Text helpers: decimal numbers, joining, markup stripping and the scheme
//! rewrite applied to story links.

use vstd::prelude::*;

verus! {

/// The character of a decimal digit.
pub open spec fn digit_char(d: nat) -> char {
    if d == 0 { '0' } else if d == 1 { '1' } else if d == 2 { '2' } else if d == 3 { '3' }
    else if d == 4 { '4' } else if d == 5 { '5' } else if d == 6 { '6' } else if d == 7 { '7' }
    else if d == 8 { '8' } else { '9' }
}

/// The decimal digits of `n`, most significant first, without leading zeros.
pub open spec fn digits(n: nat) -> Seq<char>
    decreases n,
{
    if n < 10 {
        seq![digit_char(n)]
    } else {
        digits(n / 10).push(digit_char(n % 10))
    }
}

/// The decimal form of a signed integer, with a leading `-` when negative.
pub open spec fn decimal(n: int) -> Seq<char> {
    if n < 0 {
        seq!['-'] + digits((-n) as nat)
    } else {
        digits(n as nat)
    }
}

fn digit_str(d: u64) -> (r: &'static str)
    requires
        d < 10,
    ensures
        r@ == seq![digit_char(d as nat)],
{
    proof {
        reveal_strlit("0");
        reveal_strlit("1");
        reveal_strlit("2");
        reveal_strlit("3");
        reveal_strlit("4");
        reveal_strlit("5");
        reveal_strlit("6");
        reveal_strlit("7");
        reveal_strlit("8");
        reveal_strlit("9");
    }
    if d == 0 { "0" } else if d == 1 { "1" } else if d == 2 { "2" } else if d == 3 { "3" }
    else if d == 4 { "4" } else if d == 5 { "5" } else if d == 6 { "6" } else if d == 7 { "7" }
    else if d == 8 { "8" } else { "9" }
}

fn push_digits(out: &mut String, n: u64)
    ensures
        final(out)@ == old(out)@ + digits(n as nat),
    decreases n,
{
    if n < 10 {
        out.append(digit_str(n));
    } else {
        push_digits(out, n / 10);
        out.append(digit_str(n % 10));
        assert(digits(n as nat) == digits((n / 10) as nat).push(digit_char((n % 10) as nat)));
    }
}

/// Appends the decimal form of `n` to `out`.
pub fn push_decimal(out: &mut String, n: i64)
    ensures
        final(out)@ == old(out)@ + decimal(n as int),
{
    proof {
        reveal_strlit("-");
    }
    if n < 0 {
        out.append("-");
        let m: u64 = if n == i64::MIN { 9223372036854775808u64 } else { (-n) as u64 };
        push_digits(out, m);
    } else {
        push_digits(out, n as u64);
    }
}


/// The joined form of `parts`, with `sep` between consecutive parts.
pub open spec fn joined(parts: Seq<Seq<char>>, sep: Seq<char>) -> Seq<char>
    decreases parts.len(),
{
    if parts.len() == 0 {
        Seq::empty()
    } else if parts.len() == 1 {
        parts[0]
    } else {
        joined(parts.drop_last(), sep) + sep + parts.last()
    }
}

/// The views of a list of strings.
pub open spec fn views_of(v: Seq<String>) -> Seq<Seq<char>> {
    v.map_values(|s: String| s@)
}

/// Joins `parts` with `sep` between consecutive parts.
pub fn join(parts: &Vec<String>, sep: &str) -> (r: String)
    ensures
        r@ == joined(views_of(parts@), sep@),
{
    let mut out = String::new();
    let mut i: usize = 0;
    while i < parts.len()
        invariant
            i <= parts.len(),
            out@ == joined(views_of(parts@).take(i as int), sep@),
        decreases parts.len() - i,
    {
        let ghost before = views_of(parts@).take(i as int);
        let ghost after = views_of(parts@).take(i as int + 1);
        assert(after.drop_last() =~= before);
        if i > 0 {
            out.append(sep);
        }
        out.append(parts[i].as_str());
        i = i + 1;
    }
    assert(views_of(parts@).take(parts.len() as int) =~= views_of(parts@));
    out
}

/// `s` starts with `p`.
pub open spec fn starts_with(s: Seq<char>, p: Seq<char>) -> bool {
    p.len() <= s.len() && s.take(p.len() as int) == p
}

/// Whether `s` starts with `p`.
pub fn has_prefix(s: &str, p: &str) -> (r: bool)
    ensures
        r == starts_with(s@, p@),
{
    let n = s.unicode_len();
    let m = p.unicode_len();
    if m > n {
        return false;
    }
    let mut i: usize = 0;
    while i < m
        invariant
            m <= n,
            n == s@.len(),
            m == p@.len(),
            i <= m,
            forall|k: int| 0 <= k < i ==> s@[k] == p@[k],
        decreases m - i,
    {
        if s.get_char(i) != p.get_char(i) {
            assert(s@.take(m as int)[i as int] != p@[i as int]);
            return false;
        }
        i = i + 1;
    }
    assert(s@.take(m as int) =~= p@);
    true
}

/// The secure scheme prefix that links are downgraded from.
pub open spec fn secure_scheme() -> Seq<char> {
    seq!['h', 't', 't', 'p', 's']
}

/// The plain scheme prefix that links are downgraded to.
pub open spec fn plain_scheme() -> Seq<char> {
    seq!['h', 't', 't', 'p']
}

/// A link as it is emitted: a leading `https` becomes `http`, anything else is
/// kept as it is.
pub open spec fn downgraded(u: Seq<char>) -> Seq<char> {
    if starts_with(u, secure_scheme()) {
        plain_scheme() + u.skip(5)
    } else {
        u
    }
}

/// Rewrites a leading `https` of `url` to `http`.
pub fn downgrade_scheme(url: &str) -> (r: String)
    ensures
        r@ == downgraded(url@),
{
    proof {
        reveal_strlit("https");
        reveal_strlit("http");
    }
    assert("https"@ =~= secure_scheme());
    assert("http"@ =~= plain_scheme());
    if has_prefix(url, "https") {
        let rest = url.substring_char(5, url.unicode_len());
        let mut out = String::from_str("http");
        out.append(rest);
        out
    } else {
        String::from_str(url)
    }
}

/// The index of the `>` that closes a tag whose body starts at `k`: the first
/// `>` at or after `k`, line breaks included.
pub open spec fn tag_close(s: Seq<char>, k: int) -> Option<int>
    decreases s.len() - k,
{
    if k < 0 || k >= s.len() {
        None
    } else if s[k] == '>' {
        Some(k)
    } else {
        tag_close(s, k + 1)
    }
}

proof fn lemma_tag_close(s: Seq<char>, k: int)
    requires
        0 <= k,
    ensures
        tag_close(s, k) matches Some(j) ==> (k <= j < s.len() && s[j] == '>' && forall|m: int|
            k <= m < j ==> s[m] != '>'),
        tag_close(s, k) is None ==> forall|m: int| k <= m < s.len() ==> s[m] != '>',
    decreases s.len() - k,
{
    if k < s.len() && s[k] != '>' {
        lemma_tag_close(s, k + 1);
    }
}

/// `s` from index `i` on, with every tag removed: a `<`, what follows it up to
/// the first later `>`, and that `>`.
pub open spec fn stripped_from(s: Seq<char>, i: int) -> Seq<char>
    decreases s.len() - i,
    via stripped_from_decreases
{
    if i < 0 || i >= s.len() {
        Seq::empty()
    } else if s[i] == '<' && tag_close(s, i + 1) is Some {
        stripped_from(s, tag_close(s, i + 1)->0 + 1)
    } else {
        seq![s[i]] + stripped_from(s, i + 1)
    }
}

#[via_fn]
proof fn stripped_from_decreases(s: Seq<char>, i: int) {
    if 0 <= i < s.len() {
        lemma_tag_close(s, i + 1);
    }
}

/// `s` with every tag removed.
pub open spec fn stripped(s: Seq<char>) -> Seq<char> {
    stripped_from(s, 0)
}

/// `s` holds no tag: no `<` is followed, anywhere later, by a `>`.
pub open spec fn no_tag(s: Seq<char>) -> bool {
    forall|i: int, j: int| 0 <= i < j < s.len() ==> !(#[trigger] s[i] == '<' && #[trigger] s[j] == '>')
}

/// Every character of `s` is ASCII.
pub open spec fn all_ascii(s: Seq<char>) -> bool {
    forall|i: int| 0 <= i < s.len() ==> (#[trigger] s[i] as u32) <= 127
}

fn find_close(s: &str, k: usize, n: usize) -> (r: Option<usize>)
    requires
        n == s@.len(),
        k <= n,
    ensures
        r == (match tag_close(s@, k as int) {
            Some(j) => Some(j as usize),
            None => None::<usize>,
        }),
{
    let mut i = k;
    while i < n
        invariant
            k <= i <= n,
            n == s@.len(),
            tag_close(s@, k as int) == tag_close(s@, i as int),
        decreases n - i,
    {
        if s.get_char(i) == '>' {
            return Some(i);
        }
        i = i + 1;
    }
    None
}

/// Removes every tag from `s`: a `<`, what follows it up to the first later
/// `>`, line breaks included, and that `>`. What is left holds no tag, and is
/// ASCII where `s` is.
pub fn strip_tags(s: &str) -> (r: String)
    ensures
        r@ == stripped(s@),
        no_tag(r@),
        all_ascii(s@) ==> all_ascii(r@),
{
    let n = s.unicode_len();
    let mut out = String::new();
    let mut open = false;
    let mut i: usize = 0;
    while i < n
        invariant
            n == s@.len(),
            i <= n,
            out@ + stripped_from(s@, i as int) == stripped(s@),
            no_tag(out@),
            all_ascii(s@) ==> all_ascii(out@),
            !open ==> forall|k: int| 0 <= k < out@.len() ==> out@[k] != '<',
            open ==> forall|m: int| i <= m < n ==> s@[m] != '>',
        decreases n - i,
    {
        let c = s.get_char(i);
        let close = if c == '<' { find_close(s, i + 1, n) } else { None };
        proof {
            lemma_tag_close(s@, i + 1);
        }
        match close {
            Some(j) => {
                assert(!open) by {
                    if open {
                        assert(s@[j as int] != '>');
                    }
                }
                i = j + 1;
            },
            None => {
                let ghost prev = out@;
                out.append(s.substring_char(i, i + 1));
                assert(out@ =~= prev.push(c));
                if c == '<' {
                    open = true;
                } else if c == '>' {
                    assert(!open) by {
                        if open {
                            assert(s@[i as int] != '>');
                        }
                    }
                }
                assert(stripped_from(s@, i as int) == seq![c] + stripped_from(s@, i + 1));
                assert(out@ + stripped_from(s@, i + 1) =~= prev + stripped_from(s@, i as int));
                i = i + 1;
            },
        }
    }
    assert(out@ =~= out@ + stripped_from(s@, n as int));
    out
}

/// The plain-ASCII transliteration of a text.
pub uninterp spec fn ascii_of(s: Seq<char>) -> Seq<char>;

/// Relies on deunicode::deunicode: the ASCII transliteration of `s`, which
/// depends on the characters of `s` alone and is all ASCII. A text whose
/// characters all lie below U+007F comes back as it is.
#[verifier::external_body]
pub(crate) fn transliterate(s: &str) -> (r: String)
    ensures
        r@ == ascii_of(s@),
        all_ascii(r@),
        (forall|i: int| 0 <= i < s@.len() ==> (#[trigger] s@[i] as u32) < 127) ==> r@ == s@,
{
    deunicode::deunicode(s)
}

/// A text refilled into lines of at most `width` columns.
pub uninterp spec fn filled(s: Seq<char>, width: nat) -> Seq<char>;

/// Relies on textwrap::fill: the text broken into lines of at most `width`
/// columns, which depends on the text and the width alone.
#[verifier::external_body]
pub(crate) fn fill(s: &str, width: usize) -> (r: String)
    ensures
        r@ == filled(s@, width as nat),
{
    textwrap::fill(s, width)
}

/// Whether `c` is Unicode white space (the `White_Space` property).
pub open spec fn is_white(c: char) -> bool {
    let u = c as u32;
    (0x9 <= u <= 0xd) || u == 0x20 || u == 0x85 || u == 0xa0 || u == 0x1680 || (0x2000 <= u
        <= 0x200a) || u == 0x2028 || u == 0x2029 || u == 0x202f || u == 0x205f || u == 0x3000
}

/// `s` without its trailing white space.
pub open spec fn trimmed_end(s: Seq<char>) -> Seq<char>
    decreases s.len(),
{
    if s.len() > 0 && is_white(s.last()) {
        trimmed_end(s.drop_last())
    } else {
        s
    }
}

/// Whether `s` holds nothing but white space.
pub open spec fn blank(s: Seq<char>) -> bool {
    forall|i: int| 0 <= i < s.len() ==> is_white(#[trigger] s[i])
}

/// The pieces of `s` between line breaks, the last one included even where
/// it is empty.
pub open spec fn pieces(s: Seq<char>) -> Seq<Seq<char>>
    decreases s.len(),
{
    if s.len() == 0 {
        seq![Seq::empty()]
    } else if s.last() == '\n' {
        pieces(s.drop_last()).push(Seq::empty())
    } else {
        let p = pieces(s.drop_last());
        p.update(p.len() - 1, p.last().push(s.last()))
    }
}

/// The lines of `s`: its pieces between line breaks, without an empty last
/// piece.
pub open spec fn lines_of(s: Seq<char>) -> Seq<Seq<char>> {
    let p = pieces(s);
    if p.last().len() == 0 {
        p.drop_last()
    } else {
        p
    }
}

/// A line with its indentation: `prefix` before a line that is not blank, and
/// `prefix` without its trailing white space before a blank one.
pub open spec fn prefixed(line: Seq<char>, prefix: Seq<char>) -> Seq<char> {
    if blank(line) {
        trimmed_end(prefix) + line
    } else {
        prefix + line
    }
}

/// `s` with each of its lines prefixed, joined by line breaks, and a final
/// line break kept.
pub open spec fn indented(s: Seq<char>, prefix: Seq<char>) -> Seq<char> {
    joined(lines_of(s).map_values(|line: Seq<char>| prefixed(line, prefix)), "\n"@) + if s.len()
        > 0 && s.last() == '\n' {
        "\n"@
    } else {
        Seq::empty()
    }
}

/// Relies on textwrap::indent: it splits `s` at line breaks (dropping an
/// empty last piece), puts `prefix` before each line that is not blank and
/// the prefix trimmed at its end before each blank one, joins the lines with
/// line breaks, and keeps a final line break of `s`.
#[verifier::external_body]
pub(crate) fn indent(s: &str, prefix: &str) -> (r: String)
    ensures
        r@ == indented(s@, prefix@),
{
    textwrap::indent(s, prefix)
}

/// A comment body as it is shown: transliterated to ASCII, then stripped of
/// tags.
pub open spec fn cleaned(s: Seq<char>) -> Seq<char> {
    stripped(ascii_of(s))
}

/// Transliterates a comment body to ASCII and removes its tags.
pub fn cleanup(comment: &str) -> (r: String)
    ensures
        r@ == cleaned(comment@),
        no_tag(r@),
        all_ascii(r@),
{
    let ascii = transliterate(comment);
    strip_tags(ascii.as_str())
}

} // verus!
