use vstd::prelude::*;
use vstd::string::{StrSliceExecFns, StringExecFns};
use vstd::utf8::{decode_utf8, valid_utf8};

verus! {

/// The character of a decimal digit.
pub open spec fn digit_char(d: nat) -> char {
    if d == 0 {
        '0'
    } else if d == 1 {
        '1'
    } else if d == 2 {
        '2'
    } else if d == 3 {
        '3'
    } else if d == 4 {
        '4'
    } else if d == 5 {
        '5'
    } else if d == 6 {
        '6'
    } else if d == 7 {
        '7'
    } else if d == 8 {
        '8'
    } else {
        '9'
    }
}

/// The decimal numeral of `n`, without sign or leading zeros.
pub open spec fn decimal(n: nat) -> Seq<char>
    decreases n,
{
    if n < 10 {
        seq![digit_char(n)]
    } else {
        decimal(n / 10) + seq![digit_char(n % 10)]
    }
}

fn digit_str(d: u64) -> (r: &'static str)
    requires
        d < 10,
    ensures
        r@ == seq![digit_char(d as nat)],
{
    proof {
        reveal_strlit("0");
        reveal_strlit("1");
        reveal_strlit("2");
        reveal_strlit("3");
        reveal_strlit("4");
        reveal_strlit("5");
        reveal_strlit("6");
        reveal_strlit("7");
        reveal_strlit("8");
        reveal_strlit("9");
    }
    if d == 0 {
        "0"
    } else if d == 1 {
        "1"
    } else if d == 2 {
        "2"
    } else if d == 3 {
        "3"
    } else if d == 4 {
        "4"
    } else if d == 5 {
        "5"
    } else if d == 6 {
        "6"
    } else if d == 7 {
        "7"
    } else if d == 8 {
        "8"
    } else {
        "9"
    }
}

/// The decimal numeral of `n`, as `n.to_string()` writes it.
pub fn decimal_string(n: u64) -> (r: String)
    ensures
        r@ == decimal(n as nat),
    decreases n,
{
    if n < 10 {
        String::from_str(digit_str(n))
    } else {
        let mut s = decimal_string(n / 10);
        s.append(digit_str(n % 10));
        s
    }
}

/// What a character becomes in HTML text: the characters that mark up
/// (`&`, `<`, `>` and `"`) become their entities, every other stays.
pub open spec fn html_char(c: char) -> Seq<char> {
    if c == '&' {
        "&amp;"@
    } else if c == '<' {
        "&lt;"@
    } else if c == '>' {
        "&gt;"@
    } else if c == '"' {
        "&quot;"@
    } else {
        seq![c]
    }
}

/// The text with each character written as `html_char` writes it.
pub open spec fn html_escaped(s: Seq<char>) -> Seq<char>
    decreases s.len(),
{
    if s.len() == 0 {
        Seq::empty()
    } else {
        html_escaped(s.drop_last()) + html_char(s.last())
    }
}

/// Text made safe to place in HTML, character by character.
pub fn escape_html(text: &str) -> (r: String)
    ensures
        r@ == html_escaped(text@),
{
    let n = text.unicode_len();
    let mut r = String::new();
    let mut i: usize = 0;
    while i < n
        invariant
            n == text@.len(),
            i <= n,
            r@ == html_escaped(text@.subrange(0, i as int)),
        decreases n - i,
    {
        let c = text.get_char(i);
        if c == '&' {
            r.append("&amp;");
        } else if c == '<' {
            r.append("&lt;");
        } else if c == '>' {
            r.append("&gt;");
        } else if c == '"' {
            r.append("&quot;");
        } else {
            r.append(text.substring_char(i, i + 1));
        }
        proof {
            let next = text@.subrange(0, i + 1);
            assert(next.drop_last() =~= text@.subrange(0, i as int));
            assert(next.last() == c);
        }
        i = i + 1;
    }
    assert(text@.subrange(0, n as int) =~= text@);
    r
}

/// `a` and `b` hold the same text.
pub fn str_equal(a: &str, b: &str) -> (r: bool)
    ensures
        r == (a@ == b@),
{
    let x = a.to_owned();
    let y = b.to_owned();
    x == y
}

/// The concatenation of `parts`.
pub open spec fn concat(parts: Seq<Seq<char>>) -> Seq<char>
    decreases parts.len(),
{
    if parts.len() == 0 {
        Seq::empty()
    } else {
        concat(parts.drop_last()) + parts.last()
    }
}

/// Joins `parts` with `sep` between each neighbouring pair.
pub open spec fn join(parts: Seq<Seq<char>>, sep: Seq<char>) -> Seq<char>
    decreases parts.len(),
{
    if parts.len() == 0 {
        Seq::empty()
    } else if parts.len() == 1 {
        parts[0]
    } else {
        join(parts.drop_last(), sep) + sep + parts.last()
    }
}

/// Joins the strings of `parts` with `sep`, as `parts.join(sep)` does.
pub fn join_strings(parts: &Vec<String>, sep: &str) -> (r: String)
    ensures
        r@ == join(parts@.map_values(|p: String| p@), sep@),
{
    let ghost views = parts@.map_values(|p: String| p@);
    let mut r = String::new();
    let mut i: usize = 0;
    while i < parts.len()
        invariant
            i <= parts.len(),
            views == parts@.map_values(|p: String| p@),
            r@ == join(views.take(i as int), sep@),
        decreases parts.len() - i,
    {
        if i != 0 {
            r.append(sep);
        }
        r.append(parts[i].as_str());
        assert(views.take(i + 1).drop_last() =~= views.take(i as int));
        i = i + 1;
    }
    assert(views.take(parts.len() as int) =~= views);
    r
}

/// `needle` occurs in `hay` as a run of consecutive characters.
pub open spec fn contains_text(hay: Seq<char>, needle: Seq<char>) -> bool {
    exists|i: int|
        0 <= i && i + needle.len() <= hay.len() && #[trigger] hay.subrange(i, i + needle.len())
            == needle
}

/// Whether `needle` occurs in `hay`, trying each position in turn.
pub fn str_contains(hay: &str, needle: &str) -> (r: bool)
    ensures
        r == contains_text(hay@, needle@),
{
    let n = hay.unicode_len();
    let m = needle.unicode_len();
    if m > n {
        return false;
    }
    let mut i: usize = 0;
    loop
        invariant
            n == hay@.len(),
            m == needle@.len(),
            m <= n,
            i <= n - m,
            forall|j: int| 0 <= j < i ==> #[trigger] hay@.subrange(j, j + m) != needle@,
        decreases n - m - i,
    {
        if str_equal(hay.substring_char(i, i + m), needle) {
            return true;
        }
        if i == n - m {
            return false;
        }
        i = i + 1;
    }
}

/// The pieces of `s` between occurrences of `sep`, in order; a string with
/// no `sep` is a single piece, and each `sep` starts a new piece.
pub open spec fn split_on(s: Seq<char>, sep: char) -> Seq<Seq<char>>
    decreases s.len(),
{
    if s.len() == 0 {
        seq![Seq::empty()]
    } else {
        let init = split_on(s.drop_last(), sep);
        if s.last() == sep {
            init.push(Seq::empty())
        } else {
            init.update(init.len() - 1, init.last().push(s.last()))
        }
    }
}

/// Splitting never gives an empty list of pieces.
proof fn lemma_split_on_nonempty(s: Seq<char>, sep: char)
    ensures
        split_on(s, sep).len() >= 1,
    decreases s.len(),
{
    if s.len() > 0 {
        lemma_split_on_nonempty(s.drop_last(), sep);
    }
}

/// The pieces between semicolons, in order, the empty ones included, as
/// `s.split(';')` gives them.
pub fn split_semicolons(s: &str) -> (r: Vec<String>)
    ensures
        r@.map_values(|p: String| p@) == split_on(s@, ';'),
{
    let n = s.unicode_len();
    let mut pieces: Vec<String> = Vec::new();
    let mut start: usize = 0;
    let mut i: usize = 0;
    assert(pieces@.map_values(|p: String| p@) =~= Seq::<Seq<char>>::empty());
    assert(s@.subrange(0, 0) =~= Seq::<char>::empty());
    assert(pieces@.map_values(|p: String| p@).push(s@.subrange(0, 0)) =~= split_on(
        s@.subrange(0, 0),
        ';',
    ));
    while i < n
        invariant
            n == s@.len(),
            start <= i <= n,
            pieces@.map_values(|p: String| p@).push(s@.subrange(start as int, i as int))
                == split_on(s@.subrange(0, i as int), ';'),
        decreases n - i,
    {
        let c = s.get_char(i);
        proof {
            let pre = s@.subrange(0, i + 1);
            assert(pre.drop_last() =~= s@.subrange(0, i as int));
            assert(pre.last() == c);
            lemma_split_on_nonempty(s@.subrange(0, i as int), ';');
        }
        if c == ';' {
            let piece = String::from_str(s.substring_char(start, i));
            proof {
                let old_views = pieces@.map_values(|p: String| p@);
                assert(piece@ == s@.subrange(start as int, i as int));
                assert(s@.subrange(i + 1, i + 1) =~= Seq::<char>::empty());
                assert(old_views.push(piece@).push(s@.subrange(i + 1, i + 1)) =~= old_views.push(
                    s@.subrange(start as int, i as int),
                ).push(Seq::empty()));
            }
            pieces.push(piece);
            start = i + 1;
        } else {
            proof {
                let views = pieces@.map_values(|p: String| p@);
                assert(s@.subrange(start as int, i + 1) =~= s@.subrange(start as int, i as int).push(c));
                assert(views.push(s@.subrange(start as int, i + 1)) =~= views.push(
                    s@.subrange(start as int, i as int),
                ).update(views.len() as int, s@.subrange(start as int, i as int).push(c)));
            }
        }
        i = i + 1;
    }
    let last = String::from_str(s.substring_char(start, n));
    pieces.push(last);
    proof {
        assert(s@.subrange(0, n as int) =~= s@);
    }
    assert(pieces@.map_values(|p: String| p@) =~= split_on(s@, ';'));
    pieces
}

/// `bytes` read as UTF-8 text: `String::from_utf8`, which succeeds exactly on
/// valid UTF-8 and then holds the decoded characters.
#[verifier::external_body]
pub(crate) fn utf8_string(bytes: Vec<u8>) -> (r: Option<String>)
    ensures
        r is Some <==> valid_utf8(bytes@),
        r matches Some(s) ==> s@ == decode_utf8(bytes@),
{
    String::from_utf8(bytes).ok()
}

/// The text of `s` with leading and trailing whitespace removed, as
/// `str::trim` returns it.
pub uninterp spec fn trimmed(s: Seq<char>) -> Seq<char>;

/// `str::trim`: the slice of `s` without its leading and trailing
/// whitespace (Unicode `White_Space`); the result is named `trimmed`.
#[verifier::external_body]
pub(crate) fn trim(s: &str) -> (r: &str)
    ensures
        r@ == trimmed(s@),
{
    s.trim()
}

/// Each part of a joined string occurs in it.
pub proof fn lemma_join_contains(parts: Seq<Seq<char>>, sep: Seq<char>, k: int)
    requires
        0 <= k < parts.len(),
    ensures
        contains_text(join(parts, sep), parts[k]),
    decreases parts.len(),
{
    if parts.len() == 1 {
        let w: int = 0;
        assert(join(parts, sep).subrange(w, w + parts[k].len()) =~= parts[k]);
    } else {
        let init = parts.drop_last();
        let whole = join(parts, sep);
        assert(whole == join(init, sep) + sep + parts.last());
        if k == parts.len() - 1 {
            let start: int = (join(init, sep).len() + sep.len()) as int;
            assert(join(parts, sep).subrange(start, start + parts[k].len()) =~= parts[k]);
        } else {
            lemma_join_contains(init, sep, k);
            assert(init[k] == parts[k]);
            let i = choose|i: int|
                0 <= i && i + parts[k].len() <= join(init, sep).len() && #[trigger] join(
                    init,
                    sep,
                ).subrange(i, i + parts[k].len()) == parts[k];
            assert(join(parts, sep).subrange(i, i + parts[k].len()) =~= join(init, sep).subrange(
                i,
                i + parts[k].len(),
            ));
        }
    }
}

} // verus!
