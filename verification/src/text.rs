//! Character-level string helpers with exact specifications: splitting on a
//! separator character, trimming Unicode whitespace, searching and joining.
use vstd::prelude::*;
use vstd::utf8::{decode_utf8, valid_utf8};

verus! {

/// Unicode `White_Space` characters, the set that `char::is_whitespace` and
/// `str::trim` use.
pub open spec fn is_white_space(c: char) -> bool {
    ||| ('\u{9}' <= c && c <= '\u{d}')
    ||| c == ' '
    ||| c == '\u{85}'
    ||| c == '\u{a0}'
    ||| c == '\u{1680}'
    ||| ('\u{2000}' <= c && c <= '\u{200a}')
    ||| c == '\u{2028}'
    ||| c == '\u{2029}'
    ||| c == '\u{202f}'
    ||| c == '\u{205f}'
    ||| c == '\u{3000}'
}

/// `s` without its leading white space.
pub open spec fn trim_start_seq(s: Seq<char>) -> Seq<char>
    decreases s.len(),
{
    if s.len() > 0 && is_white_space(s[0]) {
        trim_start_seq(s.drop_first())
    } else {
        s
    }
}

/// `s` without its trailing white space.
pub open spec fn trim_end_seq(s: Seq<char>) -> Seq<char>
    decreases s.len(),
{
    if s.len() > 0 && is_white_space(s.last()) {
        trim_end_seq(s.drop_last())
    } else {
        s
    }
}

/// `s` without leading and trailing white space, as `str::trim` gives it.
pub open spec fn trim_seq(s: Seq<char>) -> Seq<char> {
    trim_end_seq(trim_start_seq(s))
}

/// The pieces of `s` between occurrences of `sep`, as `str::split` with a
/// `char` pattern gives them: `k` separators make `k + 1` pieces, and
/// separators next to each other or at either end give empty pieces.
pub open spec fn split_seq(s: Seq<char>, sep: char) -> Seq<Seq<char>>
    decreases s.len(),
{
    if s.len() == 0 {
        seq![Seq::<char>::empty()]
    } else {
        let prev = split_seq(s.drop_last(), sep);
        if s.last() == sep {
            prev.push(Seq::<char>::empty())
        } else {
            prev.update(prev.len() - 1, prev.last().push(s.last()))
        }
    }
}

/// The views of a vector of strings.
pub open spec fn views_of(v: Seq<String>) -> Seq<Seq<char>> {
    v.map_values(|x: String| x@)
}

/// `split_seq` always yields at least one piece.
pub proof fn lemma_split_nonempty(s: Seq<char>, sep: char)
    ensures
        split_seq(s, sep).len() >= 1,
    decreases s.len(),
{
    if s.len() > 0 {
        lemma_split_nonempty(s.drop_last(), sep);
    }
}

/// Without the separator in `s`, splitting gives `s` back as the only piece.
pub proof fn lemma_split_without_sep(s: Seq<char>, sep: char)
    requires
        !s.contains(sep),
    ensures
        split_seq(s, sep) == seq![s],
    decreases s.len(),
{
    if s.len() > 0 {
        let t = s.drop_last();
        assert(!t.contains(sep)) by {
            if t.contains(sep) {
                let k = choose|k: int| 0 <= k < t.len() && t[k] == sep;
                assert(s[k] == sep);
            }
        }
        assert(s[s.len() - 1] != sep);
        lemma_split_without_sep(t, sep);
        assert(t.push(s.last()) =~= s);
        assert(seq![t].update(0, t.push(s.last())) =~= seq![s]);
    } else {
        assert(s =~= Seq::<char>::empty());
    }
}

/// Appending text without the separator only extends the last piece.
pub proof fn lemma_split_append_plain(s: Seq<char>, t: Seq<char>, sep: char)
    requires
        !t.contains(sep),
    ensures
        split_seq(s + t, sep).len() == split_seq(s, sep).len(),
        split_seq(s + t, sep).drop_last() == split_seq(s, sep).drop_last(),
        split_seq(s + t, sep).last() == split_seq(s, sep).last() + t,
    decreases t.len(),
{
    lemma_split_nonempty(s, sep);
    if t.len() == 0 {
        assert(s + t =~= s);
        assert(split_seq(s, sep).last() + t =~= split_seq(s, sep).last());
    } else {
        let t0 = t.drop_last();
        assert(!t0.contains(sep)) by {
            if t0.contains(sep) {
                let k = choose|k: int| 0 <= k < t0.len() && t0[k] == sep;
                assert(t[k] == sep);
            }
        }
        assert(t[t.len() - 1] != sep);
        lemma_split_append_plain(s, t0, sep);
        lemma_split_nonempty(s + t0, sep);
        assert((s + t).drop_last() =~= s + t0);
        assert((s + t).last() == t.last());
        let prev = split_seq(s + t0, sep);
        assert(split_seq(s + t, sep) == prev.update(prev.len() - 1, prev.last().push(t.last())));
        assert(split_seq(s, sep).last() + t =~= (split_seq(s, sep).last() + t0).push(t.last()));
        assert(split_seq(s + t, sep).drop_last() =~= prev.drop_last());
    }
}

/// A separator closes the last piece and opens an empty one.
pub proof fn lemma_split_append_sep(s: Seq<char>, sep: char)
    ensures
        split_seq(s.push(sep), sep) == split_seq(s, sep).push(Seq::<char>::empty()),
{
    assert(s.push(sep).drop_last() =~= s);
}

/// `a`, a separator and then `b`, where `a` holds no separator: the first
/// piece is `a` and the rest are the pieces of `b`.
pub proof fn lemma_split_first_piece(a: Seq<char>, b: Seq<char>, sep: char)
    requires
        !a.contains(sep),
    ensures
        split_seq(a.push(sep) + b, sep) == seq![a] + split_seq(b, sep),
    decreases b.len(),
{
    lemma_split_without_sep(a, sep);
    lemma_split_append_sep(a, sep);
    if b.len() == 0 {
        assert(a.push(sep) + b =~= a.push(sep));
        assert(seq![a] + split_seq(b, sep) =~= seq![a, Seq::<char>::empty()]);
    } else {
        let b0 = b.drop_last();
        lemma_split_first_piece(a, b0, sep);
        lemma_split_nonempty(b0, sep);
        assert((a.push(sep) + b).drop_last() =~= a.push(sep) + b0);
        assert((a.push(sep) + b).last() == b.last());
        let prev_b = split_seq(b0, sep);
        let prev = split_seq(a.push(sep) + b0, sep);
        assert(prev == seq![a] + prev_b);
        if b.last() == sep {
            assert(split_seq(b, sep) == prev_b.push(Seq::<char>::empty()));
            assert(seq![a] + prev_b.push(Seq::<char>::empty()) =~= (seq![a] + prev_b).push(
                Seq::<char>::empty(),
            ));
        } else {
            assert(split_seq(b, sep) == prev_b.update(prev_b.len() - 1, prev_b.last().push(b.last())));
            assert(seq![a] + prev_b.update(prev_b.len() - 1, prev_b.last().push(b.last())) =~= prev.update(
                prev.len() - 1,
                prev.last().push(b.last()),
            ));
        }
    }
}

/// `String::push`: std documents that it appends the given `char` to the end
/// of the string; the contract states exactly that.
#[verifier::external_body]
pub fn push_char(s: &mut String, c: char)
    ensures
        final(s)@ == old(s)@.push(c),
{
    s.push(c);
}

/// The text `String::from_utf8_lossy` makes of `bytes`.
pub uninterp spec fn lossy_utf8_text(bytes: Seq<u8>) -> Seq<char>;

/// `String::from_utf8_lossy`: the text of the bytes, with each invalid UTF-8
/// sequence replaced by U+FFFD. Claimed: the text depends on the bytes alone
/// (named `lossy_utf8_text`). Where the replacement characters stand is not
/// stated; the library calls it only on bytes that are not valid UTF-8.
#[verifier::external_body]
fn lossy_text(bytes: &[u8]) -> (res: String)
    ensures
        res@ == lossy_utf8_text(bytes@),
{
    String::from_utf8_lossy(bytes).to_string()
}

/// `std::str::from_utf8`: std documents that it returns the text the bytes
/// encode when they are valid UTF-8, and an error otherwise. Claimed: exactly
/// that, with valid UTF-8 and its decoding as vstd's `utf8` module defines
/// them.
#[verifier::external_body]
fn utf8_text(bytes: &[u8]) -> (res: Option<String>)
    ensures
        res is Some <==> valid_utf8(bytes@),
        res matches Some(s) ==> s@ == decode_utf8(bytes@),
{
    match std::str::from_utf8(bytes) {
        Ok(s) => Some(s.to_string()),
        Err(_) => None,
    }
}

/// The text of bytes read from a file or a program's output: their decoding
/// when they are valid UTF-8; otherwise what `String::from_utf8_lossy` makes
/// of them.
pub open spec fn text_of_bytes(bytes: Seq<u8>) -> Seq<char> {
    if valid_utf8(bytes) {
        decode_utf8(bytes)
    } else {
        lossy_utf8_text(bytes)
    }
}

/// Reads bytes as text, replacing invalid UTF-8 sequences.
pub fn text_from_bytes(bytes: &[u8]) -> (res: String)
    ensures
        res@ == text_of_bytes(bytes@),
{
    match utf8_text(bytes) {
        Some(s) => s,
        None => lossy_text(bytes),
    }
}

/// The characters of `s`, in order.
pub fn chars_of(s: &str) -> (res: Vec<char>)
    ensures
        res@ == s@,
{
    let mut res: Vec<char> = Vec::new();
    for c in it: s.chars()
        invariant
            res@ == it.seq().take(it.index()),
    {
        res.push(c);
    }
    res
}

/// Appends the characters `chars[from..to]` to `out`.
pub fn push_range(out: &mut String, chars: &Vec<char>, from: usize, to: usize)
    requires
        from <= to <= chars.len(),
    ensures
        final(out)@ == old(out)@ + chars@.subrange(from as int, to as int),
{
    let mut i = from;
    while i < to
        invariant
            from <= i <= to <= chars.len(),
            out@ == old(out)@ + chars@.subrange(from as int, i as int),
        decreases to - i,
    {
        push_char(out, chars[i]);
        assert(chars@.subrange(from as int, i + 1) =~= chars@.subrange(from as int, i as int).push(
            chars[i as int],
        ));
        i = i + 1;
    }
}

/// Appends `t` to `out`.
pub fn push_str(out: &mut String, t: &str)
    ensures
        final(out)@ == old(out)@ + t@,
{
    let chars = chars_of(t);
    push_range(out, &chars, 0, chars.len());
    assert(chars@.subrange(0, chars@.len() as int) =~= t@);
}

/// A new string holding `chars[from..to]`.
pub fn string_of_range(chars: &Vec<char>, from: usize, to: usize) -> (res: String)
    requires
        from <= to <= chars.len(),
    ensures
        res@ == chars@.subrange(from as int, to as int),
{
    let mut out = String::new();
    push_range(&mut out, chars, from, to);
    assert(Seq::<char>::empty() + chars@.subrange(from as int, to as int) =~= chars@.subrange(
        from as int,
        to as int,
    ));
    out
}

/// `a` followed by `b`.
pub fn concat_str(a: &str, b: &str) -> (res: String)
    ensures
        res@ == a@ + b@,
{
    let mut out = a.to_owned();
    push_str(&mut out, b);
    out
}

/// Whether `c` is Unicode white space.
pub fn is_white_space_char(c: char) -> (res: bool)
    ensures
        res == is_white_space(c),
{
    ('\u{9}' <= c && c <= '\u{d}') || c == ' ' || c == '\u{85}' || c == '\u{a0}' || c == '\u{1680}'
        || ('\u{2000}' <= c && c <= '\u{200a}') || c == '\u{2028}' || c == '\u{2029}' || c
        == '\u{202f}' || c == '\u{205f}' || c == '\u{3000}'
}

/// `s` without leading and trailing white space, as `str::trim` gives it.
pub fn trim(s: &str) -> (res: String)
    ensures
        res@ == trim_seq(s@),
{
    let chars = chars_of(s);
    let n = chars.len();
    let mut start: usize = 0;
    assert(chars@.subrange(0, n as int) =~= chars@);
    while start < n && is_white_space_char(chars[start])
        invariant
            start <= n == chars.len(),
            trim_start_seq(chars@) == trim_start_seq(chars@.subrange(start as int, n as int)),
        decreases n - start,
    {
        assert(chars@.subrange(start as int, n as int).drop_first() =~= chars@.subrange(
            start + 1,
            n as int,
        ));
        start = start + 1;
    }
    let mut end: usize = n;
    while end > start && is_white_space_char(chars[end - 1])
        invariant
            start <= end <= n == chars.len(),
            trim_seq(chars@) == trim_end_seq(chars@.subrange(start as int, end as int)),
        decreases end - start,
    {
        assert(chars@.subrange(start as int, end as int).drop_last() =~= chars@.subrange(
            start as int,
            end - 1,
        ));
        end = end - 1;
    }
    string_of_range(&chars, start, end)
}

/// Whether `c` occurs in `s`.
pub fn contains_char(s: &str, c: char) -> (res: bool)
    ensures
        res == s@.contains(c),
{
    let chars = chars_of(s);
    let mut i: usize = 0;
    while i < chars.len()
        invariant
            i <= chars.len(),
            chars@ == s@,
            forall|k: int| 0 <= k < i ==> chars@[k] != c,
        decreases chars.len() - i,
    {
        if chars[i] == c {
            assert(s@[i as int] == c);
            return true;
        }
        i = i + 1;
    }
    false
}

/// Whether two strings hold the same characters.
pub fn same_text(a: &str, b: &str) -> (res: bool)
    ensures
        res == (a@ == b@),
{
    let x = a.to_owned();
    let y = b.to_owned();
    x == y
}

/// The pieces of `s` between occurrences of `sep`, as `str::split` gives them.
pub fn split_char(s: &str, sep: char) -> (res: Vec<String>)
    ensures
        views_of(res@) == split_seq(s@, sep),
{
    let chars = chars_of(s);
    let n = chars.len();
    let mut pieces: Vec<String> = Vec::new();
    let mut cur = String::new();
    let mut i: usize = 0;
    assert(chars@.take(0) =~= Seq::<char>::empty());
    assert(views_of(pieces@).push(cur@) =~= split_seq(chars@.take(0), sep));
    while i < n
        invariant
            i <= n == chars.len(),
            chars@ == s@,
            views_of(pieces@).push(cur@) == split_seq(chars@.take(i as int), sep),
        decreases n - i,
    {
        let c = chars[i];
        let ghost pre = chars@.take(i as int);
        assert(chars@.take(i + 1).drop_last() =~= pre);
        assert(chars@.take(i + 1).last() == c);
        if c == sep {
            pieces.push(cur);
            cur = String::new();
            assert(views_of(pieces@).push(cur@) =~= split_seq(pre, sep).push(Seq::<char>::empty()));
        } else {
            let ghost before = views_of(pieces@).push(cur@);
            push_char(&mut cur, c);
            assert(views_of(pieces@).push(cur@) =~= before.update(
                before.len() - 1,
                before.last().push(c),
            ));
        }
        i = i + 1;
    }
    assert(chars@.take(n as int) =~= chars@);
    pieces.push(cur);
    assert(views_of(pieces@) =~= split_seq(s@, sep));
    pieces
}

} // verus!
