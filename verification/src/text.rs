//! Text helpers: splitting a command line at whitespace, joining words, padding
//! columns.
use vstd::prelude::*;
use vstd::string::*;

verus! {

/// Unicode white space, as `char::is_whitespace` defines it (the `White_Space`
/// property).
pub open spec fn is_white_space(c: char) -> bool {
    let n: u32 = c as u32;
    ||| 0x09 <= n <= 0x0d
    ||| n == 0x20
    ||| n == 0x85
    ||| n == 0xa0
    ||| n == 0x1680
    ||| 0x2000 <= n <= 0x200a
    ||| n == 0x2028
    ||| n == 0x2029
    ||| n == 0x202f
    ||| n == 0x205f
    ||| n == 0x3000
}

/// Decides [`is_white_space`].
pub fn white_space(c: char) -> (res: bool)
    ensures
        res == is_white_space(c),
{
    let n: u32 = c as u32;
    (0x09 <= n && n <= 0x0d) || n == 0x20 || n == 0x85 || n == 0xa0 || n == 0x1680 || (0x2000 <= n
        && n <= 0x200a) || n == 0x2028 || n == 0x2029 || n == 0x202f || n == 0x205f || n == 0x3000
}

/// The words of `s`: its maximal runs of characters that are not white space, in
/// order. Defined by reading `s` from the left, one character at a time.
pub open spec fn words(s: Seq<char>) -> Seq<Seq<char>>
    decreases s.len(),
{
    if s.len() == 0 {
        seq![]
    } else {
        let before = words(s.drop_last());
        let c = s.last();
        if is_white_space(c) {
            before
        } else if s.len() > 1 && !is_white_space(s.drop_last().last()) {
            before.update(before.len() - 1, before.last().push(c))
        } else {
            before.push(seq![c])
        }
    }
}

/// Every word is non-empty and holds no white space.
pub proof fn lemma_words_are_words(s: Seq<char>)
    ensures
        forall|i: int| 0 <= i < words(s).len() ==> words(s)[i].len() > 0,
        forall|i: int, j: int|
            0 <= i < words(s).len() && 0 <= j < words(s)[i].len() ==> !is_white_space(
                #[trigger] words(s)[i][j],
            ),
        s.len() > 0 && !is_white_space(s.last()) ==> words(s).len() > 0,
    decreases s.len(),
{
    if s.len() > 0 {
        let p = s.drop_last();
        lemma_words_are_words(p);
        let before = words(p);
        let c = s.last();
        if !is_white_space(c) {
            if s.len() > 1 && !is_white_space(p.last()) {
                let w = before.last().push(c);
                assert forall|i: int, j: int|
                    0 <= i < words(s).len() && 0 <= j < words(s)[i].len() implies !is_white_space(
                    #[trigger] words(s)[i][j],
                ) by {
                    if i == before.len() - 1 {
                        if j < before.last().len() {
                            assert(words(s)[i][j] == before[i][j]);
                        }
                    } else {
                        assert(words(s)[i] == before[i]);
                    }
                }
            } else {
                assert forall|i: int, j: int|
                    0 <= i < words(s).len() && 0 <= j < words(s)[i].len() implies !is_white_space(
                    #[trigger] words(s)[i][j],
                ) by {
                    if i < before.len() {
                        assert(words(s)[i] == before[i]);
                    }
                }
            }
        }
    }
}

/// The views of a vector of strings.
pub open spec fn string_views(v: Seq<String>) -> Seq<Seq<char>> {
    v.map_values(|x: String| x@)
}

/// Splits `s` at white space, as `str::split_whitespace` does: the words of `s`, in order.
pub fn split_words(s: &str) -> (res: Vec<String>)
    ensures
        string_views(res@) == words(s@),
{
    let n: usize = s.unicode_len();
    let mut done: Vec<String> = Vec::new();
    let mut start: usize = 0;
    let mut in_word = false;
    let mut i: usize = 0;
    while i < n
        invariant
            n == s@.len(),
            i <= n,
            start <= i,
            in_word == (i > 0 && !is_white_space(s@[i - 1])),
            in_word ==> {
                &&& words(s@.take(i as int)) == string_views(done@).push(s@.subrange(start as int, i as int))
                &&& start < i
            },
            !in_word ==> words(s@.take(i as int)) == string_views(done@),
        decreases n - i,
    {
        let c = s.get_char(i);
        let ws = white_space(c);
        let ghost views = string_views(done@);
        let ghost prefix = s@.take(i as int);
        let ghost next = s@.take(i + 1);
        assert(next.drop_last() =~= prefix);
        assert(next.last() == c);
        if ws {
            if in_word {
                let w = String::from_str(s.substring_char(start, i));
                done.push(w);
                assert(string_views(done@) =~= views.push(w@));
            }
            in_word = false;
        } else {
            if !in_word {
                start = i;
                assert(s@.subrange(start as int, i + 1) =~= seq![c]);
                assert(words(next) =~= views.push(s@.subrange(start as int, i + 1)));
            } else {
                assert(next.drop_last().last() == s@[i - 1]);
                let ghost before = views.push(s@.subrange(start as int, i as int));
                assert(words(prefix) == before);
                assert(s@.subrange(start as int, i + 1) =~= s@.subrange(start as int, i as int).push(c));
                assert(words(next) =~= views.push(s@.subrange(start as int, i + 1)));
            }
            in_word = true;
        }
        i = i + 1;
    }
    if in_word {
        let ghost views = string_views(done@);
        let w = String::from_str(s.substring_char(start, n));
        done.push(w);
        assert(string_views(done@) =~= views.push(w@));
    }
    assert(s@.take(n as int) =~= s@);
    done
}

/// `parts` joined with `sep` between each two neighbours.
pub open spec fn joined(parts: Seq<Seq<char>>, sep: Seq<char>) -> Seq<char>
    decreases parts.len(),
{
    if parts.len() == 0 {
        seq![]
    } else if parts.len() == 1 {
        parts[0]
    } else {
        joined(parts.drop_last(), sep) + sep + parts.last()
    }
}

/// Joins `parts` with `sep` between each two neighbours, as `[T]::join` does.
pub fn join(parts: &Vec<String>, sep: &str) -> (res: String)
    ensures
        res@ == joined(string_views(parts@), sep@),
{
    let mut res = String::new();
    let mut i: usize = 0;
    while i < parts.len()
        invariant
            i <= parts.len(),
            res@ == joined(string_views(parts@.take(i as int)), sep@),
        decreases parts.len() - i,
    {
        let ghost prev = string_views(parts@.take(i as int));
        let ghost next = string_views(parts@.take(i + 1));
        assert(next.drop_last() =~= prev);
        assert(next.last() == parts@[i as int]@);
        if i > 0 {
            res.append(sep);
        } else {
            assert(res@ =~= seq![]);
        }
        res.append(parts[i].as_str());
        i = i + 1;
    }
    assert(parts@.take(parts.len() as int) =~= parts@);
    res
}

/// `unit` written `count` times in a row.
pub open spec fn repeated(unit: Seq<char>, count: nat) -> Seq<char>
    decreases count,
{
    if count == 0 {
        seq![]
    } else {
        repeated(unit, (count - 1) as nat) + unit
    }
}

/// Writes `unit` `count` times in a row, as `str::repeat` does.
pub fn repeat(unit: &str, count: usize) -> (res: String)
    ensures
        res@ == repeated(unit@, count as nat),
{
    let mut res = String::new();
    let mut i: usize = 0;
    while i < count
        invariant
            i <= count,
            res@ == repeated(unit@, i as nat),
        decreases count - i,
    {
        res.append(unit);
        i = i + 1;
    }
    res
}

/// `s` followed by spaces up to `width` characters; `s` itself when it is at least
/// that long. This is what `{:<width}` writes.
pub open spec fn padded(s: Seq<char>, width: nat) -> Seq<char> {
    if s.len() < width {
        s + repeated(seq![' '], (width - s.len()) as nat)
    } else {
        s
    }
}

/// `unit` repeated `count` times is `count` copies of `unit` back to back: its
/// length is `count` times that of `unit`, and each character is the matching
/// character of `unit`.
pub proof fn law_repeated_copies(unit: Seq<char>, count: nat)
    ensures
        repeated(unit, count).len() == count * unit.len(),
        forall|i: int|
            0 <= i < repeated(unit, count).len() ==> #[trigger] repeated(unit, count)[i] == unit[i % unit.len() as int],
    decreases count,
{
    if count > 0 {
        let prev = repeated(unit, (count - 1) as nat);
        law_repeated_copies(unit, (count - 1) as nat);
        assert(count * unit.len() == (count - 1) * unit.len() + unit.len()) by (nonlinear_arith)
            requires
                count > 0,
        ;
        assert forall|i: int| 0 <= i < repeated(unit, count).len() implies #[trigger] repeated(unit, count)[i]
            == unit[i % unit.len() as int] by {
            let n = unit.len() as int;
            let m = prev.len() as int;
            assert(m == (count - 1) * n);
            if i >= m {
                assert(repeated(unit, count)[i] == unit[i - m]);
                assert((i - m) % n == i % n) by (nonlinear_arith)
                    requires
                        m == (count - 1) * n,
                        m <= i < m + n,
                        n > 0,
                        count >= 1,
                ;
                assert(i - m < n);
                assert((i - m) % n == i - m) by (nonlinear_arith)
                    requires
                        0 <= i - m < n,
                ;
            } else {
                assert(repeated(unit, count)[i] == prev[i]);
            }
        }
    } else {
        assert(count * unit.len() == 0) by (nonlinear_arith)
            requires
                count == 0,
        ;
    }
}

/// Padding keeps `s` at the front, is as long as `width` or as `s` (whichever is
/// longer), and adds only spaces.
pub proof fn law_padded_shape(s: Seq<char>, width: nat)
    ensures
        padded(s, width).len() == if s.len() < width { width } else { s.len() },
        padded(s, width).subrange(0, s.len() as int) == s,
        forall|i: int| s.len() <= i < padded(s, width).len() ==> #[trigger] padded(s, width)[i] == ' ',
{
    if s.len() < width {
        let fill = repeated(seq![' '], (width - s.len()) as nat);
        law_repeated_copies(seq![' '], (width - s.len()) as nat);
        let k = (width - s.len()) as nat;
        assert(k * seq![' '].len() == k) by (nonlinear_arith)
            requires
                seq![' '].len() == 1,
        ;
        assert((s + fill).subrange(0, s.len() as int) =~= s);
        assert forall|i: int| s.len() <= i < padded(s, width).len() implies #[trigger] padded(s, width)[i] == ' ' by {
            assert(padded(s, width)[i] == fill[i - s.len()]);
            assert((i - s.len()) % 1 == 0);
        }
    } else {
        assert(s.subrange(0, s.len() as int) =~= s);
    }
}

/// Pads `s` on the right with spaces to `width` characters.
pub fn pad_right(s: &str, width: usize) -> (res: String)
    ensures
        res@ == padded(s@, width as nat),
{
    let n: usize = s.unicode_len();
    let mut res = String::from_str(s);
    if n < width {
        let fill = repeat(" ", width - n);
        proof {
            reveal_strlit(" ");
            assert(" "@ =~= seq![' ']);
        }
        res.append(fill.as_str());
    }
    res
}

/// A single word: non-empty, without white space.
pub open spec fn is_word(w: Seq<char>) -> bool {
    w.len() > 0 && forall|j: int| 0 <= j < w.len() ==> !is_white_space(#[trigger] w[j])
}

/// Appending a word after white space (or at the start) adds exactly that word.
pub proof fn lemma_words_append_word(s: Seq<char>, w: Seq<char>)
    requires
        is_word(w),
        s.len() == 0 || is_white_space(s.last()),
    ensures
        words(s + w) == words(s).push(w),
    decreases w.len(),
{
    let sw = s + w;
    assert(sw.last() == w.last());
    if w.len() == 1 {
        assert(sw.drop_last() =~= s);
        assert(w =~= seq![w.last()]);
    } else {
        let w0 = w.drop_last();
        assert(is_word(w0)) by {
            assert forall|j: int| 0 <= j < w0.len() implies !is_white_space(#[trigger] w0[j]) by {
                assert(w0[j] == w[j]);
            }
        }
        lemma_words_append_word(s, w0);
        assert(sw.drop_last() =~= s + w0);
        assert((s + w0).last() == w0.last());
        assert(w0.last() == w[w.len() - 2]);
        assert(!is_white_space(w.last()));
        assert(w0.push(w.last()) =~= w);
    }
}

/// Words joined with single spaces split back into the same words.
pub proof fn law_split_undoes_join(parts: Seq<Seq<char>>)
    requires
        forall|i: int| 0 <= i < parts.len() ==> is_word(#[trigger] parts[i]),
    ensures
        words(joined(parts, " "@)) == parts,
    decreases parts.len(),
{
    reveal_strlit(" ");
    let space = " "@;
    assert(space =~= seq![' ']);
    if parts.len() == 0 {
    } else if parts.len() == 1 {
        lemma_words_append_word(seq![], parts[0]);
        assert(seq![] + parts[0] =~= parts[0]);
        assert(parts =~= seq![parts[0]]);
    } else {
        let init = parts.drop_last();
        assert forall|i: int| 0 <= i < init.len() implies is_word(#[trigger] init[i]) by {
            assert(init[i] == parts[i]);
        }
        law_split_undoes_join(init);
        let j = joined(init, space);
        assert((j + space).drop_last() =~= j);
        assert(is_white_space((j + space).last()));
        assert(words(j + space) == words(j));
        assert(is_word(parts.last())) by {
            assert(parts.last() == parts[parts.len() - 1]);
        }
        lemma_words_append_word(j + space, parts.last());
        assert(init.push(parts.last()) =~= parts);
    }
}

} // verus!
