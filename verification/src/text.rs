//! Character-level helpers for building and inspecting strings.
//!
//! Contracts throughout the crate speak of a string by its view, the
//! sequence of its characters.

use vstd::prelude::*;
use vstd::string::StringExecFns;

verus! {

/// `String::push` appends one character to the end of the string.
pub assume_specification[ String::push ](s: &mut String, c: char)
    ensures
        final(s)@ == old(s)@.push(c),
;

/// The views of a sequence of strings.
pub open spec fn views(v: Seq<String>) -> Seq<Seq<char>> {
    Seq::new(v.len(), |i: int| v[i]@)
}

/// The views of a sequence of pairs of strings.
pub open spec fn pair_views(v: Seq<(String, String)>) -> Seq<(Seq<char>, Seq<char>)> {
    Seq::new(v.len(), |i: int| (v[i].0@, v[i].1@))
}

/// The characters of `s`, in order.
pub fn chars_of(s: &str) -> (v: Vec<char>)
    ensures
        v@ == s@,
{
    let mut v: Vec<char> = Vec::new();
    for c in it: s.chars()
        invariant
            v@ == it.seq().take(it.index() as int),
            it.seq() == s@,
    {
        v.push(c);
    }
    v
}

/// The string made of the characters `v[from..to]`.
pub fn string_of_range(v: &Vec<char>, from: usize, to: usize) -> (s: String)
    requires
        from <= to <= v.len(),
    ensures
        s@ == v@.subrange(from as int, to as int),
{
    let mut s = String::new();
    let mut i: usize = from;
    while i < to
        invariant
            from <= i <= to <= v.len(),
            s@ == v@.subrange(from as int, i as int),
        decreases to - i,
    {
        s.push(v[i]);
        i += 1;
    }
    s
}

/// The decimal digit `d` as a character.
pub open spec fn digit(d: nat) -> char {
    ((48 + d) as u8) as char
}

/// The decimal representation of `n`, without leading zeros.
pub open spec fn decimal(n: nat) -> Seq<char>
    decreases n,
{
    if n < 10 {
        seq![digit(n)]
    } else {
        decimal(n / 10).push(digit(n % 10))
    }
}

/// Appends the decimal representation of `n` to `s`.
pub fn push_decimal(s: &mut String, n: u128)
    ensures
        final(s)@ == old(s)@ + decimal(n as nat),
    decreases n,
{
    if n >= 10 {
        push_decimal(s, n / 10);
    }
    let d: u8 = (n % 10) as u8;
    let code: u8 = 48 + d;
    s.push(code as char);
}


/// Whether `i` is the last position of `c` in `s`.
pub open spec fn is_last_index_of(s: Seq<char>, c: char, i: int) -> bool {
    &&& 0 <= i < s.len()
    &&& s[i] == c
    &&& forall|j: int| i < j < s.len() ==> s[j] != c
}

/// The last position of `c` in `s`, or -1 where `c` does not occur.
pub open spec fn last_index_of(s: Seq<char>, c: char) -> int
    decreases s.len(),
{
    if s.len() == 0 {
        -1
    } else if s.last() == c {
        s.len() - 1
    } else {
        last_index_of(s.drop_last(), c)
    }
}

/// `last_index_of` is -1 exactly where the character does not occur, and
/// otherwise the one position that `is_last_index_of` accepts.
pub proof fn lemma_last_index_of(s: Seq<char>, c: char)
    ensures
        s.contains(c) <==> last_index_of(s, c) >= 0,
        !s.contains(c) ==> last_index_of(s, c) == -1,
        s.contains(c) ==> is_last_index_of(s, c, last_index_of(s, c)),
        forall|i: int| is_last_index_of(s, c, i) ==> i == last_index_of(s, c),
    decreases s.len(),
{
    if s.len() > 0 {
        let t = s.drop_last();
        lemma_last_index_of(t, c);
        if s.last() == c {
            assert(s[s.len() - 1] == c);
        } else {
            if t.contains(c) {
                let i = last_index_of(t, c);
                assert(s[i] == t[i]);
                assert forall|j: int| i < j < s.len() implies s[j] != c by {
                    if j < t.len() {
                        assert(t[j] == s[j]);
                    }
                }
            }
            if s.contains(c) {
                let i = choose|i: int| 0 <= i < s.len() && s[i] == c;
                assert(t[i] == c);
            }
        }
    }
}

/// The last position of `c` in `v`, if `c` occurs at all.
pub fn rfind_char(v: &Vec<char>, c: char) -> (at: Option<usize>)
    ensures
        match at {
            Some(i) => is_last_index_of(v@, c, i as int) && last_index_of(v@, c) == i,
            None => !v@.contains(c) && last_index_of(v@, c) == -1,
        },
{
    let mut i: usize = v.len();
    while i > 0
        invariant
            i <= v.len(),
            forall|j: int| i <= j < v.len() ==> v@[j] != c,
        decreases i,
    {
        i -= 1;
        if v[i] == c {
            proof {
                lemma_last_index_of(v@, c);
            }
            return Some(i);
        }
    }
    proof {
        lemma_last_index_of(v@, c);
    }
    None
}

/// Whether `i` is the first position of `c` in `s`.
pub open spec fn is_first_index_of(s: Seq<char>, c: char, i: int) -> bool {
    &&& 0 <= i < s.len()
    &&& s[i] == c
    &&& forall|j: int| 0 <= j < i ==> s[j] != c
}

/// The first position of `c` in `s`, or the length of `s` where `c` does
/// not occur.
pub open spec fn first_index_of(s: Seq<char>, c: char) -> int {
    if exists|i: int| is_first_index_of(s, c, i) {
        choose|i: int| is_first_index_of(s, c, i)
    } else {
        s.len() as int
    }
}

/// The first position of `c` in `v`, if `c` occurs at all.
pub fn find_char(v: &Vec<char>, c: char) -> (at: Option<usize>)
    ensures
        match at {
            Some(i) => is_first_index_of(v@, c, i as int) && first_index_of(v@, c) == i,
            None => !v@.contains(c) && first_index_of(v@, c) == v@.len(),
        },
{
    let mut i: usize = 0;
    while i < v.len()
        invariant
            i <= v.len(),
            forall|j: int| 0 <= j < i ==> v@[j] != c,
        decreases v.len() - i,
    {
        if v[i] == c {
            assert(is_first_index_of(v@, c, i as int));
            return Some(i);
        }
        i += 1;
    }
    None
}

/// The pieces into which the occurrences of `sep` cut `s`. There is one
/// piece more than there are occurrences, and a piece may be empty.
pub open spec fn split(s: Seq<char>, sep: char) -> Seq<Seq<char>>
    decreases s.len(),
{
    if s.len() == 0 {
        seq![Seq::<char>::empty()]
    } else {
        let before = split(s.drop_last(), sep);
        if s.last() == sep {
            before.push(Seq::<char>::empty())
        } else {
            before.update(before.len() - 1, before.last().push(s.last()))
        }
    }
}

/// There is always at least one piece.
pub proof fn lemma_split_nonempty(s: Seq<char>, sep: char)
    ensures
        split(s, sep).len() >= 1,
    decreases s.len(),
{
    if s.len() > 0 {
        lemma_split_nonempty(s.drop_last(), sep);
    }
}

/// Cuts `s` at each occurrence of `sep`.
pub fn split_on(s: &str, sep: char) -> (parts: Vec<String>)
    ensures
        views(parts@) == split(s@, sep),
{
    let chars = chars_of(s);
    let mut done: Vec<String> = Vec::new();
    let mut piece = String::new();
    let mut i: usize = 0;
    assert(chars@.take(0) =~= Seq::<char>::empty());
    assert(views(done@).push(piece@) =~= seq![Seq::<char>::empty()]);
    while i < chars.len()
        invariant
            i <= chars.len(),
            views(done@).push(piece@) == split(chars@.take(i as int), sep),
        decreases chars.len() - i,
    {
        let ghost before = split(chars@.take(i as int), sep);
        let ghost old_done = views(done@);
        let ghost old_piece = piece@;
        assert(chars@.take(i + 1).drop_last() =~= chars@.take(i as int));
        assert(chars@.take(i + 1).last() == chars@[i as int]);
        if chars[i] == sep {
            done.push(piece);
            piece = String::new();
            assert(views(done@) =~= old_done.push(old_piece));
        } else {
            piece.push(chars[i]);
            assert(old_done.push(piece@) =~= before.update(
                before.len() - 1,
                before.last().push(chars@[i as int]),
            ));
        }
        i += 1;
    }
    assert(chars@.take(i as int) =~= chars@);
    let ghost old_done = views(done@);
    done.push(piece);
    assert(views(done@) =~= old_done.push(piece@));
    done
}

/// Joins `parts`, putting `sep` between each two neighbours.
pub open spec fn joined(parts: Seq<Seq<char>>, sep: Seq<char>) -> Seq<char>
    decreases parts.len(),
{
    if parts.len() == 0 {
        Seq::<char>::empty()
    } else if parts.len() == 1 {
        parts[0]
    } else {
        joined(parts.drop_last(), sep) + sep + parts.last()
    }
}

/// Joins `parts`, putting `sep` between each two neighbours.
pub fn join(parts: &Vec<String>, sep: &str) -> (s: String)
    ensures
        s@ == joined(views(parts@), sep@),
{
    let mut s = String::new();
    let mut i: usize = 0;
    assert(views(parts@).take(0) =~= Seq::<Seq<char>>::empty());
    while i < parts.len()
        invariant
            i <= parts.len(),
            s@ == joined(views(parts@).take(i as int), sep@),
        decreases parts.len() - i,
    {
        assert(views(parts@).take(i + 1).drop_last() =~= views(parts@).take(i as int));
        assert(views(parts@).take(i + 1).last() == parts@[i as int]@);
        if i > 0 {
            s.append(sep);
        }
        s.append(parts[i].as_str());
        i += 1;
    }
    assert(views(parts@).take(i as int) =~= views(parts@));
    s
}

/// Two string slices are equal exactly when they hold the same characters.
pub assume_specification[ <str as PartialEq>::eq ](a: &str, b: &str) -> (same: bool)
    ensures
        same == (a@ == b@),
;

/// Whether `a` and `b` hold the same characters.
pub fn same_text(a: &str, b: &str) -> (same: bool)
    ensures
        same == (a@ == b@),
{
    a.eq(b)
}

/// Whether `pat` stands in `t` at position `i`.
pub open spec fn occurs_at(t: Seq<char>, i: int, pat: Seq<char>) -> bool {
    &&& 0 <= i
    &&& i + pat.len() <= t.len()
    &&& t.subrange(i, i + pat.len()) == pat
}

/// The part of `t` from position `i` on, with each occurrence of `pat`
/// replaced by `with`. Occurrences are found from left to right and do not
/// overlap. An empty `pat` occurs nowhere.
pub open spec fn replaced_from(t: Seq<char>, i: int, pat: Seq<char>, with: Seq<char>) -> Seq<char>
    decreases t.len() - i,
{
    if i < 0 || i >= t.len() {
        Seq::<char>::empty()
    } else if pat.len() > 0 && occurs_at(t, i, pat) {
        with + replaced_from(t, i + pat.len(), pat, with)
    } else {
        seq![t[i]] + replaced_from(t, i + 1, pat, with)
    }
}

/// `t` with each occurrence of `pat` replaced by `with`.
pub open spec fn replaced(t: Seq<char>, pat: Seq<char>, with: Seq<char>) -> Seq<char> {
    replaced_from(t, 0, pat, with)
}

/// Whether `pat` stands in `t` at position `i`.
pub fn has_at(t: &Vec<char>, i: usize, pat: &Vec<char>) -> (hit: bool)
    ensures
        hit == occurs_at(t@, i as int, pat@),
{
    if pat.len() > t.len() || i > t.len() - pat.len() {
        return false;
    }
    let mut j: usize = 0;
    while j < pat.len()
        invariant
            j <= pat.len(),
            i + pat.len() <= t.len(),
            forall|k: int| 0 <= k < j ==> t@[i + k] == pat@[k],
        decreases pat.len() - j,
    {
        if t[i + j] != pat[j] {
            assert(t@.subrange(i as int, i + pat.len())[j as int] == t@[i + j]);
            return false;
        }
        j += 1;
    }
    assert(t@.subrange(i as int, i + pat.len()) =~= pat@);
    true
}

/// Replaces each occurrence of `pat` in `t` by `with`.
pub fn replace_all(t: &str, pat: &str, with: &str) -> (s: String)
    ensures
        s@ == replaced(t@, pat@, with@),
{
    let text = chars_of(t);
    let pattern = chars_of(pat);
    let mut s = String::new();
    let mut i: usize = 0;
    while i < text.len()
        invariant
            i <= text.len(),
            text@ == t@,
            pattern@ == pat@,
            replaced(t@, pat@, with@) == s@ + replaced_from(t@, i as int, pat@, with@),
        decreases text.len() - i,
    {
        let ghost rest = replaced_from(t@, i as int, pat@, with@);
        let ghost before = s@;
        if pattern.len() > 0 && has_at(&text, i, &pattern) {
            s.append(with);
            i += pattern.len();
            assert(before + rest =~= s@ + replaced_from(t@, i as int, pat@, with@));
        } else {
            s.push(text[i]);
            i += 1;
            assert(before + rest =~= s@ + replaced_from(t@, i as int, pat@, with@));
        }
    }
    assert(s@ + Seq::<char>::empty() =~= s@);
    s
}

/// Whether `c` is white space: a character with the Unicode property
/// `White_Space`.
pub open spec fn is_space(c: char) -> bool {
    let n = c as u32;
    ||| 0x09 <= n <= 0x0D
    ||| n == 0x20
    ||| n == 0x85
    ||| n == 0xA0
    ||| n == 0x1680
    ||| 0x2000 <= n <= 0x200A
    ||| n == 0x2028
    ||| n == 0x2029
    ||| n == 0x202F
    ||| n == 0x205F
    ||| n == 0x3000
}

/// Whether `c` is white space.
pub fn char_is_space(c: char) -> (space: bool)
    ensures
        space == is_space(c),
{
    let n: u32 = c as u32;
    (0x09 <= n && n <= 0x0D) || n == 0x20 || n == 0x85 || n == 0xA0 || n == 0x1680 || (0x2000 <= n
        && n <= 0x200A) || n == 0x2028 || n == 0x2029 || n == 0x202F || n == 0x205F || n == 0x3000
}

/// The fields of `s`: its longest runs of characters that are not white
/// space, in order.
pub open spec fn fields(s: Seq<char>) -> Seq<Seq<char>>
    decreases s.len(),
{
    if s.len() == 0 {
        Seq::<Seq<char>>::empty()
    } else {
        let before = fields(s.drop_last());
        if is_space(s.last()) {
            before
        } else if s.len() >= 2 && !is_space(s[s.len() - 2]) {
            before.update(before.len() - 1, before.last().push(s.last()))
        } else {
            before.push(seq![s.last()])
        }
    }
}

/// Cuts `s` at white space into its fields.
pub fn split_fields(s: &str) -> (parts: Vec<String>)
    ensures
        views(parts@) == fields(s@),
{
    let chars = chars_of(s);
    let mut done: Vec<String> = Vec::new();
    let mut piece = String::new();
    let mut open = false;
    let mut i: usize = 0;
    assert(chars@.take(0) =~= Seq::<char>::empty());
    assert(views(done@) =~= Seq::<Seq<char>>::empty());
    while i < chars.len()
        invariant
            i <= chars.len(),
            open <==> (i > 0 && !is_space(chars@[i - 1])),
            open ==> views(done@).push(piece@) == fields(chars@.take(i as int)),
            !open ==> views(done@) == fields(chars@.take(i as int)),
        decreases chars.len() - i,
    {
        let ghost prefix = chars@.take(i as int);
        let ghost next = chars@.take(i + 1);
        let ghost old_done = views(done@);
        let ghost old_piece = piece@;
        assert(next.drop_last() =~= prefix);
        assert(next.last() == chars@[i as int]);
        if i > 0 {
            assert(next[next.len() - 2] == chars@[i - 1]);
        }
        let c = chars[i];
        if char_is_space(c) {
            if open {
                done.push(piece);
                piece = String::new();
                assert(views(done@) =~= old_done.push(old_piece));
            }
            open = false;
        } else {
            if open {
                piece.push(c);
                assert(old_done.push(piece@) =~= fields(prefix).update(
                    fields(prefix).len() - 1,
                    fields(prefix).last().push(c),
                ));
            } else {
                piece = String::new();
                piece.push(c);
                assert(piece@ =~= seq![c]);
            }
            open = true;
        }
        i += 1;
    }
    assert(chars@.take(i as int) =~= chars@);
    if open {
        let ghost old_done = views(done@);
        done.push(piece);
        assert(views(done@) =~= old_done.push(piece@));
    }
    done
}

/// `line` without one carriage return at its end, if it has one.
pub open spec fn without_cr(line: Seq<char>) -> Seq<char> {
    if line.len() > 0 && line.last() == '\r' {
        line.drop_last()
    } else {
        line
    }
}

/// The lines of `s`. A line ends with a line feed, or with a carriage
/// return and a line feed, neither of which belongs to it; what follows
/// the last line feed is a line of its own unless it is empty.
pub open spec fn lines(s: Seq<char>) -> Seq<Seq<char>> {
    let pieces = split(s, '\n');
    let ended = Seq::new((pieces.len() - 1) as nat, |i: int| without_cr(pieces[i]));
    if pieces.last().len() > 0 {
        ended.push(pieces.last())
    } else {
        ended
    }
}

/// Cuts `s` into its lines.
pub fn split_lines(s: &str) -> (parts: Vec<String>)
    ensures
        views(parts@) == lines(s@),
{
    let pieces = split_on(s, '\n');
    proof {
        lemma_split_nonempty(s@, '\n');
    }
    let ghost all = split(s@, '\n');
    let mut parts: Vec<String> = Vec::new();
    let mut i: usize = 0;
    let last: usize = pieces.len() - 1;
    while i < last
        invariant
            i <= last,
            last == pieces.len() - 1,
            views(pieces@) == all,
            parts.len() == i,
            forall|j: int| 0 <= j < i ==> parts@[j]@ == without_cr(all[j]),
        decreases last - i,
    {
        assert(all[i as int] == pieces@[i as int]@);
        let chars = chars_of(pieces[i].as_str());
        let line = if chars.len() > 0 && chars[chars.len() - 1] == '\r' {
            string_of_range(&chars, 0, chars.len() - 1)
        } else {
            pieces[i].clone()
        };
        parts.push(line);
        i += 1;
    }
    assert(all[last as int] == pieces@[last as int]@);
    let tail = chars_of(pieces[last].as_str());
    if tail.len() > 0 {
        parts.push(pieces[last].clone());
    }
    assert(views(parts@) =~= lines(s@));
    parts
}

} // verus!
