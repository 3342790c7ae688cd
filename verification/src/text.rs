//! Character-level text operations with exact specifications.
//!
//! Every string is modelled by its view, the sequence of its characters.
//! The executable functions walk a string once, so they stay linear in its
//! length.

use vstd::prelude::*;

verus! {

/// Taken on trust of the standard library, not proved here: `String::push`
/// appends the one character to the end of the string and changes nothing
/// else.
pub assume_specification[ String::push ](s: &mut String, c: char)
    ensures
        final(s)@ == old(s)@.push(c),
;

/// The views of a sequence of strings, one per string, in order.
pub open spec fn views(v: Seq<String>) -> Seq<Seq<char>> {
    Seq::new(v.len(), |i: int| v[i]@)
}

/// The view of an optional string.
pub open spec fn optional_view(s: Option<String>) -> Option<Seq<char>> {
    match s {
        Some(s) => Some(s@),
        None => None,
    }
}

/// A copy of an optional string.
pub fn clone_optional(s: &Option<String>) -> (copy: Option<String>)
    ensures
        optional_view(copy) == optional_view(*s),
{
    match s {
        Some(s) => Some(s.clone()),
        None => None,
    }
}

/// A copy of the strings, in order.
pub fn clone_strings(v: &Vec<String>) -> (copy: Vec<String>)
    ensures
        views(copy@) == views(v@),
{
    let mut copy: Vec<String> = Vec::new();
    let mut i: usize = 0;
    while i < v.len()
        invariant
            i <= v.len(),
            copy@.len() == i,
            forall|k: int| 0 <= k < i ==> (#[trigger] copy@[k])@ == v@[k]@,
        decreases v.len() - i,
    {
        copy.push(v[i].clone());
        i += 1;
    }
    assert(views(copy@) =~= views(v@));
    copy
}

/// The characters of `s`, in order.
pub fn chars_of(s: &str) -> (v: Vec<char>)
    ensures
        v@ == s@,
{
    let mut v: Vec<char> = Vec::new();
    for c in it: s.chars()
        invariant
            v@ == it.seq().take(it.index() as int),
            it.seq() == s@,
    {
        v.push(c);
    }
    v
}

/// The string made of the characters `v[from..to]`.
pub fn text_of(v: &Vec<char>, from: usize, to: usize) -> (s: String)
    requires
        from <= to <= v.len(),
    ensures
        s@ == v@.subrange(from as int, to as int),
{
    let mut s = String::new();
    let mut i: usize = from;
    while i < to
        invariant
            from <= i <= to <= v.len(),
            s@ == v@.subrange(from as int, i as int),
        decreases to - i,
    {
        s.push(v[i]);
        i += 1;
        assert(v@.subrange(from as int, i as int) == v@.subrange(from as int, i - 1).push(
            v@[i - 1],
        ));
    }
    s
}

/// Appends the characters of `tail` to `out`.
pub fn push_text(out: &mut String, tail: &str)
    ensures
        final(out)@ == old(out)@ + tail@,
{
    for c in it: tail.chars()
        invariant
            out@ == old(out)@ + it.seq().take(it.index() as int),
            it.seq() == tail@,
    {
        out.push(c);
        assert(it.seq().take(it.index() + 1) == it.seq().take(it.index() as int).push(c));
    }
}

/// Whether `s` begins with `p`.
pub open spec fn has_prefix(s: Seq<char>, p: Seq<char>) -> bool {
    p.len() <= s.len() && s.take(p.len() as int) == p
}

/// Whether `s` ends with `p`.
pub open spec fn has_suffix(s: Seq<char>, p: Seq<char>) -> bool {
    p.len() <= s.len() && s.skip(s.len() - p.len()) == p
}

/// Whether the characters `v[at..]` begin with `p`.
pub fn starts_with_at(v: &Vec<char>, at: usize, p: &Vec<char>) -> (r: bool)
    requires
        at <= v.len(),
    ensures
        r == has_prefix(v@.skip(at as int), p@),
{
    if p.len() > v.len() - at {
        return false;
    }
    let mut i: usize = 0;
    while i < p.len()
        invariant
            at <= v.len(),
            p.len() <= v.len() - at,
            i <= p.len(),
            forall|k: int| 0 <= k < i ==> v@[at + k] == p@[k],
        decreases p.len() - i,
    {
        if v[at + i] != p[i] {
            assert(v@.skip(at as int).take(p.len() as int)[i as int] != p@[i as int]);
            return false;
        }
        i += 1;
    }
    assert(v@.skip(at as int).take(p.len() as int) =~= p@);
    true
}

/// Whether the two strings hold the same characters.
pub fn same_text(a: &str, b: &str) -> (r: bool)
    ensures
        r == (a@ == b@),
{
    let x = chars_of(a);
    let y = chars_of(b);
    if x.len() != y.len() {
        return false;
    }
    let r = starts_with_at(&x, 0, &y);
    assert(x@.skip(0) == x@);
    assert(x@.take(y@.len() as int) == x@);
    r
}

/// Whether `s` ends with `p`.
pub fn ends_with(s: &str, p: &str) -> (r: bool)
    ensures
        r == has_suffix(s@, p@),
{
    let x = chars_of(s);
    let y = chars_of(p);
    if y.len() > x.len() {
        return false;
    }
    let at: usize = x.len() - y.len();
    let r = starts_with_at(&x, at, &y);
    assert(x@.skip(at as int).take(y@.len() as int) == x@.skip(at as int));
    r
}

/// The characters that separate words: those that Unicode classes as white
/// space.
pub open spec fn is_space(c: char) -> bool {
    let n = c as u32;
    ||| 0x09 <= n <= 0x0D
    ||| n == 0x20
    ||| n == 0x85
    ||| n == 0xA0
    ||| n == 0x1680
    ||| 0x2000 <= n <= 0x200A
    ||| n == 0x2028
    ||| n == 0x2029
    ||| n == 0x202F
    ||| n == 0x205F
    ||| n == 0x3000
}

/// Whether `c` separates words.
pub fn char_is_space(c: char) -> (r: bool)
    ensures
        r == is_space(c),
{
    let n: u32 = c as u32;
    (0x09 <= n && n <= 0x0D) || n == 0x20 || n == 0x85 || n == 0xA0 || n == 0x1680 || (0x2000 <= n
        && n <= 0x200A) || n == 0x2028 || n == 0x2029 || n == 0x202F || n == 0x205F || n == 0x3000
}

/// `cur` as a one-word sequence, or nothing when `cur` is empty.
pub open spec fn closed_word(cur: Seq<char>) -> Seq<Seq<char>> {
    if cur.len() > 0 {
        seq![cur]
    } else {
        Seq::empty()
    }
}

/// The words of `s[i..]`, given that the word being read so far is `cur`.
pub open spec fn words_from(s: Seq<char>, i: int, cur: Seq<char>) -> Seq<Seq<char>>
    decreases s.len() - i,
{
    if i < 0 || i >= s.len() {
        closed_word(cur)
    } else if is_space(s[i]) {
        closed_word(cur) + words_from(s, i + 1, Seq::empty())
    } else {
        words_from(s, i + 1, cur.push(s[i]))
    }
}

/// The words of `s`: its maximal runs of characters that are not spaces, in
/// order.
pub open spec fn words(s: Seq<char>) -> Seq<Seq<char>> {
    words_from(s, 0, Seq::empty())
}

/// A word: at least one character, none of them a space.
pub open spec fn is_word(w: Seq<char>) -> bool {
    w.len() > 0 && forall|k: int| 0 <= k < w.len() ==> !is_space(#[trigger] w[k])
}

proof fn lemma_words_from_are_words(s: Seq<char>, i: int, cur: Seq<char>)
    requires
        0 <= i <= s.len(),
        forall|k: int| 0 <= k < cur.len() ==> !is_space(#[trigger] cur[k]),
    ensures
        forall|w: int|
            0 <= w < words_from(s, i, cur).len() ==> is_word(#[trigger] words_from(s, i, cur)[w]),
    decreases s.len() - i,
{
    let all = words_from(s, i, cur);
    if i >= s.len() {
        assert forall|w: int| 0 <= w < all.len() implies is_word(#[trigger] all[w]) by {
            assert(all[w] == cur);
        }
    } else if is_space(s[i]) {
        let rest = words_from(s, i + 1, Seq::empty());
        lemma_words_from_are_words(s, i + 1, Seq::empty());
        assert forall|w: int| 0 <= w < all.len() implies is_word(#[trigger] all[w]) by {
            if w < closed_word(cur).len() {
                assert(all[w] == cur);
            } else {
                assert(all[w] == rest[w - closed_word(cur).len()]);
            }
        }
    } else {
        let next = cur.push(s[i]);
        assert forall|k: int| 0 <= k < next.len() implies !is_space(#[trigger] next[k]) by {
            if k < cur.len() {
                assert(next[k] == cur[k]);
            }
        }
        lemma_words_from_are_words(s, i + 1, next);
        assert(all == words_from(s, i + 1, next));
    }
}

proof fn lemma_words_from_are_few(s: Seq<char>, i: int, cur: Seq<char>)
    requires
        0 <= i <= s.len(),
    ensures
        words_from(s, i, cur).len() <= s.len() - i + closed_word(cur).len(),
    decreases s.len() - i,
{
    if i >= s.len() {
    } else if is_space(s[i]) {
        lemma_words_from_are_few(s, i + 1, Seq::empty());
    } else {
        lemma_words_from_are_few(s, i + 1, cur.push(s[i]));
    }
}

/// The characters of `s[i..]` that are no spaces, in order.
pub open spec fn solid_from(s: Seq<char>, i: int) -> Seq<char>
    decreases s.len() - i,
{
    if i < 0 || i >= s.len() {
        Seq::empty()
    } else if is_space(s[i]) {
        solid_from(s, i + 1)
    } else {
        seq![s[i]] + solid_from(s, i + 1)
    }
}

/// The texts one after the other.
pub open spec fn flat(parts: Seq<Seq<char>>) -> Seq<char>
    decreases parts.len(),
{
    if parts.len() == 0 {
        Seq::empty()
    } else {
        parts[0] + flat(parts.drop_first())
    }
}

proof fn lemma_words_from_hold_all(s: Seq<char>, i: int, cur: Seq<char>)
    requires
        0 <= i <= s.len(),
    ensures
        flat(words_from(s, i, cur)) == cur + solid_from(s, i),
    decreases s.len() - i,
{
    let all = words_from(s, i, cur);
    if i >= s.len() {
        if cur.len() > 0 {
            assert(all.drop_first() =~= Seq::<Seq<char>>::empty());
            assert(cur + flat(Seq::<Seq<char>>::empty()) =~= cur + solid_from(s, i));
        } else {
            assert(Seq::<char>::empty() =~= cur + solid_from(s, i));
        }
    } else if is_space(s[i]) {
        let rest = words_from(s, i + 1, Seq::empty());
        lemma_words_from_hold_all(s, i + 1, Seq::empty());
        assert(Seq::<char>::empty() + solid_from(s, i + 1) =~= solid_from(s, i + 1));
        if cur.len() > 0 {
            assert(all.drop_first() =~= rest);
        } else {
            assert(all =~= rest);
            assert(flat(rest) =~= cur + solid_from(s, i));
        }
    } else {
        lemma_words_from_hold_all(s, i + 1, cur.push(s[i]));
        assert(cur.push(s[i]) + solid_from(s, i + 1) =~= cur + solid_from(s, i));
    }
}

/// No word of a text is empty and no word holds a space; the words hold, in
/// order, exactly the characters of the text that are no spaces; and there
/// are no more words than the text has characters.
pub proof fn lemma_words(s: Seq<char>)
    ensures
        forall|w: int| 0 <= w < words(s).len() ==> is_word(#[trigger] words(s)[w]),
        flat(words(s)) == solid_from(s, 0),
        words(s).len() <= s.len(),
{
    lemma_words_from_are_words(s, 0, Seq::empty());
    lemma_words_from_hold_all(s, 0, Seq::empty());
    lemma_words_from_are_few(s, 0, Seq::empty());
    assert(Seq::<char>::empty() + solid_from(s, 0) =~= solid_from(s, 0));
}

/// Splits `s` into its words.
pub fn split_words(s: &str) -> (out: Vec<String>)
    ensures
        views(out@) == words(s@),
{
    let v = chars_of(s);
    let mut out: Vec<String> = Vec::new();
    let mut start: usize = 0;
    let mut i: usize = 0;
    proof {
        assert(views(out@) =~= Seq::<Seq<char>>::empty());
        assert(v@.subrange(0, 0) =~= Seq::<char>::empty());
        assert(views(out@) + words(s@) =~= words(s@));
    }
    while i < v.len()
        invariant
            v@ == s@,
            start <= i <= v.len(),
            words(s@) == views(out@) + words_from(v@, i as int, v@.subrange(start as int, i as int)),
        decreases v.len() - i,
    {
        let ghost cur = v@.subrange(start as int, i as int);
        if char_is_space(v[i]) {
            if start < i {
                let word = text_of(&v, start, i);
                let ghost before = views(out@);
                out.push(word);
                assert(views(out@) =~= before + closed_word(cur));
            } else {
                assert(closed_word(cur) =~= Seq::<Seq<char>>::empty());
            }
            start = i + 1;
            assert(v@.subrange(start as int, i + 1) =~= Seq::<char>::empty());
        } else {
            assert(v@.subrange(start as int, i + 1) =~= cur.push(v@[i as int]));
        }
        i += 1;
    }
    let ghost cur = v@.subrange(start as int, i as int);
    if start < i {
        let word = text_of(&v, start, i);
        let ghost before = views(out@);
        out.push(word);
        assert(views(out@) =~= before + closed_word(cur));
    } else {
        assert(views(out@) + closed_word(cur) =~= views(out@));
    }
    out
}

/// The number of words of `s`.
pub fn count_words(s: &str) -> (n: usize)
    ensures
        n == words(s@).len(),
{
    let v = chars_of(s);
    let mut n: usize = 0;
    let mut inside: bool = false;
    let mut i: usize = 0;
    let ghost mut cur: Seq<char> = Seq::empty();
    while i < v.len()
        invariant
            v@ == s@,
            i <= v.len(),
            inside == (cur.len() > 0),
            n + closed_word(cur).len() <= i,
            words(s@).len() == n + words_from(v@, i as int, cur).len(),
        decreases v.len() - i,
    {
        if char_is_space(v[i]) {
            if inside {
                n += 1;
            }
            inside = false;
            proof {
                cur = Seq::empty();
            }
        } else {
            inside = true;
            proof {
                cur = cur.push(v@[i as int]);
            }
        }
        i += 1;
    }
    if inside {
        n += 1;
    }
    n
}

/// The lower-case hexadecimal digit for `d`, where `0 <= d < 16`.
pub open spec fn hex_digit(d: int) -> char {
    if d == 0 {
        '0'
    } else if d == 1 {
        '1'
    } else if d == 2 {
        '2'
    } else if d == 3 {
        '3'
    } else if d == 4 {
        '4'
    } else if d == 5 {
        '5'
    } else if d == 6 {
        '6'
    } else if d == 7 {
        '7'
    } else if d == 8 {
        '8'
    } else if d == 9 {
        '9'
    } else if d == 10 {
        'a'
    } else if d == 11 {
        'b'
    } else if d == 12 {
        'c'
    } else if d == 13 {
        'd'
    } else if d == 14 {
        'e'
    } else {
        'f'
    }
}

/// `n` in decimal without leading zeros; zero is `"0"`.
pub open spec fn dec_digits(n: nat) -> Seq<char>
    decreases n,
{
    if n < 10 {
        seq![hex_digit(n as int)]
    } else {
        dec_digits(n / 10).push(hex_digit((n % 10) as int))
    }
}

/// `n` in lower-case hexadecimal without leading zeros; zero is `"0"`.
pub open spec fn hex_digits(n: nat) -> Seq<char>
    decreases n,
{
    if n < 16 {
        seq![hex_digit(n as int)]
    } else {
        hex_digits(n / 16).push(hex_digit((n % 16) as int))
    }
}

fn digit_char(d: u64) -> (c: char)
    requires
        d < 16,
    ensures
        c == hex_digit(d as int),
{
    if d == 0 {
        '0'
    } else if d == 1 {
        '1'
    } else if d == 2 {
        '2'
    } else if d == 3 {
        '3'
    } else if d == 4 {
        '4'
    } else if d == 5 {
        '5'
    } else if d == 6 {
        '6'
    } else if d == 7 {
        '7'
    } else if d == 8 {
        '8'
    } else if d == 9 {
        '9'
    } else if d == 10 {
        'a'
    } else if d == 11 {
        'b'
    } else if d == 12 {
        'c'
    } else if d == 13 {
        'd'
    } else if d == 14 {
        'e'
    } else {
        'f'
    }
}

/// Appends `n` in decimal to `out`.
pub fn push_dec(out: &mut String, n: u64)
    ensures
        final(out)@ == old(out)@ + dec_digits(n as nat),
    decreases n,
{
    if n < 10 {
        out.push(digit_char(n));
        assert(old(out)@.push(hex_digit(n as int)) =~= old(out)@ + dec_digits(n as nat));
    } else {
        push_dec(out, n / 10);
        out.push(digit_char(n % 10));
        assert(old(out)@ + dec_digits(n as nat) =~= (old(out)@ + dec_digits((n / 10) as nat)).push(
            hex_digit((n % 10) as int),
        ));
    }
}

/// Appends `n` in lower-case hexadecimal to `out`.
pub fn push_hex(out: &mut String, n: u64)
    ensures
        final(out)@ == old(out)@ + hex_digits(n as nat),
    decreases n,
{
    if n < 16 {
        out.push(digit_char(n));
        assert(old(out)@.push(hex_digit(n as int)) =~= old(out)@ + hex_digits(n as nat));
    } else {
        push_hex(out, n / 16);
        out.push(digit_char(n % 16));
        assert(old(out)@ + hex_digits(n as nat) =~= (old(out)@ + hex_digits((n / 16) as nat)).push(
            hex_digit((n % 16) as int),
        ));
    }
}

/// `n` in decimal, with a leading `-` when it is negative.
pub open spec fn decimal(n: int) -> Seq<char> {
    if n < 0 {
        seq!['-'] + dec_digits((-n) as nat)
    } else {
        dec_digits(n as nat)
    }
}

/// `n` in decimal.
pub fn decimal_text(n: i64) -> (s: String)
    ensures
        s@ == decimal(n as int),
{
    let mut s = String::new();
    if n < 0 {
        s.push('-');
        let m: u64 = if n == i64::MIN {
            0x8000_0000_0000_0000u64
        } else {
            (-n) as u64
        };
        push_dec(&mut s, m);
    } else {
        push_dec(&mut s, n as u64);
        assert(Seq::<char>::empty() + dec_digits(n as nat) =~= dec_digits(n as nat));
    }
    s
}

/// How one character is written so that it is printable ASCII: the usual
/// backslash forms for tab, carriage return, line feed, the two quotes and
/// the backslash; printable ASCII as it is; every other character as
/// `\u{..}` with its code in hexadecimal.
pub open spec fn escape_char(c: char) -> Seq<char> {
    if c == '\t' {
        seq!['\\', 't']
    } else if c == '\r' {
        seq!['\\', 'r']
    } else if c == '\n' {
        seq!['\\', 'n']
    } else if c == '\'' {
        seq!['\\', '\'']
    } else if c == '"' {
        seq!['\\', '"']
    } else if c == '\\' {
        seq!['\\', '\\']
    } else if 0x20 <= c as u32 <= 0x7e {
        seq![c]
    } else {
        seq!['\\', 'u', '{'] + hex_digits(c as u32 as nat) + seq!['}']
    }
}

/// `s` with every character escaped.
pub open spec fn escaped(s: Seq<char>) -> Seq<char>
    decreases s.len(),
{
    if s.len() == 0 {
        Seq::empty()
    } else {
        escaped(s.drop_last()) + escape_char(s.last())
    }
}

fn push_escaped_char(out: &mut String, c: char)
    ensures
        final(out)@ == old(out)@ + escape_char(c),
{
    let n: u32 = c as u32;
    if c == '\t' {
        out.push('\\');
        out.push('t');
    } else if c == '\r' {
        out.push('\\');
        out.push('r');
    } else if c == '\n' {
        out.push('\\');
        out.push('n');
    } else if c == '\'' {
        out.push('\\');
        out.push('\'');
    } else if c == '"' {
        out.push('\\');
        out.push('"');
    } else if c == '\\' {
        out.push('\\');
        out.push('\\');
    } else if 0x20 <= n && n <= 0x7e {
        out.push(c);
    } else {
        out.push('\\');
        out.push('u');
        out.push('{');
        push_hex(out, n as u64);
        out.push('}');
    }
    assert(out@ =~= old(out)@ + escape_char(c));
}

/// Escapes every character of `s`.
pub fn escape(s: &str) -> (out: String)
    ensures
        out@ == escaped(s@),
{
    let mut out = String::new();
    for c in it: s.chars()
        invariant
            out@ == escaped(it.seq().take(it.index() as int)),
            it.seq() == s@,
    {
        push_escaped_char(&mut out, c);
        assert(it.seq().take(it.index() + 1).drop_last() =~= it.seq().take(it.index() as int));
    }
    assert(s@.take(s@.len() as int) =~= s@);
    out
}

/// Whether `c` is a printable ASCII character.
pub open spec fn is_printable(c: char) -> bool {
    0x20 <= c as u32 <= 0x7e
}

proof fn lemma_hex_digits_are_printable(n: nat)
    ensures
        forall|k: int| 0 <= k < hex_digits(n).len() ==> is_printable(#[trigger] hex_digits(n)[k]),
    decreases n,
{
    if n >= 16 {
        lemma_hex_digits_are_printable(n / 16);
        let head = hex_digits(n / 16);
        assert forall|k: int| 0 <= k < hex_digits(n).len() implies is_printable(
            #[trigger] hex_digits(n)[k],
        ) by {
            if k < head.len() {
                assert(hex_digits(n)[k] == head[k]);
            }
        }
    }
}

/// Every escaped text is printable ASCII.
pub proof fn lemma_escaped_is_printable(s: Seq<char>)
    ensures
        forall|k: int| 0 <= k < escaped(s).len() ==> is_printable(#[trigger] escaped(s)[k]),
    decreases s.len(),
{
    if s.len() > 0 {
        let c = s.last();
        lemma_escaped_is_printable(s.drop_last());
        lemma_hex_digits_are_printable(c as u32 as nat);
        let head = escaped(s.drop_last());
        let tail = escape_char(c);
        assert forall|k: int| 0 <= k < tail.len() implies is_printable(#[trigger] tail[k]) by {
            let d = hex_digits(c as u32 as nat);
            if tail == seq!['\\', 'u', '{'] + d + seq!['}'] {
                if 3 <= k < 3 + d.len() {
                    assert(tail[k] == d[k - 3]);
                }
            }
        }
        assert forall|k: int| 0 <= k < escaped(s).len() implies is_printable(
            #[trigger] escaped(s)[k],
        ) by {
            if k < head.len() {
                assert(escaped(s)[k] == head[k]);
            } else {
                assert(escaped(s)[k] == tail[k - head.len()]);
            }
        }
    }
}

/// The parts in order, with `sep` between each two neighbours.
pub open spec fn joined(parts: Seq<Seq<char>>, sep: Seq<char>) -> Seq<char>
    decreases parts.len(),
{
    if parts.len() == 0 {
        Seq::empty()
    } else if parts.len() == 1 {
        parts[0]
    } else {
        joined(parts.drop_last(), sep) + sep + parts.last()
    }
}

/// Joins the parts with `sep` between them.
pub fn join(parts: &Vec<String>, sep: &str) -> (out: String)
    ensures
        out@ == joined(views(parts@), sep@),
{
    let mut out = String::new();
    let mut i: usize = 0;
    while i < parts.len()
        invariant
            i <= parts.len(),
            out@ == joined(views(parts@).take(i as int), sep@),
        decreases parts.len() - i,
    {
        if i > 0 {
            push_text(&mut out, sep);
        }
        push_text(&mut out, parts[i].as_str());
        proof {
            let next = views(parts@).take(i + 1);
            assert(next.drop_last() =~= views(parts@).take(i as int));
            assert(next.last() == parts@[i as int]@);
            if i == 0 {
                assert(Seq::<char>::empty() + parts@[0]@ =~= parts@[0]@);
            }
        }
        i += 1;
    }
    assert(views(parts@).take(parts@.len() as int) =~= views(parts@));
    out
}

} // verus!
