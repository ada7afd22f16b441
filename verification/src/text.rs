//! Building text: characters, decimal and hexadecimal numbers.
use vstd::prelude::*;
use vstd::string::{StringExecFns, StrSliceExecFns};

verus! {

/// Appends one character (`String::push`).
#[verifier::external_body]
pub fn push_char(s: &mut String, c: char)
    ensures
        final(s)@ == old(s)@.push(c),
{
    s.push(c);
}

/// The text of UTF-8 bytes (`core::str::from_utf8`): `None` exactly when
/// the bytes are not valid UTF-8.
#[verifier::external_body]
pub fn utf8_to_string(b: &[u8]) -> (r: Option<String>)
    ensures
        r is Some <==> vstd::utf8::valid_utf8(b@),
        r matches Some(s) ==> s@ == vstd::utf8::decode_utf8(b@),
{
    core::str::from_utf8(b).ok().map(|s| s.to_string())
}

/// `n` copies of `c`.
pub open spec fn repeat(c: char, n: nat) -> Seq<char> {
    Seq::new(n, |i: int| c)
}

/// `t` followed by spaces up to width `w`.
pub open spec fn padded_right(t: Seq<char>, w: nat) -> Seq<char> {
    t + repeat(' ', (if t.len() < w { w - t.len() } else { 0 }) as nat)
}

/// Spaces up to width `w` followed by `t`.
pub open spec fn padded_left(t: Seq<char>, w: nat) -> Seq<char> {
    repeat(' ', (if t.len() < w { w - t.len() } else { 0 }) as nat) + t
}

/// Appends `n` copies of `c`.
pub fn push_repeat(s: &mut String, c: char, n: usize)
    ensures
        final(s)@ == old(s)@ + repeat(c, n as nat),
{
    let mut k: usize = 0;
    while k < n
        invariant
            k <= n,
            s@ == old(s)@ + repeat(c, k as nat),
        decreases n - k,
    {
        push_char(s, c);
        assert(s@ =~= old(s)@ + repeat(c, (k + 1) as nat));
        k = k + 1;
    }
}

/// Appends `t` padded with spaces on the right to width `w`.
pub fn pad_right(s: &mut String, t: &str, w: usize)
    ensures
        final(s)@ == old(s)@ + padded_right(t@, w as nat),
{
    let n = t.unicode_len();
    push_str(s, t);
    let fill = if n < w { w - n } else { 0 };
    push_repeat(s, ' ', fill);
    assert(s@ =~= old(s)@ + padded_right(t@, w as nat));
}

/// Appends `t` padded with spaces on the left to width `w`.
pub fn pad_left(s: &mut String, t: &str, w: usize)
    ensures
        final(s)@ == old(s)@ + padded_left(t@, w as nat),
{
    let n = t.unicode_len();
    let fill = if n < w { w - n } else { 0 };
    push_repeat(s, ' ', fill);
    push_str(s, t);
    assert(s@ =~= old(s)@ + padded_left(t@, w as nat));
}

/// The characters of the pieces, one after another.
pub open spec fn concat_views(parts: Seq<&str>) -> Seq<char>
    decreases parts.len(),
{
    if parts.len() == 0 {
        Seq::empty()
    } else {
        concat_views(parts.drop_last()) + parts.last()@
    }
}

/// A single piece is its own text.
pub proof fn lemma_concat_single(x: &str)
    ensures
        concat_views(seq![x]) == x@,
{
    let s = seq![x];
    assert(s.len() == 1);
    assert(s.drop_last() =~= Seq::<&str>::empty());
    assert(s.last() == x);
    assert(concat_views(s.drop_last()) == Seq::<char>::empty());
    assert(concat_views(s) == concat_views(s.drop_last()) + s.last()@);
    assert(Seq::<char>::empty() + x@ =~= x@);
}

/// The pieces joined together.
pub fn join_strs(parts: &[&str]) -> (r: String)
    ensures
        r@ == concat_views(parts@),
{
    let mut s = String::new();
    let mut i: usize = 0;
    while i < parts.len()
        invariant
            i <= parts@.len(),
            s@ == concat_views(parts@.subrange(0, i as int)),
        decreases parts@.len() - i,
    {
        proof {
            assert(parts@.subrange(0, i as int + 1).drop_last() =~= parts@.subrange(0, i as int));
        }
        push_str(&mut s, parts[i]);
        i = i + 1;
    }
    assert(parts@.subrange(0, i as int) =~= parts@);
    s
}

/// The characters of each string.
pub open spec fn views(v: Seq<String>) -> Seq<Seq<char>> {
    v.map_values(|s: String| s@)
}

/// Appends a line.
pub fn push_line(lines: &mut Vec<String>, s: String)
    ensures
        views(final(lines)@) == views(old(lines)@).push(s@),
{
    let ghost v = s@;
    lines.push(s);
    assert(views(lines@) =~= views(old(lines)@).push(v));
}

/// Whether two strings have the same characters.
pub fn str_eq(a: &str, b: &str) -> (r: bool)
    ensures
        r == (a@ == b@),
{
    let n = a.unicode_len();
    if n != b.unicode_len() {
        return false;
    }
    let mut i: usize = 0;
    while i < n
        invariant
            n == a@.len(),
            n == b@.len(),
            i <= n,
            forall|k: int| 0 <= k < i ==> a@[k] == b@[k],
        decreases n - i,
    {
        if a.get_char(i) != b.get_char(i) {
            return false;
        }
        i = i + 1;
    }
    assert(a@ =~= b@);
    true
}

/// Whether `s` begins with `prefix`.
pub fn str_starts_with(s: &str, prefix: &str) -> (r: bool)
    ensures
        r == (prefix@.len() <= s@.len() && s@.subrange(0, prefix@.len() as int) == prefix@),
{
    let n = prefix.unicode_len();
    if n > s.unicode_len() {
        return false;
    }
    let mut i: usize = 0;
    while i < n
        invariant
            n == prefix@.len(),
            n <= s@.len(),
            i <= n,
            forall|k: int| 0 <= k < i ==> s@[k] == prefix@[k],
        decreases n - i,
    {
        if s.get_char(i) != prefix.get_char(i) {
            assert(s@.subrange(0, n as int)[i as int] != prefix@[i as int]);
            return false;
        }
        i = i + 1;
    }
    assert(s@.subrange(0, n as int) =~= prefix@);
    true
}

/// Appends a string slice.
pub fn push_str(s: &mut String, t: &str)
    ensures
        final(s)@ == old(s)@ + t@,
{
    s.append(t);
}

/// A fresh string holding `t`.
pub fn string_of(t: &str) -> (r: String)
    ensures
        r@ == t@,
{
    String::from_str(t)
}

/// The character of a hexadecimal digit, lower case.
pub open spec fn hex_digit(d: int) -> char {
    if d == 0 { '0' } else if d == 1 { '1' } else if d == 2 { '2' } else if d == 3 { '3' }
    else if d == 4 { '4' } else if d == 5 { '5' } else if d == 6 { '6' } else if d == 7 { '7' }
    else if d == 8 { '8' } else if d == 9 { '9' } else if d == 10 { 'a' } else if d == 11 { 'b' }
    else if d == 12 { 'c' } else if d == 13 { 'd' } else if d == 14 { 'e' } else { 'f' }
}

/// The character of a digit below sixteen.
pub fn digit_char(d: u64) -> (c: char)
    requires
        d < 16,
    ensures
        c == hex_digit(d as int),
{
    if d == 0 { '0' } else if d == 1 { '1' } else if d == 2 { '2' } else if d == 3 { '3' }
    else if d == 4 { '4' } else if d == 5 { '5' } else if d == 6 { '6' } else if d == 7 { '7' }
    else if d == 8 { '8' } else if d == 9 { '9' } else if d == 10 { 'a' } else if d == 11 { 'b' }
    else if d == 12 { 'c' } else if d == 13 { 'd' } else if d == 14 { 'e' } else { 'f' }
}

/// Decimal digits of `n`, without leading zeros.
pub open spec fn dec(n: nat) -> Seq<char>
    decreases n,
{
    if n < 10 {
        seq![hex_digit(n as int)]
    } else {
        dec(n / 10).push(hex_digit((n % 10) as int))
    }
}

/// Lower-case hexadecimal digits of `n`, without leading zeros.
pub open spec fn hex(n: nat) -> Seq<char>
    decreases n,
{
    if n < 16 {
        seq![hex_digit(n as int)]
    } else {
        hex(n / 16).push(hex_digit((n % 16) as int))
    }
}

/// Appends `n` in decimal.
pub fn push_dec(s: &mut String, n: u64)
    ensures
        final(s)@ == old(s)@ + dec(n as nat),
    decreases n,
{
    if n >= 10 {
        push_dec(s, n / 10);
    }
    push_char(s, digit_char(n % 10));
    assert(s@ =~= old(s)@ + dec(n as nat));
}

/// Appends `n` in decimal, for counts wider than 64 bits.
pub fn push_dec_wide(s: &mut String, n: u128)
    ensures
        final(s)@ == old(s)@ + dec(n as nat),
    decreases n,
{
    if n >= 10 {
        push_dec_wide(s, n / 10);
    }
    push_char(s, digit_char((n % 10) as u64));
    assert(s@ =~= old(s)@ + dec(n as nat));
}

/// Appends `n` in lower-case hexadecimal.
pub fn push_hex(s: &mut String, n: u64)
    ensures
        final(s)@ == old(s)@ + hex(n as nat),
    decreases n,
{
    if n >= 16 {
        push_hex(s, n / 16);
    }
    push_char(s, digit_char(n % 16));
    assert(s@ =~= old(s)@ + hex(n as nat));
}

/// `n` in decimal.
pub fn fmt_dec(n: u64) -> (r: String)
    ensures
        r@ == dec(n as nat),
{
    let mut s = String::new();
    push_dec(&mut s, n);
    assert(s@ =~= dec(n as nat));
    s
}

/// `n` in lower-case hexadecimal.
pub fn fmt_hex(n: u64) -> (r: String)
    ensures
        r@ == hex(n as nat),
{
    let mut s = String::new();
    push_hex(&mut s, n);
    assert(s@ =~= hex(n as nat));
    s
}

/// `n` in decimal, zero-padded to at least `width` digits.
pub open spec fn dec_pad(n: nat, width: nat) -> Seq<char> {
    Seq::new((if dec(n).len() < width { width - dec(n).len() } else { 0 }) as nat, |i: int| '0') + dec(n)
}

/// Appends `n` in decimal, zero-padded to at least `width` digits.
pub fn push_dec_pad(s: &mut String, n: u64, width: usize)
    ensures
        final(s)@ == old(s)@ + dec_pad(n as nat, width as nat),
{
    let d = fmt_dec(n);
    let len = d.as_str().unicode_len();
    let mut k: usize = len;
    while k < width
        invariant
            len == dec(n as nat).len(),
            len <= k,
            k <= width || k == len,
            s@ == old(s)@ + Seq::new((k - len) as nat, |i: int| '0'),
        decreases width - k,
    {
        push_char(s, '0');
        assert(s@ =~= old(s)@ + Seq::new((k + 1 - len) as nat, |i: int| '0'));
        k = k + 1;
    }
    push_str(s, d.as_str());
    assert(s@ =~= old(s)@ + dec_pad(n as nat, width as nat));
}

/// `n` in decimal, at least two digits (zero-padded).
pub open spec fn dec2(n: nat) -> Seq<char> {
    if n < 10 {
        seq!['0'] + dec(n)
    } else {
        dec(n)
    }
}

/// Appends `n` in decimal with at least two digits.
pub fn push_dec2(s: &mut String, n: u64)
    ensures
        final(s)@ == old(s)@ + dec2(n as nat),
{
    if n < 10 {
        push_char(s, '0');
    }
    push_dec(s, n);
    assert(s@ =~= old(s)@ + dec2(n as nat));
}

/// Characters of a boolean as Rust prints it.
pub open spec fn bool_text(b: bool) -> Seq<char> {
    if b {
        seq!['t', 'r', 'u', 'e']
    } else {
        seq!['f', 'a', 'l', 's', 'e']
    }
}

/// Appends `true` or `false`.
pub fn push_bool(s: &mut String, b: bool)
    ensures
        final(s)@ == old(s)@ + bool_text(b),
{
    if b {
        push_char(s, 't');
        push_char(s, 'r');
        push_char(s, 'u');
        push_char(s, 'e');
    } else {
        push_char(s, 'f');
        push_char(s, 'a');
        push_char(s, 'l');
        push_char(s, 's');
        push_char(s, 'e');
    }
    assert(s@ =~= old(s)@ + bool_text(b));
}

/// Unicode white space (the `White_Space` property).
pub open spec fn ws(c: char) -> bool {
    ('\u{9}' <= c <= '\u{d}') || c == ' ' || c == '\u{85}' || c == '\u{a0}' || c == '\u{1680}' || ('\u{2000}'
        <= c <= '\u{200a}') || c == '\u{2028}' || c == '\u{2029}' || c == '\u{202f}' || c == '\u{205f}' || c
        == '\u{3000}'
}

/// Whether a character is Unicode white space.
pub fn is_ws(c: char) -> (r: bool)
    ensures
        r == ws(c),
{
    (c >= '\u{9}' && c <= '\u{d}') || c == ' ' || c == '\u{85}' || c == '\u{a0}' || c == '\u{1680}' || (c
        >= '\u{2000}' && c <= '\u{200a}') || c == '\u{2028}' || c == '\u{2029}' || c == '\u{202f}' || c
        == '\u{205f}' || c == '\u{3000}'
}

/// The text without its leading white space.
pub open spec fn trim_front(s: Seq<char>) -> Seq<char>
    decreases s.len(),
{
    if s.len() > 0 && ws(s[0]) {
        trim_front(s.drop_first())
    } else {
        s
    }
}

/// The text without its trailing white space.
pub open spec fn trim_back(s: Seq<char>) -> Seq<char>
    decreases s.len(),
{
    if s.len() > 0 && ws(s.last()) {
        trim_back(s.drop_last())
    } else {
        s
    }
}

/// The text without leading and trailing white space.
pub open spec fn trimmed(s: Seq<char>) -> Seq<char> {
    trim_back(trim_front(s))
}

/// The characters of a string.
pub fn chars_of(s: &str) -> (r: Vec<char>)
    ensures
        r@ == s@,
{
    let mut v: Vec<char> = Vec::new();
    for c in it: s.chars()
        invariant
            v@ == it.seq().take(it.index() as int),
            it.seq() == s@,
    {
        v.push(c);
        proof {
            assert(it.seq().take(it.index() as int + 1) =~= v@);
        }
    }
    proof {
        assert(s@.take(s@.len() as int) =~= s@);
    }
    v
}

/// The characters `v[from..to]` as a string.
pub fn string_of_range(v: &Vec<char>, from: usize, to: usize) -> (r: String)
    requires
        from <= to <= v@.len(),
    ensures
        r@ == v@.subrange(from as int, to as int),
{
    let mut s = String::new();
    let mut i = from;
    while i < to
        invariant
            from <= i <= to,
            to <= v@.len(),
            s@ == v@.subrange(from as int, i as int),
        decreases to - i,
    {
        push_char(&mut s, v[i]);
        assert(s@ =~= v@.subrange(from as int, i as int + 1));
        i = i + 1;
    }
    s
}

/// Trimming the front of a suffix that starts with white space.
proof fn lemma_trim_front_step(s: Seq<char>, i: int)
    requires
        0 <= i < s.len(),
        ws(s[i]),
    ensures
        trim_front(s.subrange(i, s.len() as int)) == trim_front(s.subrange(i + 1, s.len() as int)),
{
    assert(s.subrange(i, s.len() as int).drop_first() =~= s.subrange(i + 1, s.len() as int));
}

/// Trimming the back of a prefix that ends with white space.
proof fn lemma_trim_back_step(s: Seq<char>, i: int, j: int)
    requires
        0 <= i < j <= s.len(),
        ws(s[j - 1]),
    ensures
        trim_back(s.subrange(i, j)) == trim_back(s.subrange(i, j - 1)),
{
    assert(s.subrange(i, j).drop_last() =~= s.subrange(i, j - 1));
}

/// The text without leading and trailing Unicode white space (`str::trim`).
pub fn trim_ws(s: &str) -> (r: String)
    ensures
        r@ == trimmed(s@),
{
    let cs = chars_of(s);
    let n = cs.len();
    let mut i: usize = 0;
    proof {
        assert(cs@.subrange(0, n as int) =~= cs@);
    }
    while i < n && is_ws(cs[i])
        invariant
            i <= n,
            n == cs@.len(),
            trim_front(cs@) == trim_front(cs@.subrange(i as int, n as int)),
        decreases n - i,
    {
        proof {
            lemma_trim_front_step(cs@, i as int);
        }
        i = i + 1;
    }
    assert(trim_front(cs@) == cs@.subrange(i as int, n as int));
    let mut j: usize = n;
    while j > i && is_ws(cs[j - 1])
        invariant
            i <= j <= n,
            n == cs@.len(),
            trim_back(cs@.subrange(i as int, n as int)) == trim_back(cs@.subrange(i as int, j as int)),
        decreases j - i,
    {
        proof {
            lemma_trim_back_step(cs@, i as int, j as int);
        }
        j = j - 1;
    }
    assert(trim_back(cs@.subrange(i as int, j as int)) == cs@.subrange(i as int, j as int));
    string_of_range(&cs, i, j)
}

/// `p` occurs in `s`.
pub open spec fn has_sub(s: Seq<char>, p: Seq<char>) -> bool {
    exists|i: int| 0 <= i && i + p.len() <= s.len() && #[trigger] s.subrange(i, i + p.len()) == p
}

/// Whether `v[at..at + p.len()]` is `p`.
fn matches_at(v: &Vec<char>, at: usize, p: &Vec<char>) -> (r: bool)
    requires
        at + p@.len() <= v@.len(),
    ensures
        r == (v@.subrange(at as int, at + p@.len()) == p@),
{
    let mut j: usize = 0;
    assert(v@.len() == v.len());
    while j < p.len()
        invariant
            j <= p@.len(),
            v@.len() <= usize::MAX,
            at + p@.len() <= v@.len(),
            v@.subrange(at as int, at + j) == p@.take(j as int),
        decreases p@.len() - j,
    {
        if v[at + j] != p[j] {
            assert(v@.subrange(at as int, at + p@.len())[j as int] != p@[j as int]);
            return false;
        }
        assert(v@.subrange(at as int, at + j + 1) =~= p@.take(j as int + 1));
        j = j + 1;
    }
    assert(p@.take(j as int) =~= p@);
    true
}

/// Whether `p` occurs in `s` (`str::contains`).
pub fn str_contains(s: &str, p: &str) -> (r: bool)
    ensures
        r == has_sub(s@, p@),
{
    let v = chars_of(s);
    let q = chars_of(p);
    if q.len() == 0 {
        assert(p@.len() == 0);
        assert(s@.subrange(0int, 0int + p@.len()) =~= p@);
        return true;
    }
    if q.len() > v.len() {
        return false;
    }
    let count = v.len() - q.len() + 1;
    let mut i: usize = 0;
    while i < count
        invariant
            count == v@.len() - q@.len() + 1,
            q@.len() <= v@.len(),
            v@ == s@,
            q@ == p@,
            forall|j: int| 0 <= j < i ==> #[trigger] v@.subrange(j, j + q@.len()) != q@,
        decreases count - i,
    {
        if matches_at(&v, i, &q) {
            return true;
        }
        i = i + 1;
    }
    false
}

/// The pieces of `s` between occurrences of `sep`, after the partial piece
/// `cur`; empty pieces included.
pub open spec fn split_from(s: Seq<char>, sep: char, cur: Seq<char>) -> Seq<Seq<char>>
    decreases s.len(),
{
    if s.len() == 0 {
        seq![cur]
    } else if s[0] == sep {
        seq![cur] + split_from(s.drop_first(), sep, Seq::empty())
    } else {
        split_from(s.drop_first(), sep, cur.push(s[0]))
    }
}

/// The pieces of `s` between occurrences of `sep` (`str::split` on a
/// character).
pub open spec fn split_on(s: Seq<char>, sep: char) -> Seq<Seq<char>> {
    split_from(s, sep, Seq::empty())
}

/// The pieces of `s` between occurrences of `sep`.
pub fn split_char(s: &str, sep: char) -> (r: Vec<String>)
    ensures
        views(r@) == split_on(s@, sep),
{
    let cs = chars_of(s);
    let n = cs.len();
    let mut parts: Vec<String> = Vec::new();
    let mut start: usize = 0;
    let mut i: usize = 0;
    proof {
        assert(cs@.subrange(0, n as int) =~= cs@);
        assert(cs@.subrange(0, 0) =~= Seq::<char>::empty());
        assert(views(parts@) + split_on(cs@, sep) =~= split_on(cs@, sep));
    }
    while i < n
        invariant
            start <= i <= n,
            n == cs@.len(),
            views(parts@) + split_from(cs@.subrange(i as int, n as int), sep, cs@.subrange(start as int, i as int))
                == split_on(cs@, sep),
        decreases n - i,
    {
        let ghost rest = cs@.subrange(i as int, n as int);
        let ghost cur = cs@.subrange(start as int, i as int);
        proof {
            assert(rest.drop_first() =~= cs@.subrange(i as int + 1, n as int));
            assert(rest[0] == cs@[i as int]);
        }
        if cs[i] == sep {
            let ghost before = views(parts@);
            let w = string_of_range(&cs, start, i);
            push_line(&mut parts, w);
            proof {
                assert(cs@.subrange(i as int + 1, i as int + 1) =~= Seq::<char>::empty());
                assert(before + seq![cur] + split_from(rest.drop_first(), sep, Seq::empty()) =~= before + (seq![cur]
                    + split_from(rest.drop_first(), sep, Seq::empty())));
            }
            start = i + 1;
        } else {
            proof {
                assert(cur.push(cs@[i as int]) =~= cs@.subrange(start as int, i as int + 1));
            }
        }
        i = i + 1;
    }
    proof {
        assert(cs@.subrange(n as int, n as int) =~= Seq::<char>::empty());
    }
    let w = string_of_range(&cs, start, n);
    push_line(&mut parts, w);
    parts
}

} // verus!
