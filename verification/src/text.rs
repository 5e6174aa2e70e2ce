//! Small verified string building blocks shared by the rest of the crate.
use vstd::prelude::*;

verus! {

/// The character of a decimal digit.
pub open spec fn digit_char(d: nat) -> char {
    if d == 0 { '0' } else if d == 1 { '1' } else if d == 2 { '2' } else if d == 3 { '3' }
    else if d == 4 { '4' } else if d == 5 { '5' } else if d == 6 { '6' } else if d == 7 { '7' }
    else if d == 8 { '8' } else { '9' }
}

/// The decimal representation of a natural number, without leading zeros.
pub open spec fn decimal(n: nat) -> Seq<char>
    decreases n,
{
    if n < 10 {
        seq![digit_char(n)]
    } else {
        decimal(n / 10).push(digit_char(n % 10))
    }
}

/// Appends one character to a string (`String::push`).
#[verifier::external_body]
pub(crate) fn push_char(s: &mut String, c: char)
    ensures
        final(s)@ == old(s)@.push(c),
{
    s.push(c)
}

/// Builds an owned string from a string slice.
pub fn owned(s: &str) -> (r: String)
    ensures
        r@ == s@,
{
    String::from_str(s)
}

fn digit(d: u128) -> (c: char)
    requires
        d < 10,
    ensures
        c == digit_char(d as nat),
{
    match d {
        0 => '0',
        1 => '1',
        2 => '2',
        3 => '3',
        4 => '4',
        5 => '5',
        6 => '6',
        7 => '7',
        8 => '8',
        _ => '9',
    }
}

/// Renders a number in decimal.
pub fn to_decimal(n: u128) -> (r: String)
    ensures
        r@ == decimal(n as nat),
    decreases n,
{
    if n < 10 {
        let mut s = String::new();
        push_char(&mut s, digit(n));
        s
    } else {
        let mut s = to_decimal(n / 10);
        push_char(&mut s, digit(n % 10));
        s
    }
}

} // verus!

verus! {

/// Whether two strings hold the same characters.
pub fn str_eq(a: &str, b: &str) -> (r: bool)
    ensures
        r == (a@ == b@),
{
    let n = a.unicode_len();
    let m = b.unicode_len();
    if n != m {
        return false;
    }
    let mut i: usize = 0;
    while i < n
        invariant
            n == a@.len(),
            m == b@.len(),
            n == m,
            i <= n,
            a@.take(i as int) == b@.take(i as int),
        decreases n - i,
    {
        if a.get_char(i) != b.get_char(i) {
            return false;
        }
        proof {
            assert(a@.take(i + 1) =~= a@.take(i as int).push(a@[i as int]));
            assert(b@.take(i + 1) =~= b@.take(i as int).push(b@[i as int]));
        }
        i = i + 1;
    }
    proof {
        assert(a@ =~= a@.take(n as int));
        assert(b@ =~= b@.take(n as int));
    }
    true
}

/// A copy of a list of strings.
pub fn clone_strings(v: &Vec<String>) -> (r: Vec<String>)
    ensures
        r@ == v@,
{
    let mut r: Vec<String> = Vec::new();
    let mut i: usize = 0;
    while i < v.len()
        invariant
            i <= v.len(),
            r@ == v@.take(i as int),
        decreases v.len() - i,
    {
        r.push(v[i].clone());
        proof {
            assert(v@.take(i + 1) =~= v@.take(i as int).push(v@[i as int]));
        }
        i = i + 1;
    }
    proof {
        assert(v@.take(v.len() as int) =~= v@);
    }
    r
}

/// A copy of an optional string.
pub fn clone_opt_string(v: &Option<String>) -> (r: Option<String>)
    ensures
        r == *v,
{
    match v {
        Some(s) => Some(s.clone()),
        None => None,
    }
}

} // verus!

verus! {

/// Text that can be turned into an owned string: `&str` and `String`.
pub trait IntoText {
    /// The characters of the text.
    spec fn text_view(&self) -> Seq<char>;

    /// The text as an owned string.
    fn into_text(self) -> (r: String)
        ensures
            r@ == self.text_view(),
    ;
}

impl<'a> IntoText for &'a str {
    open spec fn text_view(&self) -> Seq<char> {
        (**self)@
    }

    fn into_text(self) -> (r: String) {
        String::from_str(self)
    }
}

impl IntoText for String {
    open spec fn text_view(&self) -> Seq<char> {
        (*self)@
    }

    fn into_text(self) -> (r: String) {
        self
    }
}

} // verus!

verus! {

/// The views of a sequence of strings.
pub open spec fn strs_view(v: Seq<String>) -> Seq<Seq<char>> {
    v.map_values(|s: String| s@)
}

/// The pieces of `s` between occurrences of `sep`, empty pieces included
/// (`str::split` with a character).
pub open spec fn split_char(s: Seq<char>, sep: char) -> Seq<Seq<char>>
    decreases s.len(),
{
    if s.len() == 0 {
        seq![Seq::<char>::empty()]
    } else {
        let p = split_char(s.drop_last(), sep);
        if s.last() == sep {
            p.push(Seq::<char>::empty())
        } else {
            p.update(p.len() - 1, p.last().push(s.last()))
        }
    }
}

/// Splitting always gives at least one piece.
pub proof fn lemma_split_nonempty(s: Seq<char>, sep: char)
    ensures
        split_char(s, sep).len() >= 1,
    decreases s.len(),
{
    if s.len() > 0 {
        lemma_split_nonempty(s.drop_last(), sep);
    }
}

/// Splits `s` at every `sep`.
pub fn split_by(s: &str, sep: char) -> (r: Vec<String>)
    ensures
        strs_view(r@) == split_char(s@, sep),
{
    let n = s.unicode_len();
    let mut acc: Vec<String> = Vec::new();
    let mut cur = String::new();
    let mut i: usize = 0;
    while i < n
        invariant
            n == s@.len(),
            i <= n,
            strs_view(acc@).push(cur@) == split_char(s@.take(i as int), sep),
        decreases n - i,
    {
        let c = s.get_char(i);
        proof {
            assert(s@.take(i + 1).drop_last() =~= s@.take(i as int));
            assert(s@.take(i + 1).last() == c);
        }
        if c == sep {
            let ghost old_acc = acc@;
            let ghost old_cur = cur@;
            acc.push(cur);
            cur = String::new();
            proof {
                assert(strs_view(acc@) =~= strs_view(old_acc).push(old_cur));
                assert(strs_view(acc@).push(cur@) =~= split_char(s@.take(i + 1), sep));
            }
        } else {
            let ghost old_cur = cur@;
            push_char(&mut cur, c);
            proof {
                assert(strs_view(acc@).push(cur@) =~= strs_view(acc@).push(old_cur).update(
                    strs_view(acc@).len() as int,
                    old_cur.push(c),
                ));
            }
        }
        i = i + 1;
    }
    proof {
        assert(s@.take(n as int) =~= s@);
    }
    let ghost before = acc@;
    acc.push(cur);
    proof {
        assert(strs_view(acc@) =~= strs_view(before).push(cur@));
    }
    acc
}

/// `needle` occurs in `hay` starting at position `i`.
pub open spec fn occurs_at(hay: Seq<char>, needle: Seq<char>, i: int) -> bool {
    0 <= i && i + needle.len() <= hay.len() && hay.subrange(i, i + needle.len()) == needle
}

/// `needle` occurs somewhere in `hay` (`str::contains`).
pub open spec fn contains_seq(hay: Seq<char>, needle: Seq<char>) -> bool {
    exists|i: int| #[trigger] occurs_at(hay, needle, i)
}

/// `hay` begins with `prefix`.
pub open spec fn has_prefix(hay: Seq<char>, prefix: Seq<char>) -> bool {
    prefix.len() <= hay.len() && hay.subrange(0, prefix.len() as int) == prefix
}

/// `hay` ends with `suffix`.
pub open spec fn has_suffix(hay: Seq<char>, suffix: Seq<char>) -> bool {
    suffix.len() <= hay.len() && hay.subrange(hay.len() - suffix.len(), hay.len() as int) == suffix
}

fn occurs_at_exec(hay: &str, needle: &str, i: usize, hn: usize, nn: usize) -> (r: bool)
    requires
        hn == hay@.len(),
        nn == needle@.len(),
        i + nn <= hn,
    ensures
        r == occurs_at(hay@, needle@, i as int),
{
    let mut j: usize = 0;
    while j < nn
        invariant
            hn == hay@.len(),
            nn == needle@.len(),
            i + nn <= hn,
            j <= nn,
            hay@.subrange(i as int, i + j) == needle@.take(j as int),
        decreases nn - j,
    {
        if hay.get_char(i + j) != needle.get_char(j) {
            proof {
                assert(hay@.subrange(i as int, i + nn)[j as int] == hay@[i + j]);
            }
            return false;
        }
        proof {
            assert(hay@.subrange(i as int, i + j + 1) =~= hay@.subrange(i as int, i + j).push(hay@[i + j]));
            assert(needle@.take(j + 1) =~= needle@.take(j as int).push(needle@[j as int]));
        }
        j = j + 1;
    }
    proof {
        assert(needle@.take(nn as int) =~= needle@);
    }
    true
}

/// Whether `needle` occurs in `hay`.
pub fn contains_str(hay: &str, needle: &str) -> (r: bool)
    ensures
        r == contains_seq(hay@, needle@),
{
    let hn = hay.unicode_len();
    let nn = needle.unicode_len();
    if nn > hn {
        proof {
            assert forall|i: int| !#[trigger] occurs_at(hay@, needle@, i) by {}
        }
        return false;
    }
    let last = hn - nn;
    let mut i: usize = 0;
    while i < last
        invariant
            hn == hay@.len(),
            nn == needle@.len(),
            nn <= hn,
            last == hn - nn,
            i <= last,
            forall|k: int| 0 <= k < i ==> !#[trigger] occurs_at(hay@, needle@, k),
        decreases last - i,
    {
        if occurs_at_exec(hay, needle, i, hn, nn) {
            return true;
        }
        i = i + 1;
    }
    if occurs_at_exec(hay, needle, last, hn, nn) {
        return true;
    }
    proof {
        assert forall|k: int| !#[trigger] occurs_at(hay@, needle@, k) by {
            if 0 <= k && k < i {
            }
        }
    }
    false
}

/// Whether `hay` begins with `prefix`.
pub fn starts_with_str(hay: &str, prefix: &str) -> (r: bool)
    ensures
        r == has_prefix(hay@, prefix@),
{
    let hn = hay.unicode_len();
    let pn = prefix.unicode_len();
    if pn > hn {
        return false;
    }
    let r = occurs_at_exec(hay, prefix, 0, hn, pn);
    r
}

/// Whether `hay` ends with `suffix`.
pub fn ends_with_str(hay: &str, suffix: &str) -> (r: bool)
    ensures
        r == has_suffix(hay@, suffix@),
{
    let hn = hay.unicode_len();
    let sn = suffix.unicode_len();
    if sn > hn {
        return false;
    }
    occurs_at_exec(hay, suffix, hn - sn, hn, sn)
}

/// The characters of `s` from `from` to `to`.
pub fn substring(s: &str, from: usize, to: usize) -> (r: String)
    requires
        from <= to <= s@.len(),
    ensures
        r@ == s@.subrange(from as int, to as int),
{
    String::from_str(s.substring_char(from, to))
}

} // verus!

verus! {

/// Whether `c` has the Unicode `White_Space` property (`char::is_whitespace`).
pub uninterp spec fn is_white_space(c: char) -> bool;

/// Whether `c` is alphabetic or numeric in Unicode (`char::is_alphanumeric`).
pub uninterp spec fn is_alphanumeric_char(c: char) -> bool;

/// `char::is_whitespace`: whether `c` has the Unicode `White_Space` property.
/// Among ASCII characters those are space, tab, line feed, vertical tab,
/// form feed and carriage return.
#[verifier::external_body]
pub fn char_is_whitespace(c: char) -> (r: bool)
    ensures
        r == is_white_space(c),
        (c as u32) < 128 ==> (r <==> (c == ' ' || c == '\t' || c == '\n' || c == '\r' || c == '\x0B'
            || c == '\x0C')),
{
    c.is_whitespace()
}

/// `char::is_alphanumeric`: alphabetic or numeric in Unicode. Among ASCII
/// characters those are the letters and the digits.
#[verifier::external_body]
pub fn char_is_alphanumeric(c: char) -> (r: bool)
    ensures
        r == is_alphanumeric_char(c),
        (c as u32) < 128 ==> (r <==> (('a' <= c && c <= 'z') || ('A' <= c && c <= 'Z') || ('0' <= c && c
            <= '9'))),
{
    c.is_alphanumeric()
}

/// `s` without its leading whitespace.
pub open spec fn trim_start_spec(s: Seq<char>) -> Seq<char>
    decreases s.len(),
{
    if s.len() > 0 && is_white_space(s[0]) {
        trim_start_spec(s.drop_first())
    } else {
        s
    }
}

/// `s` without its trailing whitespace.
pub open spec fn trim_end_spec(s: Seq<char>) -> Seq<char>
    decreases s.len(),
{
    if s.len() > 0 && is_white_space(s.last()) {
        trim_end_spec(s.drop_last())
    } else {
        s
    }
}

/// `s` without leading and trailing whitespace (`str::trim`).
pub open spec fn trim_spec(s: Seq<char>) -> Seq<char> {
    trim_end_spec(trim_start_spec(s))
}

/// Removes leading and trailing whitespace.
pub fn trim(s: &str) -> (r: String)
    ensures
        r@ == trim_spec(s@),
{
    let n = s.unicode_len();
    let mut a: usize = 0;
    proof {
        assert(s@.subrange(0, n as int) =~= s@);
    }
    while a < n && char_is_whitespace(s.get_char(a))
        invariant
            n == s@.len(),
            a <= n,
            trim_start_spec(s@) == trim_start_spec(s@.subrange(a as int, n as int)),
        decreases n - a,
    {
        proof {
            assert(s@.subrange(a as int, n as int).drop_first() =~= s@.subrange(a + 1, n as int));
        }
        a = a + 1;
    }
    proof {
        assert(trim_start_spec(s@.subrange(a as int, n as int)) == s@.subrange(a as int, n as int));
    }
    let mut b: usize = n;
    while b > a && char_is_whitespace(s.get_char(b - 1))
        invariant
            n == s@.len(),
            a <= b <= n,
            trim_spec(s@) == trim_end_spec(s@.subrange(a as int, b as int)),
        decreases b,
    {
        proof {
            assert(s@.subrange(a as int, b as int).drop_last() =~= s@.subrange(a as int, b - 1));
        }
        b = b - 1;
    }
    substring(s, a, b)
}

/// The trimmed pieces that are not empty, in order.
pub open spec fn kept_nonempty(ps: Seq<Seq<char>>) -> Seq<Seq<char>>
    decreases ps.len(),
{
    if ps.len() == 0 {
        Seq::empty()
    } else if trim_spec(ps.last()).len() > 0 {
        kept_nonempty(ps.drop_last()).push(trim_spec(ps.last()))
    } else {
        kept_nonempty(ps.drop_last())
    }
}

/// The items of a comma-separated list: each piece trimmed, empty ones left out.
pub open spec fn comma_list(s: Seq<char>) -> Seq<Seq<char>> {
    kept_nonempty(split_char(s, ','))
}

/// Reads a comma-separated list (see [`comma_list`]).
pub fn parse_comma_list(s: &str) -> (r: Vec<String>)
    ensures
        strs_view(r@) == comma_list(s@),
{
    let parts = split_by(s, ',');
    let mut r: Vec<String> = Vec::new();
    let mut i: usize = 0;
    while i < parts.len()
        invariant
            i <= parts.len(),
            strs_view(parts@) == split_char(s@, ','),
            strs_view(r@) == kept_nonempty(strs_view(parts@).take(i as int)),
        decreases parts.len() - i,
    {
        let t = trim(parts[i].as_str());
        proof {
            assert(strs_view(parts@).take(i + 1).drop_last() =~= strs_view(parts@).take(i as int));
            assert(strs_view(parts@).take(i + 1).last() == parts@[i as int]@);
        }
        if t.unicode_len() > 0 {
            let ghost before = r@;
            r.push(t);
            proof {
                assert(strs_view(r@) =~= strs_view(before).push(t@));
            }
        }
        i = i + 1;
    }
    proof {
        assert(strs_view(parts@).take(parts.len() as int) =~= strs_view(parts@));
    }
    r
}

/// A line without the `\r` of a `\r\n` ending.
pub open spec fn strip_cr(p: Seq<char>) -> Seq<char> {
    if p.len() > 0 && p.last() == '\r' {
        p.drop_last()
    } else {
        p
    }
}

/// The lines of `s` (`str::lines`): split at `\n`, a `\r` before the `\n`
/// removed, and no empty last line after a final line ending.
pub open spec fn lines_spec(s: Seq<char>) -> Seq<Seq<char>> {
    let ps = split_char(s, '\n');
    let body = ps.drop_last().map_values(|p: Seq<char>| strip_cr(p));
    if ps.last().len() == 0 {
        body
    } else {
        body.push(ps.last())
    }
}

/// The lines of `s`.
pub fn lines(s: &str) -> (r: Vec<String>)
    ensures
        strs_view(r@) == lines_spec(s@),
{
    let ps = split_by(s, '\n');
    proof {
        lemma_split_nonempty(s@, '\n');
    }
    let n = ps.len();
    let mut r: Vec<String> = Vec::new();
    let mut i: usize = 0;
    while i + 1 < n
        invariant
            n == ps@.len(),
            n >= 1,
            i < n,
            strs_view(ps@) == split_char(s@, '\n'),
            strs_view(r@) == strs_view(ps@).take(i as int).map_values(|p: Seq<char>| strip_cr(p)),
        decreases n - i,
    {
        let p = ps[i].as_str();
        let len = p.unicode_len();
        let line = if len > 0 && p.get_char(len - 1) == '\r' {
            substring(p, 0, len - 1)
        } else {
            ps[i].clone()
        };
        proof {
            assert(strs_view(ps@)[i as int] == ps@[i as int]@);
            if len > 0 && p@.last() == '\r' {
                assert(p@.subrange(0, len - 1) =~= p@.drop_last());
            }
        }
        let ghost before = r@;
        r.push(line);
        proof {
            assert(strs_view(r@) =~= strs_view(before).push(line@));
            assert(strs_view(ps@).take(i + 1) =~= strs_view(ps@).take(i as int).push(ps@[i as int]@));
            assert(strs_view(r@) =~= strs_view(ps@).take(i + 1).map_values(|p: Seq<char>| strip_cr(p)));
        }
        i = i + 1;
    }
    proof {
        assert(strs_view(ps@).take(i as int) =~= strs_view(ps@).drop_last());
        assert(strs_view(ps@).last() == ps@[n - 1]@);
    }
    if ps[n - 1].as_str().unicode_len() > 0 {
        let ghost before = r@;
        r.push(ps[n - 1].clone());
        proof {
            assert(strs_view(r@) =~= strs_view(before).push(ps@[n - 1]@));
        }
    }
    r
}

/// The index of the first line that begins with `key`, if any.
pub open spec fn first_with_prefix(ls: Seq<Seq<char>>, key: Seq<char>) -> Option<int>
    decreases ls.len(),
{
    if ls.len() == 0 {
        None
    } else {
        match first_with_prefix(ls.drop_last(), key) {
            Some(i) => Some(i),
            None => if has_prefix(ls.last(), key) {
                Some(ls.len() - 1)
            } else {
                None
            },
        }
    }
}

/// The value of the first `key` line of `content`: the rest of the line
/// after `key`, trimmed.
pub open spec fn key_value_spec(content: Seq<char>, key: Seq<char>) -> Option<Seq<char>> {
    match first_with_prefix(lines_spec(content), key) {
        Some(i) => Some(trim_spec(lines_spec(content)[i].subrange(key.len() as int, lines_spec(content)[i].len() as int))),
        None => None,
    }
}

/// The value of the first line of `content` that begins with `key`, as in
/// `Description=` lines of unit files and `Name=` lines of desktop files.
pub fn find_key_value(content: &str, key: &str) -> (r: Option<String>)
    ensures
        r matches Some(v) ==> key_value_spec(content@, key@) == Some(v@),
        r is None ==> key_value_spec(content@, key@) is None,
{
    let ls = lines(content);
    let mut i: usize = 0;
    while i < ls.len()
        invariant
            i <= ls.len(),
            strs_view(ls@) == lines_spec(content@),
            first_with_prefix(strs_view(ls@).take(i as int), key@) is None,
        decreases ls.len() - i,
    {
        proof {
            assert(strs_view(ls@).take(i + 1).drop_last() =~= strs_view(ls@).take(i as int));
            assert(strs_view(ls@).take(i + 1).last() == ls@[i as int]@);
        }
        let line = ls[i].as_str();
        if starts_with_str(line, key) {
            proof {
                lemma_first_prefix_extends(strs_view(ls@), key@, i as int);
            }
            let kn = key.unicode_len();
            let ln = line.unicode_len();
            let rest = substring(line, kn, ln);
            return Some(trim(rest.as_str()));
        }
        i = i + 1;
    }
    proof {
        assert(strs_view(ls@).take(ls.len() as int) =~= strs_view(ls@));
    }
    None
}

/// The first match found in a prefix is the first match of the whole.
pub proof fn lemma_first_prefix_extends(ls: Seq<Seq<char>>, key: Seq<char>, i: int)
    requires
        0 <= i < ls.len(),
        first_with_prefix(ls.take(i), key) is None,
        has_prefix(ls[i], key),
    ensures
        first_with_prefix(ls, key) == Some(i),
    decreases ls.len(),
{
    if i < ls.len() - 1 {
        assert(ls.drop_last().take(i) =~= ls.take(i));
        lemma_first_prefix_extends(ls.drop_last(), key, i);
    } else {
        assert(ls.drop_last() =~= ls.take(i));
    }
}

} // verus!

verus! {

/// The order of `String`s: character by character, by code point, a proper
/// prefix coming first.
pub open spec fn text_lt(a: Seq<char>, b: Seq<char>) -> bool
    decreases a.len(),
{
    if a.len() == 0 {
        b.len() > 0
    } else if b.len() == 0 {
        false
    } else if a[0] != b[0] {
        (a[0] as int) < (b[0] as int)
    } else {
        text_lt(a.drop_first(), b.drop_first())
    }
}

/// Two texts with the same first character and the same rest are equal.
proof fn lemma_cons_eq(a: Seq<char>, b: Seq<char>)
    requires
        a.len() > 0,
        b.len() > 0,
        a[0] == b[0],
        a.drop_first() == b.drop_first(),
    ensures
        a == b,
{
    assert(a =~= seq![a[0]] + a.drop_first());
    assert(b =~= seq![b[0]] + b.drop_first());
}

/// The order is strict and total: of two different texts exactly one comes first.
pub proof fn lemma_text_lt_trichotomy(a: Seq<char>, b: Seq<char>)
    ensures
        !(text_lt(a, b) && text_lt(b, a)),
        !text_lt(a, a),
        a != b ==> text_lt(a, b) || text_lt(b, a),
    decreases a.len(),
{
    if a.len() > 0 {
        lemma_text_lt_trichotomy(a.drop_first(), a.drop_first());
        if b.len() > 0 {
            lemma_text_lt_trichotomy(a.drop_first(), b.drop_first());
            if a[0] == b[0] && a != b && a.drop_first() == b.drop_first() {
                lemma_cons_eq(a, b);
            }
            if a[0] != b[0] {
                assert((a[0] as int) != (b[0] as int));
            }
        }
    } else if b.len() == 0 {
        assert(a =~= b);
    }
}

/// The order is transitive.
pub proof fn lemma_text_lt_transitive(a: Seq<char>, b: Seq<char>, c: Seq<char>)
    requires
        text_lt(a, b),
        text_lt(b, c),
    ensures
        text_lt(a, c),
    decreases a.len(),
{
    if a.len() > 0 && b.len() > 0 && c.len() > 0 && a[0] == b[0] && b[0] == c[0] {
        lemma_text_lt_transitive(a.drop_first(), b.drop_first(), c.drop_first());
    }
}

/// Whether `a` comes before `b` in the order of `String`s.
pub fn text_less(a: &str, b: &str) -> (r: bool)
    ensures
        r == text_lt(a@, b@),
{
    let n = a.unicode_len();
    let m = b.unicode_len();
    let mut i: usize = 0;
    proof {
        assert(a@.skip(0) =~= a@);
        assert(b@.skip(0) =~= b@);
    }
    while i < n && i < m
        invariant
            n == a@.len(),
            m == b@.len(),
            i <= n,
            i <= m,
            text_lt(a@, b@) == text_lt(a@.skip(i as int), b@.skip(i as int)),
        decreases n - i,
    {
        let ca = a.get_char(i);
        let cb = b.get_char(i);
        proof {
            assert(a@.skip(i as int)[0] == ca);
            assert(b@.skip(i as int)[0] == cb);
        }
        if ca != cb {
            return (ca as u32) < (cb as u32);
        }
        proof {
            assert(a@.skip(i as int).drop_first() =~= a@.skip(i + 1));
            assert(b@.skip(i as int).drop_first() =~= b@.skip(i + 1));
        }
        i = i + 1;
    }
    i < m
}

} // verus!

verus! {

/// `s` written `n` times (`str::repeat`).
pub open spec fn repeat_text(s: Seq<char>, n: nat) -> Seq<char>
    decreases n,
{
    if n == 0 {
        Seq::empty()
    } else {
        repeat_text(s, (n - 1) as nat) + s
    }
}

/// Writes `s` `n` times.
pub fn repeat_str(s: &str, n: u128) -> (r: String)
    ensures
        r@ == repeat_text(s@, n as nat),
{
    let mut r = String::new();
    let mut i: u128 = 0;
    while i < n
        invariant
            i <= n,
            r@ == repeat_text(s@, i as nat),
        decreases n - i,
    {
        r.append(s);
        i = i + 1;
    }
    r
}

} // verus!

verus! {

/// The number of bytes of `s` in UTF-8 (`str::len`), counted in a `u128`.
pub fn utf8_len(s: &str) -> (n: u128)
    ensures
        n == vstd::utf8::encode_utf8(s@).len(),
        n <= 4 * s@.len(),
        s@.len() <= usize::MAX,
{
    let m = s.unicode_len();
    let mut n: u128 = 0;
    let mut i: usize = 0;
    proof {
        assert(s@.skip(0) =~= s@);
    }
    while i < m
        invariant
            m == s@.len(),
            i <= m,
            n <= 4 * i,
            n + vstd::utf8::encode_utf8(s@.skip(i as int)).len() == vstd::utf8::encode_utf8(s@).len(),
        decreases m - i,
    {
        let c = s.get_char(i);
        proof {
            assert(s@.skip(i as int)[0] == c);
            assert(s@.skip(i as int).drop_first() =~= s@.skip(i + 1));
        }
        let v = c as u32;
        let w: u128 = if v <= 0x7F {
            1
        } else if v <= 0x7FF {
            2
        } else if v <= 0xFFFF {
            3
        } else {
            4
        };
        assert(w == vstd::utf8::encode_scalar(c as u32).len());
        n = n + w;
        i = i + 1;
    }
    proof {
        assert(s@.skip(m as int) =~= Seq::<char>::empty());
    }
    n
}

} // verus!

verus! {

/// `c` is one of the texts `cats`.
pub open spec fn is_listed(cats: Seq<Seq<char>>, c: Seq<char>) -> bool {
    exists|i: int| 0 <= i < cats.len() && cats[i] == c
}

/// Two strictly increasing lists of the same texts are the same list.
pub proof fn lemma_sorted_texts_unique(a: Seq<Seq<char>>, b: Seq<Seq<char>>)
    requires
        forall|i: int, j: int| 0 <= i < j < a.len() ==> text_lt(#[trigger] a[i], #[trigger] a[j]),
        forall|i: int, j: int| 0 <= i < j < b.len() ==> text_lt(#[trigger] b[i], #[trigger] b[j]),
        forall|x: Seq<char>| is_listed(a, x) <==> is_listed(b, x),
    ensures
        a == b,
    decreases a.len() + b.len(),
{
    if a.len() == 0 || b.len() == 0 {
        if a.len() > 0 {
            assert(is_listed(a, a[0]));
        }
        if b.len() > 0 {
            assert(is_listed(b, b[0]));
        }
        assert(a =~= b);
    } else {
        assert(is_listed(a, a[0]));
        assert(is_listed(b, b[0]));
        let j = choose|j: int| 0 <= j < b.len() && b[j] == a[0];
        let i = choose|i: int| 0 <= i < a.len() && a[i] == b[0];
        if i > 0 && j > 0 {
            assert(text_lt(a[0], a[i]));
            assert(text_lt(b[0], b[j]));
            lemma_text_lt_trichotomy(a[0], b[0]);
        }
        assert(a[0] == b[0]);
        let a2 = a.drop_first();
        let b2 = b.drop_first();
        assert forall|x: Seq<char>| is_listed(a2, x) implies is_listed(b2, x) by {
            let k = choose|k: int| 0 <= k < a2.len() && a2[k] == x;
            assert(a[k + 1] == x);
            assert(text_lt(a[0], a[k + 1]));
            lemma_text_lt_trichotomy(x, x);
            assert(is_listed(b, x));
            let m = choose|m: int| 0 <= m < b.len() && b[m] == x;
            assert(m != 0);
            assert(b2[m - 1] == x);
        }
        assert forall|x: Seq<char>| is_listed(b2, x) implies is_listed(a2, x) by {
            let k = choose|k: int| 0 <= k < b2.len() && b2[k] == x;
            assert(b[k + 1] == x);
            assert(text_lt(b[0], b[k + 1]));
            lemma_text_lt_trichotomy(x, x);
            assert(is_listed(a, x));
            let m = choose|m: int| 0 <= m < a.len() && a[m] == x;
            assert(m != 0);
            assert(a2[m - 1] == x);
        }
        assert forall|p: int, q: int| 0 <= p < q < a2.len() implies text_lt(#[trigger] a2[p], #[trigger] a2[q]) by {
            assert(a2[p] == a[p + 1] && a2[q] == a[q + 1]);
        }
        assert forall|p: int, q: int| 0 <= p < q < b2.len() implies text_lt(#[trigger] b2[p], #[trigger] b2[q]) by {
            assert(b2[p] == b[p + 1] && b2[q] == b[q + 1]);
        }
        lemma_sorted_texts_unique(a2, b2);
        assert(a =~= seq![a[0]] + a2);
        assert(b =~= seq![b[0]] + b2);
    }
}

} // verus!

verus! {

/// The texts are in the order of `String`s, equal ones side by side.
pub open spec fn texts_sorted(s: Seq<Seq<char>>) -> bool {
    forall|i: int, j: int| 0 <= i < j < s.len() ==> !text_lt(#[trigger] s[j], #[trigger] s[i])
}

/// The strings of `v` in the order of `String`s (`sort` on a list of
/// strings): the same strings, as many times each, in order.
pub fn sort_texts(v: &Vec<String>) -> (r: Vec<String>)
    ensures
        strs_view(r@).to_multiset() == strs_view(v@).to_multiset(),
        texts_sorted(strs_view(r@)),
{
    broadcast use vstd::seq_lib::to_multiset_build, vstd::seq_lib::to_multiset_insert;
    let mut r: Vec<String> = Vec::new();
    let mut i: usize = 0;
    proof {
        assert(strs_view(r@) =~= strs_view(v@).take(0));
    }
    while i < v.len()
        invariant
            i <= v.len(),
            strs_view(r@).to_multiset() == strs_view(v@).take(i as int).to_multiset(),
            texts_sorted(strs_view(r@)),
        decreases v.len() - i,
    {
        let c = v[i].as_str();
        let mut pos: usize = 0;
        let mut found = false;
        while !found && pos < r.len()
            invariant
                pos <= r.len(),
                found ==> pos < r.len() && text_lt(c@, r@[pos as int]@),
                forall|j: int| 0 <= j < pos ==> !text_lt(c@, #[trigger] r@[j]@),
            decreases r.len() + 1 - pos - (if found { 1int } else { 0int }),
        {
            if text_less(c, r[pos].as_str()) {
                found = true;
            } else {
                pos = pos + 1;
            }
        }
        let ghost before = strs_view(r@);
        let item = v[i].clone();
        r.insert(pos, item);
        proof {
            let after = strs_view(r@);
            assert(after =~= before.insert(pos as int, c@));
            assert(strs_view(v@).take(i + 1) =~= strs_view(v@).take(i as int).push(c@));
            vstd::seq_lib::to_multiset_insert(before, pos as int, c@);
            vstd::seq_lib::to_multiset_build(strs_view(v@).take(i as int), c@);
            assert forall|a: int, b: int| 0 <= a < b < after.len() implies !text_lt(#[trigger] after[b], #[trigger] after[a]) by {
                if b < pos {
                    assert(after[a] == before[a] && after[b] == before[b]);
                } else if a > pos {
                    assert(after[a] == before[a - 1] && after[b] == before[b - 1]);
                } else if a < pos && b > pos {
                    assert(after[a] == before[a] && after[b] == before[b - 1]);
                } else if a == pos {
                    assert(after[b] == before[b - 1]);
                    if text_lt(before[b - 1], c@) {
                        if b - 1 > pos {
                            lemma_text_lt_transitive(before[b - 1], c@, before[pos as int]);
                        }
                        lemma_text_lt_trichotomy(before[pos as int], c@);
                    }
                } else {
                    assert(after[a] == before[a]);
                }
            }
        }
        i = i + 1;
    }
    proof {
        assert(strs_view(v@).take(v.len() as int) =~= strs_view(v@));
    }
    r
}

} // verus!
