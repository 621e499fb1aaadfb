//! Character-level text handling shared by the protocol, version and path code.
//!
//! Everything here is stated over `Seq<char>`, the view of `str` and `String`.
//! White space is the Unicode `White_Space` property and numbers are read the
//! way the standard integer parsers read them.

use vstd::prelude::*;

verus! {

/// `String::push` from std: the string gains one character at its end and is
/// otherwise unchanged.
pub assume_specification[ String::push ](s: &mut String, c: char)
    ensures
        final(s)@ == old(s)@.push(c),
;

/// The classes of characters that the scanners tell apart.
#[derive(Clone, Copy, Debug, PartialEq, Eq, Structural)]
pub enum CharClass {
    /// Unicode white space.
    White,
    /// Anything but Unicode white space.
    Word,
    /// The letter `v` that may lead a version tag.
    LetterV,
    /// Anything that does not open a pre-release or build suffix.
    Core,
    /// Anything but the dot between two version parts.
    Part,
    /// Anything but a path separator, of either flavour.
    Name,
}

/// Whether `c` has the Unicode `White_Space` property.
pub open spec fn is_white(c: char) -> bool {
    let n = c as int;
    ||| 0x09 <= n <= 0x0D
    ||| n == 0x20
    ||| n == 0x85
    ||| n == 0xA0
    ||| n == 0x1680
    ||| 0x2000 <= n <= 0x200A
    ||| n == 0x2028
    ||| n == 0x2029
    ||| n == 0x202F
    ||| n == 0x205F
    ||| n == 0x3000
}

impl CharClass {
    /// Whether `c` belongs to the class.
    pub open spec fn has(self, c: char) -> bool {
        match self {
            CharClass::White => is_white(c),
            CharClass::Word => !is_white(c),
            CharClass::LetterV => c == 'v',
            CharClass::Core => c != '-' && c != '+',
            CharClass::Part => c != '.',
            CharClass::Name => c != '\\' && c != '/',
        }
    }

    /// Decides membership in the class.
    pub fn contains(self, c: char) -> (r: bool)
        ensures
            r == self.has(c),
    {
        match self {
            CharClass::White => is_white_space(c),
            CharClass::Word => !is_white_space(c),
            CharClass::LetterV => c == 'v',
            CharClass::Core => c != '-' && c != '+',
            CharClass::Part => c != '.',
            CharClass::Name => c != '\\' && c != '/',
        }
    }
}

/// Decides the Unicode `White_Space` property.
pub fn is_white_space(c: char) -> (r: bool)
    ensures
        r == is_white(c),
{
    let n: u32 = c as u32;
    (0x09 <= n && n <= 0x0D) || n == 0x20 || n == 0x85 || n == 0xA0 || n == 0x1680 || (0x2000 <= n
        && n <= 0x200A) || n == 0x2028 || n == 0x2029 || n == 0x202F || n == 0x205F || n == 0x3000
}

/// How many characters at the start of `s` belong to `class`.
pub open spec fn leading(s: Seq<char>, class: CharClass) -> nat
    decreases s.len(),
{
    if s.len() > 0 && class.has(s[0]) {
        1 + leading(s.drop_first(), class)
    } else {
        0
    }
}

/// How many characters at the end of `s` belong to `class`.
pub open spec fn trailing(s: Seq<char>, class: CharClass) -> nat
    decreases s.len(),
{
    if s.len() > 0 && class.has(s.last()) {
        1 + trailing(s.drop_last(), class)
    } else {
        0
    }
}

/// The run at the start of `s` has the stated extent: all of its characters are
/// in the class and the one after it, if any, is not.
pub proof fn lemma_leading_extent(s: Seq<char>, class: CharClass)
    ensures
        leading(s, class) <= s.len(),
        forall|i: int| 0 <= i < leading(s, class) ==> class.has(#[trigger] s[i]),
        leading(s, class) < s.len() ==> !class.has(s[leading(s, class) as int]),
    decreases s.len(),
{
    if s.len() > 0 && class.has(s[0]) {
        let t = s.drop_first();
        lemma_leading_extent(t, class);
        assert forall|i: int| 0 <= i < leading(s, class) implies class.has(#[trigger] s[i]) by {
            if i > 0 {
                assert(s[i] == t[i - 1]);
            }
        }
    }
}

/// A run of `n` class members that a non-member (or the end) closes is the
/// whole leading run.
pub proof fn lemma_leading_is(s: Seq<char>, class: CharClass, n: nat)
    requires
        n <= s.len(),
        forall|i: int| 0 <= i < n ==> class.has(#[trigger] s[i]),
        n < s.len() ==> !class.has(s[n as int]),
    ensures
        leading(s, class) == n,
    decreases n,
{
    if n > 0 {
        let t = s.drop_first();
        assert(class.has(s[0]));
        assert forall|i: int| 0 <= i < n - 1 implies class.has(#[trigger] t[i]) by {
            assert(t[i] == s[i + 1]);
        }
        lemma_leading_is(t, class, (n - 1) as nat);
    }
}

/// Text that opens with a non-member adds nothing to the leading run.
pub proof fn lemma_leading_append(a: Seq<char>, b: Seq<char>, class: CharClass)
    requires
        b.len() == 0 || !class.has(b[0]),
    ensures
        leading(a + b, class) == leading(a, class),
        leading(a, class) <= a.len(),
{
    let n = leading(a, class);
    lemma_leading_extent(a, class);
    assert forall|i: int| 0 <= i < n implies class.has(#[trigger] (a + b)[i]) by {
        assert((a + b)[i] == a[i]);
    }
    lemma_leading_is(a + b, class, n);
}

/// The run at the end of `s` has the stated extent.
pub proof fn lemma_trailing_extent(s: Seq<char>, class: CharClass)
    ensures
        trailing(s, class) <= s.len(),
    decreases s.len(),
{
    if s.len() > 0 && class.has(s.last()) {
        lemma_trailing_extent(s.drop_last(), class);
    }
}

/// `s` without the white space at its start.
pub open spec fn trim_start(s: Seq<char>) -> Seq<char> {
    s.skip(leading(s, CharClass::White) as int)
}

/// `s` without the white space at its end.
pub open spec fn trim_end(s: Seq<char>) -> Seq<char> {
    s.take(s.len() - trailing(s, CharClass::White))
}

/// `s` without the white space around it.
pub open spec fn trim(s: Seq<char>) -> Seq<char> {
    trim_end(trim_start(s))
}

/// The first white-space separated word of `s`.
pub open spec fn first_word(s: Seq<char>) -> Option<Seq<char>> {
    let t = trim_start(s);
    if t.len() == 0 {
        None
    } else {
        Some(t.take(leading(t, CharClass::Word) as int))
    }
}

/// What follows the first word of `s`.
pub open spec fn after_first_word(s: Seq<char>) -> Seq<char> {
    let t = trim_start(s);
    t.skip(leading(t, CharClass::Word) as int)
}

/// A line feed behind a text that neither starts nor ends in white space is all
/// that trimming takes away.
pub proof fn lemma_trim_line(s: Seq<char>)
    requires
        s.len() > 0,
        !is_white(s[0]),
        !is_white(s.last()),
    ensures
        trim(s.push('\n')) == s,
{
    let line = s.push('\n');
    assert(line[0] == s[0]);
    assert(trim_start(line) =~= line);
    assert(line.drop_last() =~= s);
    assert(trailing(s, CharClass::White) == 0);
    assert(trailing(line, CharClass::White) == 1);
    assert(trim(line) =~= s);
}

/// `s` without the letters `v` at its start.
pub open spec fn without_v(s: Seq<char>) -> Seq<char> {
    s.skip(leading(s, CharClass::LetterV) as int)
}

/// Copies the characters of `s` into a vector.
pub fn chars_of(s: &str) -> (r: Vec<char>)
    ensures
        r@ == s@,
{
    let mut v: Vec<char> = Vec::new();
    for c in it: s.chars()
        invariant
            v@ == it.seq().take(it.index()),
            it.seq() == s@,
    {
        v.push(c);
    }
    v
}

/// Builds a string out of characters.
pub fn text_of(v: &Vec<char>) -> (r: String)
    ensures
        r@ == v@,
{
    let mut s = String::new();
    for i in 0..v.len()
        invariant
            s@ == v@.take(i as int),
    {
        s.push(v[i]);
    }
    s
}

/// Copies the characters from `from` up to `to`.
pub fn slice_of(v: &Vec<char>, from: usize, to: usize) -> (r: Vec<char>)
    requires
        from <= to <= v.len(),
    ensures
        r@ == v@.subrange(from as int, to as int),
{
    let mut out: Vec<char> = Vec::new();
    for i in from..to
        invariant
            from <= i <= to <= v.len(),
            out@ == v@.subrange(from as int, i as int),
    {
        out.push(v[i]);
    }
    out
}

/// Joins two pieces of text.
pub fn joined(a: &str, b: &str) -> (r: String)
    ensures
        r@ == a@ + b@,
{
    let mut s = a.to_owned();
    s.append(b);
    s
}

/// The view of an optional text.
pub open spec fn text_view(s: Option<String>) -> Option<Seq<char>> {
    match s {
        Some(s) => Some(s@),
        None => None,
    }
}

/// Decides whether two texts are the same.
pub fn same_text(a: &str, b: &str) -> (r: bool)
    ensures
        r == (a@ == b@),
{
    a.to_owned() == b.to_owned()
}

/// Counts the characters of `class` at the start of `v`.
pub fn leading_run(v: &Vec<char>, class: CharClass) -> (n: usize)
    ensures
        n == leading(v@, class),
        n <= v.len(),
{
    let mut n: usize = 0;
    while n < v.len() && class.contains(v[n])
        invariant
            n <= v.len(),
            forall|i: int| 0 <= i < n ==> class.has(#[trigger] v@[i]),
        decreases v.len() - n,
    {
        n = n + 1;
    }
    proof {
        lemma_leading_is(v@, class, n as nat);
    }
    n
}

/// Counts the characters of `class` at the end of `v`.
pub fn trailing_run(v: &Vec<char>, class: CharClass) -> (n: usize)
    ensures
        n == trailing(v@, class),
        n <= v.len(),
{
    let mut end: usize = v.len();
    assert(v@.take(v@.len() as int) =~= v@);
    while end > 0 && class.contains(v[end - 1])
        invariant
            end <= v.len(),
            trailing(v@, class) == (v.len() - end) + trailing(v@.take(end as int), class),
        decreases end,
    {
        assert(v@.take(end as int).drop_last() =~= v@.take(end - 1));
        end = end - 1;
    }
    v.len() - end
}

/// The characters of `s` without the white space around them.
pub fn trimmed(s: &str) -> (r: Vec<char>)
    ensures
        r@ == trim(s@),
{
    let v = chars_of(s);
    let from: usize = leading_run(&v, CharClass::White);
    let t = slice_of(&v, from, v.len());
    assert(t@ =~= trim_start(s@));
    let tail: usize = trailing_run(&t, CharClass::White);
    let r = slice_of(&t, 0, t.len() - tail);
    assert(r@ =~= trim(s@));
    r
}

/// Splits the first word off: the word, if there is one, and what follows it.
pub fn split_word(v: &Vec<char>) -> (r: (Option<Vec<char>>, Vec<char>))
    ensures
        match r.0 {
            Some(w) => first_word(v@) == Some(w@),
            None => first_word(v@) is None,
        },
        r.1@ == after_first_word(v@),
{
    let from: usize = leading_run(v, CharClass::White);
    let t = slice_of(v, from, v.len());
    assert(t@ =~= trim_start(v@));
    let n: usize = leading_run(&t, CharClass::Word);
    let rest = slice_of(&t, n, t.len());
    assert(rest@ =~= after_first_word(v@));
    if t.len() == 0 {
        (None, rest)
    } else {
        let w = slice_of(&t, 0, n);
        assert(w@ =~= t@.take(n as int));
        (Some(w), rest)
    }
}

/// `tag` without the letters `v` at its start.
pub fn strip_v(v: &Vec<char>) -> (r: Vec<char>)
    ensures
        r@ == without_v(v@),
{
    let n: usize = leading_run(v, CharClass::LetterV);
    let r = slice_of(v, n, v.len());
    assert(r@ =~= without_v(v@));
    r
}

/// Decides whether `v` starts with `prefix`.
pub fn starts_with(v: &Vec<char>, prefix: &str) -> (r: bool)
    ensures
        r == prefix@.is_prefix_of(v@),
{
    let p = chars_of(prefix);
    if p.len() > v.len() {
        return false;
    }
    for i in 0..p.len()
        invariant
            p@ == prefix@,
            p.len() <= v.len(),
            forall|j: int| 0 <= j < i ==> p@[j] == v@[j],
    {
        if p[i] != v[i] {
            assert(v@.subrange(0, p@.len() as int)[i as int] == v@[i as int]);
            return false;
        }
    }
    assert(prefix@ =~= v@.subrange(0, prefix@.len() as int));
    true
}

/// Decides whether `v` ends with `suffix`.
pub fn ends_with(v: &Vec<char>, suffix: &str) -> (r: bool)
    ensures
        r == suffix@.is_suffix_of(v@),
{
    let p = chars_of(suffix);
    if p.len() > v.len() {
        return false;
    }
    let from: usize = v.len() - p.len();
    for i in 0..p.len()
        invariant
            p@ == suffix@,
            from + p.len() == v.len(),
            forall|j: int| 0 <= j < i ==> p@[j] == v@[from + j],
    {
        if p[i] != v[from + i] {
            assert(v@.subrange(from as int, v@.len() as int)[i as int] == v@[from + i]);
            return false;
        }
    }
    assert(suffix@ =~= v@.subrange(from as int, v@.len() as int));
    true
}

// ---------------------------------------------------------------------------
// Decimal numbers
// ---------------------------------------------------------------------------

/// Whether `c` is one of `0` to `9`.
pub open spec fn is_digit(c: char) -> bool {
    '0' <= c <= '9'
}

/// Whether every character of `s` is a digit.
pub open spec fn all_digits(s: Seq<char>) -> bool {
    forall|i: int| 0 <= i < s.len() ==> is_digit(#[trigger] s[i])
}

/// The number that the digits of `s` write, most significant first.
pub open spec fn digits_value(s: Seq<char>) -> nat
    decreases s.len(),
{
    if s.len() == 0 {
        0
    } else {
        (digits_value(s.drop_last()) * 10 + (s.last() as int - '0' as int)) as nat
    }
}

/// `s` without the one plus sign that a number may carry.
pub open spec fn without_plus(s: Seq<char>) -> Seq<char> {
    if s.len() > 0 && s[0] == '+' {
        s.drop_first()
    } else {
        s
    }
}

/// The number that `s` writes, when it is at most `max`: an optional plus sign
/// and then digits, at least one and nothing else.
pub open spec fn number_of(s: Seq<char>, max: nat) -> Option<nat> {
    let d = without_plus(s);
    if d.len() > 0 && all_digits(d) && digits_value(d) <= max {
        Some(digits_value(d))
    } else {
        None
    }
}

/// The decimal digit that stands for `d`.
pub open spec fn digit_char(d: nat) -> char {
    ('0' as int + d) as char
}

/// `n` in decimal notation.
pub open spec fn decimal(n: nat) -> Seq<char>
    decreases n,
{
    if n < 10 {
        seq![digit_char(n)]
    } else {
        decimal(n / 10).push(digit_char(n % 10))
    }
}

/// More digits never make a number smaller.
proof fn lemma_prefix_value(s: Seq<char>, n: int)
    requires
        0 <= n <= s.len(),
        all_digits(s),
    ensures
        digits_value(s.take(n)) <= digits_value(s),
    decreases s.len(),
{
    if n == s.len() {
        assert(s.take(n) =~= s);
    } else {
        let t = s.drop_last();
        assert forall|i: int| 0 <= i < t.len() implies is_digit(#[trigger] t[i]) by {
            assert(t[i] == s[i]);
        }
        lemma_prefix_value(t, n);
        assert(t.take(n) =~= s.take(n));
        assert(is_digit(s[s.len() - 1]));
    }
}

/// Reads a number that is at most `max`, as `number_of` says.
pub fn parse_number(v: &Vec<char>, max: u64) -> (r: Option<u64>)
    ensures
        match r {
            Some(n) => number_of(v@, max as nat) == Some(n as nat),
            None => number_of(v@, max as nat) is None,
        },
{
    let start: usize = if v.len() > 0 && v[0] == '+' {
        1
    } else {
        0
    };
    let ghost d = without_plus(v@);
    assert(d =~= v@.skip(start as int));
    if v.len() == start {
        return None;
    }
    let mut value: u64 = 0;
    assert(d.take(0) =~= Seq::<char>::empty());
    for i in start..v.len()
        invariant
            start <= v.len(),
            d == v@.skip(start as int),
            d == without_plus(v@),
            value <= max,
            value == digits_value(d.take(i - start)),
            forall|j: int| 0 <= j < i - start ==> is_digit(#[trigger] d[j]),
    {
        let c: char = v[i];
        let ghost k = (i - start) as int;
        assert(d[k] == c);
        if c < '0' || '9' < c {
            assert(!is_digit(d[k]));
            return None;
        }
        let digit: u64 = (c as u32 - '0' as u32) as u64;
        assert(d.take(k + 1).drop_last() =~= d.take(k));
        assert(digits_value(d.take(k + 1)) == value * 10 + digit);
        if value > max / 10 || digit > max - value * 10 {
            proof {
                if all_digits(d) {
                    lemma_prefix_value(d, k + 1);
                }
            }
            return None;
        }
        value = value * 10 + digit;
    }
    assert(d.take(d.len() as int) =~= d);
    Some(value)
}

/// Appends `n` in decimal notation.
pub fn push_decimal(s: &mut String, n: u64)
    ensures
        final(s)@ == old(s)@ + decimal(n as nat),
    decreases n,
{
    if n >= 10 {
        push_decimal(s, n / 10);
    }
    let d: u8 = (n % 10) as u8;
    s.push((48u8 + d) as char);
}

/// Decimal notation is a non-empty run of digits whose value is the number.
pub proof fn lemma_decimal(n: nat)
    ensures
        decimal(n).len() > 0,
        all_digits(decimal(n)),
        digits_value(decimal(n)) == n,
    decreases n,
{
    if n < 10 {
        let s = decimal(n);
        assert(s.drop_last() =~= Seq::<char>::empty());
        assert(digits_value(s.drop_last()) == 0);
        assert(s.last() as int - '0' as int == n);
    } else {
        lemma_decimal(n / 10);
        let s = decimal(n);
        assert(s.drop_last() =~= decimal(n / 10));
        assert forall|i: int| 0 <= i < s.len() implies is_digit(#[trigger] s[i]) by {
            if i < s.len() - 1 {
                assert(s[i] == decimal(n / 10)[i]);
            }
        }
    }
}

/// Reading back what was written gives the number: decimal notation of `n` is
/// read as `n` wherever `n` is admitted at all.
pub proof fn law_decimal_round_trip(n: nat, max: nat)
    requires
        n <= max,
    ensures
        number_of(decimal(n), max) == Some(n),
{
    lemma_decimal(n);
    assert(is_digit(decimal(n)[0]));
}

/// A run of `n` class members at the end that a non-member (or the start) opens
/// is the whole trailing run.
pub proof fn lemma_trailing_is(s: Seq<char>, class: CharClass, n: nat)
    requires
        n <= s.len(),
        forall|i: int| s.len() - n <= i < s.len() ==> class.has(#[trigger] s[i]),
        n < s.len() ==> !class.has(s[s.len() - n - 1]),
    ensures
        trailing(s, class) == n,
    decreases n,
{
    if n > 0 {
        let t = s.drop_last();
        assert(class.has(s[s.len() - 1]));
        assert forall|i: int| t.len() - (n - 1) <= i < t.len() implies class.has(
            #[trigger] t[i],
        ) by {
            assert(t[i] == s[i]);
        }
        lemma_trailing_is(t, class, (n - 1) as nat);
    }
}

/// Whether every character of `s` is white space.
pub open spec fn all_white(s: Seq<char>) -> bool {
    forall|i: int| 0 <= i < s.len() ==> is_white(#[trigger] s[i])
}

/// Whether no character of `s` is white space.
pub open spec fn no_white(s: Seq<char>) -> bool {
    forall|i: int| 0 <= i < s.len() ==> !is_white(#[trigger] s[i])
}

/// Trimming takes away the white space around a text and nothing else, however
/// much there is and whatever stands inside.
pub proof fn law_trim_takes_the_white_space_around(
    pre: Seq<char>,
    core: Seq<char>,
    post: Seq<char>,
)
    requires
        all_white(pre),
        all_white(post),
        core.len() > 0 ==> !is_white(core[0]) && !is_white(core.last()),
    ensures
        trim(pre + core + post) == core,
{
    let s = pre + core + post;
    if core.len() == 0 {
        assert forall|i: int| 0 <= i < s.len() implies CharClass::White.has(#[trigger] s[i]) by {
            if i < pre.len() {
                assert(s[i] == pre[i]);
            } else {
                assert(s[i] == post[i - pre.len()]);
            }
        }
        lemma_leading_is(s, CharClass::White, s.len());
        assert(trim_start(s) =~= Seq::<char>::empty());
        assert(trim(s) =~= core);
    } else {
        assert forall|i: int| 0 <= i < pre.len() implies CharClass::White.has(#[trigger] s[i]) by {
            assert(s[i] == pre[i]);
        }
        assert(s[pre.len() as int] == core[0]);
        lemma_leading_is(s, CharClass::White, pre.len());
        let t = core + post;
        assert(trim_start(s) =~= t);
        assert forall|i: int| t.len() - post.len() <= i < t.len() implies CharClass::White.has(
            #[trigger] t[i],
        ) by {
            assert(t[i] == post[i - core.len()]);
        }
        assert(t[t.len() - post.len() - 1] == core[core.len() - 1]);
        lemma_trailing_is(t, CharClass::White, post.len());
        assert(trim(s) =~= core);
    }
}

/// The first word is what stands between the white space in front of it and the
/// white space (or the end) behind it, and the rest follows; a text of white
/// space alone has no word.
pub proof fn law_first_word_is_split_off(pre: Seq<char>, word: Seq<char>, tail: Seq<char>)
    requires
        all_white(pre),
        no_white(word),
        tail.len() > 0 ==> is_white(tail[0]),
    ensures
        word.len() > 0 ==> first_word(pre + word + tail) == Some(word),
        word.len() > 0 ==> after_first_word(pre + word + tail) == tail,
        first_word(pre) is None,
{
    assert forall|i: int| 0 <= i < pre.len() implies CharClass::White.has(#[trigger] pre[i]) by {}
    lemma_leading_is(pre, CharClass::White, pre.len());
    if word.len() > 0 {
        let s = pre + word + tail;
        assert forall|i: int| 0 <= i < pre.len() implies CharClass::White.has(#[trigger] s[i]) by {
            assert(s[i] == pre[i]);
        }
        assert(s[pre.len() as int] == word[0]);
        lemma_leading_is(s, CharClass::White, pre.len());
        let t = word + tail;
        assert(trim_start(s) =~= t);
        assert forall|i: int| 0 <= i < word.len() implies CharClass::Word.has(#[trigger] t[i]) by {
            assert(t[i] == word[i]);
        }
        if tail.len() > 0 {
            assert(t[word.len() as int] == tail[0]);
        }
        lemma_leading_is(t, CharClass::Word, word.len());
        assert(t.take(word.len() as int) =~= word);
        assert(t.skip(word.len() as int) =~= tail);
    }
}

/// The letters `v` at the start are all that a tag loses.
pub proof fn law_only_leading_v_is_stripped(vs: Seq<char>, rest: Seq<char>)
    requires
        forall|i: int| 0 <= i < vs.len() ==> #[trigger] vs[i] == 'v',
        rest.len() > 0 ==> rest[0] != 'v',
    ensures
        without_v(vs + rest) == rest,
{
    let s = vs + rest;
    assert forall|i: int| 0 <= i < vs.len() implies CharClass::LetterV.has(#[trigger] s[i]) by {
        assert(s[i] == vs[i]);
    }
    if rest.len() > 0 {
        assert(s[vs.len() as int] == rest[0]);
    }
    lemma_leading_is(s, CharClass::LetterV, vs.len());
    assert(without_v(s) =~= rest);
}

/// Which texts are numbers: only digits, at least one, with at most one plus sign
/// in front; one digit stands for itself, each further one makes ten times as
/// much and itself, the sign changes nothing, and what exceeds `max` is no
/// number.
pub proof fn law_numbers_are_read_digit_by_digit(s: Seq<char>, c: char, max: nat)
    ensures
        number_of(s, max) is Some ==> s.len() > 0 && forall|i: int|
            0 <= i < s.len() ==> ('0' <= #[trigger] s[i] && s[i] <= '9') || (i == 0 && s[0] == '+'
                && s.len() > 1),
        number_of(s, max) matches Some(n) ==> n <= max,
        '0' <= c <= '9' ==> number_of(seq![c], max) == (if c as int - '0' as int <= max {
            Some((c as int - '0' as int) as nat)
        } else {
            None
        }),
        !('0' <= c <= '9') ==> number_of(s.push(c), max) is None,
        ('0' <= c <= '9' && number_of(s, max) is Some) ==> number_of(s.push(c), max) == ({
            let n = number_of(s, max)->0 * 10 + (c as int - '0' as int);
            if n <= max {
                Some(n as nat)
            } else {
                None
            }
        }),
        (s.len() > 0 && s != seq!['+'] && number_of(s, max) is None) ==> number_of(s.push(c), max)
            is None,
        (s.len() > 0 && s[0] != '+') ==> number_of(seq!['+'] + s, max) == number_of(s, max),
        '0' <= c <= '9' ==> number_of(seq!['+', c], max) == number_of(seq![c], max),
{
    let d = without_plus(s);
    let one = seq![c];
    assert(one.drop_last() =~= Seq::<char>::empty());
    assert(digits_value(one.drop_last()) == 0);
    if '0' <= c <= '9' {
        assert(without_plus(one) =~= one);
        assert(all_digits(one));
        let signed = seq!['+', c];
        assert(without_plus(signed) =~= one);
    }
    if number_of(s, max) is Some {
        assert forall|i: int| 0 <= i < s.len() implies ('0' <= #[trigger] s[i] && s[i] <= '9') || (i
            == 0 && s[0] == '+' && s.len() > 1) by {
            if s[0] == '+' {
                if i > 0 {
                    assert(is_digit(d[i - 1]));
                }
            } else {
                assert(is_digit(d[i]));
            }
        }
    }
    let p = s.push(c);
    if s.len() > 0 {
        assert(without_plus(p) =~= d.push(c));
        let e = d.push(c);
        assert(e.drop_last() =~= d);
        assert(is_digit(e[d.len() as int]) == is_digit(c));
        if all_digits(d) && is_digit(c) {
            assert forall|i: int| 0 <= i < e.len() implies is_digit(#[trigger] e[i]) by {
                if i < d.len() {
                    assert(e[i] == d[i]);
                }
            }
        }
        if all_digits(e) {
            assert forall|i: int| 0 <= i < d.len() implies is_digit(#[trigger] d[i]) by {
                assert(d[i] == e[i]);
            }
        }
        if s != seq!['+'] && d.len() == 0 {
            assert(s =~= seq!['+']);
        }
        if s[0] != '+' {
            let q = seq!['+'] + s;
            assert(q[0] == '+');
            assert(q.drop_first() =~= s);
        }
    } else if !is_digit(c) {
        assert(p =~= one);
        if c == '+' {
            assert(without_plus(one) =~= Seq::<char>::empty());
        } else {
            assert(without_plus(one) =~= one);
            assert(!is_digit(one[0]));
        }
    }
}

/// Decimal notation is plain: digits only, and no zero in front of a number with
/// more than one digit.
pub proof fn law_decimal_is_canonical(n: nat)
    ensures
        decimal(n).len() > 0,
        forall|i: int|
            0 <= i < decimal(n).len() ==> '0' <= #[trigger] decimal(n)[i] && decimal(n)[i] <= '9',
        decimal(n).len() > 1 ==> decimal(n)[0] != '0',
    decreases n,
{
    lemma_decimal(n);
    assert forall|i: int| 0 <= i < decimal(n).len() implies '0' <= #[trigger] decimal(n)[i]
        && decimal(n)[i] <= '9' by {
        assert(is_digit(decimal(n)[i]));
    }
    if n >= 10 {
        law_decimal_is_canonical(n / 10);
        let front = decimal(n / 10);
        assert(decimal(n)[0] == front[0]);
        if front.len() == 1 && front[0] == '0' {
            assert(front.drop_last() =~= Seq::<char>::empty());
            assert(digits_value(front.drop_last()) == 0);
            lemma_decimal(n / 10);
            assert(digits_value(front) == 0);
        }
    }
}

/// An optional text is seen as it is.
pub proof fn law_optional_texts_are_seen_as_they_are(s: String)
    ensures
        text_view(Some(s)) == Some(s@),
        text_view(None) is None,
{
}

} // verus!
