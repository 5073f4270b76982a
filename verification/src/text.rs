//! Character-level text primitives shared by the rest of the library.
//!
//! Text is modelled as `Seq<char>` (the view of `String` and `str`). The
//! executable helpers work on `Vec<char>`/`[char]` and convert at the edges.
use vstd::prelude::*;

verus! {

// ── Conversions ────────────────────────────────────────────────────────────

/// The characters of `s`, in order.
pub fn chars_of(s: &str) -> (r: Vec<char>)
    ensures
        r@ == s@,
{
    let mut v: Vec<char> = Vec::new();
    for c in it: s.chars()
        invariant
            v@ == it.seq().take(it.index() as int),
    {
        v.push(c);
    }
    v
}

/// Collects characters into a `String` (std's `FromIterator<&char> for String`).
#[verifier::external_body]
pub(crate) fn string_of(cs: &[char]) -> (r: String)
    ensures
        r@ == cs@,
{
    cs.iter().collect()
}

/// An owned copy of a string slice.
pub fn owned(s: &str) -> (r: String)
    ensures
        r@ == s@,
{
    s.to_owned()
}

/// `a` followed by `b`.
pub fn cat(a: &str, b: &str) -> (r: String)
    ensures
        r@ == a@ + b@,
{
    let mut r = a.to_owned();
    r.append(b);
    r
}

/// `a`, `b` and `c` one after the other.
pub fn cat3(a: &str, b: &str, c: &str) -> (r: String)
    ensures
        r@ == a@ + b@ + c@,
{
    let mut r = a.to_owned();
    r.append(b);
    r.append(c);
    r
}

/// Five pieces one after the other.
pub fn cat5(a: &str, b: &str, c: &str, d: &str, e: &str) -> (r: String)
    ensures
        r@ == a@ + b@ + c@ + d@ + e@,
{
    let mut r = a.to_owned();
    r.append(b);
    r.append(c);
    r.append(d);
    r.append(e);
    r
}

// ── Case and white space ───────────────────────────────────────────────────

/// What `str::to_lowercase` returns for a string (Unicode lowercase mapping).
pub uninterp spec fn lowercase(s: Seq<char>) -> Seq<char>;

/// What `str::to_uppercase` returns for a string (Unicode uppercase mapping).
pub uninterp spec fn uppercase(s: Seq<char>) -> Seq<char>;

/// The text without its leading `White_Space` characters (what
/// `str::trim_start` returns).
#[verifier::opaque]
pub open spec fn trimmed_start(s: Seq<char>) -> Seq<char>
    decreases s.len(),
{
    if s.len() > 0 && is_space(s[0]) {
        trimmed_start(s.drop_first())
    } else {
        s
    }
}

/// The text without its trailing `White_Space` characters (what
/// `str::trim_end` returns).
#[verifier::opaque]
pub open spec fn trimmed_end(s: Seq<char>) -> Seq<char>
    decreases s.len(),
{
    if s.len() > 0 && is_space(s.last()) {
        trimmed_end(s.drop_last())
    } else {
        s
    }
}

/// The text without leading and trailing `White_Space` characters (what
/// `str::trim` returns).
pub open spec fn trimmed(s: Seq<char>) -> Seq<char> {
    trimmed_end(trimmed_start(s))
}

/// Whether a character has the Unicode `White_Space` property (what
/// `char::is_whitespace` tests): tab to carriage return, space, next line,
/// no-break space, ogham space mark, the spaces from en quad to hair space,
/// line and paragraph separators, narrow no-break space, medium
/// mathematical space and ideographic space.
pub open spec fn is_space(c: char) -> bool {
    let v = c as u32;
    (0x9 <= v <= 0xD) || v == 0x20 || v == 0x85 || v == 0xA0 || v == 0x1680 || (0x2000 <= v
        <= 0x200A) || v == 0x2028 || v == 0x2029 || v == 0x202F || v == 0x205F || v == 0x3000
}

/// Calls `str::to_lowercase`; its result is named `lowercase`.
#[verifier::external_body]
pub(crate) fn to_lowercase(s: &str) -> (r: String)
    ensures
        r@ == lowercase(s@),
{
    s.to_lowercase()
}

/// Calls `str::to_uppercase`; its result is named `uppercase`.
#[verifier::external_body]
pub(crate) fn to_uppercase(s: &str) -> (r: String)
    ensures
        r@ == uppercase(s@),
{
    s.to_uppercase()
}

/// The index of the first character of `s` at or after `i` that is not
/// `White_Space` (the length when there is none).
fn skip_spaces(s: &[char], i: usize) -> (r: usize)
    requires
        i <= s@.len(),
    ensures
        i <= r <= s@.len(),
        trimmed_start(s@.skip(i as int)) == s@.skip(r as int),
{
    let mut j = i;
    while j < s.len() && char_is_space(s[j])
        invariant
            i <= j <= s@.len(),
            trimmed_start(s@.skip(i as int)) == trimmed_start(s@.skip(j as int)),
        decreases s@.len() - j,
    {
        proof {
            reveal_with_fuel(trimmed_start, 2);
            assert(s@.skip(j as int).drop_first() =~= s@.skip(j + 1));
        }
        j = j + 1;
    }
    proof {
        reveal_with_fuel(trimmed_start, 2);
        if j < s@.len() {
            assert(s@.skip(j as int)[0] == s@[j as int]);
        }
    }
    j
}

/// The end of `s.take(n)` once its trailing `White_Space` is dropped.
fn drop_trailing_spaces(s: &[char], from: usize, n: usize) -> (r: usize)
    requires
        from <= n <= s@.len(),
    ensures
        from <= r <= n,
        trimmed_end(s@.subrange(from as int, n as int)) == s@.subrange(from as int, r as int),
{
    let mut j = n;
    let mut more = j > from && char_is_space(s[j - 1]);
    while more
        invariant
            from <= j <= n <= s@.len(),
            trimmed_end(s@.subrange(from as int, n as int)) == trimmed_end(s@.subrange(from as int, j as int)),
            more == (j > from && is_space(s@[j - 1])),
        decreases j - from,
    {
        proof {
            reveal_with_fuel(trimmed_end, 2);
            assert(s@.subrange(from as int, j as int).drop_last() =~= s@.subrange(from as int, j - 1));
        }
        j = j - 1;
        more = j > from && char_is_space(s[j - 1]);
    }
    proof {
        reveal_with_fuel(trimmed_end, 2);
    }
    j
}

/// `s` without leading and trailing `White_Space` (`str::trim`).
pub fn trim(s: &str) -> (r: String)
    ensures
        r@ == trimmed(s@),
{
    let cs = chars_of(s);
    let a = skip_spaces(cs.as_slice(), 0);
    assert(cs@.skip(0) =~= cs@);
    assert(cs@.skip(a as int) =~= cs@.subrange(a as int, cs@.len() as int));
    let b = drop_trailing_spaces(cs.as_slice(), a, cs.len());
    string_of(&cs[a..b])
}

/// `s` without leading `White_Space` (`str::trim_start`).
pub fn trim_start(s: &str) -> (r: String)
    ensures
        r@ == trimmed_start(s@),
{
    let cs = chars_of(s);
    let a = skip_spaces(cs.as_slice(), 0);
    assert(cs@.skip(0) =~= cs@);
    assert(cs@.skip(a as int) =~= cs@.subrange(a as int, cs@.len() as int));
    string_of(&cs[a..cs.len()])
}

/// Whether a character is `White_Space`.
pub fn char_is_space(c: char) -> (r: bool)
    ensures
        r == is_space(c),
{
    let v = c as u32;
    (0x9 <= v && v <= 0xD) || v == 0x20 || v == 0x85 || v == 0xA0 || v == 0x1680 || (0x2000 <= v
        && v <= 0x200A) || v == 0x2028 || v == 0x2029 || v == 0x202F || v == 0x205F || v == 0x3000
}

// ── JSON string literals ───────────────────────────────────────────────────

/// A lower-case hexadecimal digit.
pub open spec fn hex_lower(d: int) -> char {
    if d < 10 {
        (48 + d) as char
    } else {
        (87 + d) as char
    }
}

/// How a character is written inside a JSON string literal: quote and
/// backslash escaped, backspace, tab, newline, form feed and carriage return
/// by their short escapes, other control characters as `\u00XX`, anything
/// else as itself.
pub open spec fn json_piece(c: char) -> Seq<char> {
    let v = c as u32 as int;
    if c == '"' {
        seq!['\\', '"']
    } else if c == '\\' {
        seq!['\\', '\\']
    } else if v == 8 {
        seq!['\\', 'b']
    } else if v == 9 {
        seq!['\\', 't']
    } else if v == 10 {
        seq!['\\', 'n']
    } else if v == 12 {
        seq!['\\', 'f']
    } else if v == 13 {
        seq!['\\', 'r']
    } else if v < 32 {
        seq!['\\', 'u', '0', '0', hex_lower(v / 16), hex_lower(v % 16)]
    } else {
        seq![c]
    }
}

/// The JSON string literal of a text.
pub open spec fn json_literal(s: Seq<char>) -> Seq<char> {
    seq!['"'] + expand(s, |c: char| json_piece(c)) + seq!['"']
}

/// The compact JSON array of a list of texts.
pub open spec fn json_array(items: Seq<Seq<char>>) -> Seq<char> {
    seq!['['] + joined(items.map_values(|t: Seq<char>| json_literal(t)), seq![',']) + seq![']']
}

// ── Substring search ───────────────────────────────────────────────────────

/// `pat` occurs in `s` starting at index `i`.
pub open spec fn occurs_at(s: Seq<char>, pat: Seq<char>, i: int) -> bool {
    0 <= i && i + pat.len() <= s.len() && s.subrange(i, i + pat.len()) == pat
}

/// `pat` occurs somewhere in `s` (what `str::contains` computes for a string pattern).
pub open spec fn has_sub(s: Seq<char>, pat: Seq<char>) -> bool {
    exists|i: int| occurs_at(s, pat, i)
}

/// `s` begins with `pat`.
pub open spec fn has_prefix(s: Seq<char>, pat: Seq<char>) -> bool {
    occurs_at(s, pat, 0)
}

/// The character `c` occurs in `s`.
pub open spec fn has_char(s: Seq<char>, c: char) -> bool {
    s.contains(c)
}

/// Whether `pat` occurs in `s` at position `i`.
pub fn matches_at(s: &[char], pat: &[char], i: usize) -> (r: bool)
    ensures
        r == occurs_at(s@, pat@, i as int),
{
    if i > s.len() || pat.len() > s.len() - i {
        return false;
    }
    let n = s.len();
    let mut k: usize = 0;
    while k < pat.len()
        invariant
            n == s@.len(),
            i + pat@.len() <= n,
            k <= pat@.len(),
            forall|j: int| 0 <= j < k ==> s@[i + j] == pat@[j],
        decreases pat@.len() - k,
    {
        if s[i + k] != pat[k] {
            assert(s@.subrange(i as int, i + pat@.len())[k as int] != pat@[k as int]);
            return false;
        }
        k = k + 1;
    }
    assert(s@.subrange(i as int, i + pat@.len()) =~= pat@);
    true
}

/// The first index at or after `from` where `pat` occurs in `s`.
pub fn find_from(s: &[char], pat: &[char], from: usize) -> (r: Option<usize>)
    ensures
        match r {
            Some(i) => from <= i && occurs_at(s@, pat@, i as int) && forall|j: int|
                from <= j < i ==> !occurs_at(s@, pat@, j),
            None => forall|j: int| from <= j ==> !occurs_at(s@, pat@, j),
        },
{
    if from > s.len() || pat.len() > s.len() - from {
        return None;
    }
    let last = s.len() - pat.len();
    let mut i = from;
    loop
        invariant
            from <= i <= last,
            last + pat@.len() == s@.len(),
            forall|j: int| from <= j < i ==> !occurs_at(s@, pat@, j),
        decreases last - i,
    {
        if matches_at(s, pat, i) {
            return Some(i);
        }
        if i == last {
            return None;
        }
        i = i + 1;
    }
}

/// The first index where `pat` occurs in `s`.
pub fn find(s: &[char], pat: &[char]) -> (r: Option<usize>)
    ensures
        match r {
            Some(i) => occurs_at(s@, pat@, i as int) && forall|j: int|
                0 <= j < i ==> !occurs_at(s@, pat@, j),
            None => !has_sub(s@, pat@),
        },
{
    find_from(s, pat, 0)
}

/// The first index where `p` occurs in `s`.
#[verifier::opaque]
pub open spec fn first_index(s: Seq<char>, p: Seq<char>) -> Option<int> {
    if exists|i: int| occurs_at(s, p, i) {
        Some(
            choose|i: int| occurs_at(s, p, i) && forall|j: int| 0 <= j < i ==> !occurs_at(s, p, j),
        )
    } else {
        None
    }
}

/// An occurrence with none before it is the one `first_index` names.
pub proof fn lemma_first_index(s: Seq<char>, p: Seq<char>, i: int)
    requires
        occurs_at(s, p, i),
        forall|j: int| 0 <= j < i ==> !occurs_at(s, p, j),
    ensures
        first_index(s, p) == Some(i),
{
    reveal(first_index);
    let c = choose|k: int| occurs_at(s, p, k) && forall|j: int| 0 <= j < k ==> !occurs_at(s, p, j);
    assert(occurs_at(s, p, c) && forall|j: int| 0 <= j < c ==> !occurs_at(s, p, j));
    if c < i {
        assert(!occurs_at(s, p, c));
    }
    if i < c {
        assert(!occurs_at(s, p, i));
    }
}

/// The first index where `p` occurs in `s`, as `first_index` names it.
pub fn find_first(s: &[char], p: &[char]) -> (r: Option<usize>)
    ensures
        match r {
            Some(j) => first_index(s@, p@) == Some(j as int) && occurs_at(s@, p@, j as int),
            None => first_index(s@, p@) is None,
        },
{
    reveal(first_index);
    match find(s, p) {
        Some(i) => {
            proof {
                lemma_first_index(s@, p@, i as int);
            }
            Some(i)
        },
        None => None,
    }
}

/// Whether `pat` occurs in `s`.
pub fn contains(s: &[char], pat: &[char]) -> (r: bool)
    ensures
        r == has_sub(s@, pat@),
{
    match find(s, pat) {
        Some(_) => true,
        None => false,
    }
}

/// Whether the string `s` contains the string `pat`.
pub fn str_contains(s: &str, pat: &str) -> (r: bool)
    ensures
        r == has_sub(s@, pat@),
{
    let a = chars_of(s);
    let b = chars_of(pat);
    contains(a.as_slice(), b.as_slice())
}

/// Whether the string `s` begins with `pat`.
pub fn str_starts_with(s: &str, pat: &str) -> (r: bool)
    ensures
        r == has_prefix(s@, pat@),
{
    let a = chars_of(s);
    let b = chars_of(pat);
    matches_at(a.as_slice(), b.as_slice(), 0)
}

/// Whether `s` contains the character `c`.
pub fn has_char_exec(s: &[char], c: char) -> (r: bool)
    ensures
        r == has_char(s@, c),
{
    let mut i: usize = 0;
    while i < s.len()
        invariant
            i <= s@.len(),
            forall|j: int| 0 <= j < i ==> s@[j] != c,
        decreases s@.len() - i,
    {
        if s[i] == c {
            assert(s@[i as int] == c);
            return true;
        }
        i = i + 1;
    }
    false
}

/// Whether two strings are equal.
pub fn str_eq(a: &str, b: &str) -> (r: bool)
    ensures
        r == (a@ == b@),
{
    let x = chars_of(a);
    let y = chars_of(b);
    if x.len() != y.len() {
        return false;
    }
    let r = matches_at(x.as_slice(), y.as_slice(), 0);
    assert(x@.subrange(0, y@.len() as int) =~= x@);
    r
}

// ── Splitting and joining ──────────────────────────────────────────────────

/// The number of pieces `s[i..]` splits into at the non-overlapping
/// occurrences of a non-empty `sep`, found left to right (what
/// `str::split(..).count()` counts).
pub open spec fn split_count_from(s: Seq<char>, sep: Seq<char>, i: int) -> nat
    decreases s.len() - i,
{
    if sep.len() == 0 || i < 0 || i + sep.len() > s.len() {
        1
    } else if occurs_at(s, sep, i) {
        1 + split_count_from(s, sep, i + sep.len())
    } else {
        split_count_from(s, sep, i + 1)
    }
}

/// The number of pieces `s` splits into at the occurrences of a non-empty `sep`.
pub open spec fn split_count(s: Seq<char>, sep: Seq<char>) -> nat {
    split_count_from(s, sep, 0)
}

/// Whether `s.split(sep).count() > k`, for a non-empty separator.
pub fn split_count_exceeds(s: &str, sep: &str, k: usize) -> (r: bool)
    requires
        sep@.len() > 0,
        k < usize::MAX,
    ensures
        r == (split_count(s@, sep@) > k),
{
    let cs = chars_of(s);
    let ps = chars_of(sep);
    let mut i: usize = 0;
    let mut count: usize = 1;
    while ps.len() <= cs.len() - i
        invariant
            cs@ == s@,
            ps@ == sep@,
            ps@.len() > 0,
            i <= cs@.len(),
            k < usize::MAX,
            1 <= count <= k + 1,
            count - 1 + split_count_from(cs@, ps@, i as int) == split_count(cs@, ps@),
        decreases cs@.len() - i,
    {
        if matches_at(cs.as_slice(), ps.as_slice(), i) {
            if count > k {
                return true;
            }
            count = count + 1;
            i = i + ps.len();
        } else {
            i = i + 1;
        }
    }
    count > k
}

/// The pieces joined with `sep` between consecutive ones.
pub open spec fn joined(pieces: Seq<Seq<char>>, sep: Seq<char>) -> Seq<char>
    decreases pieces.len(),
{
    if pieces.len() == 0 {
        Seq::empty()
    } else if pieces.len() == 1 {
        pieces[0]
    } else {
        joined(pieces.drop_last(), sep) + sep + pieces.last()
    }
}

/// `pieces.join(sep)`.
pub fn join(pieces: &Vec<String>, sep: &str) -> (r: String)
    ensures
        r@ == joined(pieces.deep_view(), sep@),
{
    let ghost views = pieces.deep_view();
    let mut out = String::new();
    let mut i: usize = 0;
    while i < pieces.len()
        invariant
            i <= pieces@.len(),
            views == pieces.deep_view(),
            views.len() == pieces@.len(),
            out@ == joined(views.take(i as int), sep@),
        decreases pieces@.len() - i,
    {
        assert(views.take(i + 1).drop_last() =~= views.take(i as int));
        assert(views[i as int] == pieces@[i as int]@);
        if i > 0 {
            out.append(sep);
        }
        out.append(pieces[i].as_str());
        i = i + 1;
    }
    assert(views.take(pieces@.len() as int) =~= views);
    out
}

// ── Character-wise rewriting ──────────────────────────────────────────────

/// `s` with every character `c` replaced by `f(c)`, in order.
pub open spec fn expand<T>(s: Seq<char>, f: spec_fn(char) -> Seq<T>) -> Seq<T>
    decreases s.len(),
{
    if s.len() == 0 {
        Seq::empty()
    } else {
        expand(s.drop_last(), f) + f(s.last())
    }
}

/// Rewriting one more character appends that character's replacement.
pub proof fn lemma_expand_push<T>(s: Seq<char>, c: char, f: spec_fn(char) -> Seq<T>)
    ensures
        expand(s.push(c), f) == expand(s, f) + f(c),
{
    assert(s.push(c).drop_last() =~= s);
}

/// Rewriting a whole sequence is rewriting its prefixes one character at a time.
pub proof fn lemma_expand_take<T>(s: Seq<char>, i: int, f: spec_fn(char) -> Seq<T>)
    requires
        0 <= i < s.len(),
    ensures
        expand(s.take(i + 1), f) == expand(s.take(i), f) + f(s[i]),
{
    assert(s.take(i + 1) =~= s.take(i).push(s[i]));
    lemma_expand_push(s.take(i), s[i], f);
}

/// The replacement of one character when quotes are doubled.
pub open spec fn quote_piece(c: char) -> Seq<char> {
    if c == '\'' {
        seq!['\'', '\'']
    } else {
        seq![c]
    }
}

/// `s` with every single quote doubled, as PowerShell single-quoted strings need.
pub open spec fn quote_escaped(s: Seq<char>) -> Seq<char> {
    expand(s, |c: char| quote_piece(c))
}

/// `s.replace('\'', "''")`: doubles every single quote.
pub fn escape_quotes(s: &str) -> (r: String)
    ensures
        r@ == quote_escaped(s@),
{
    let cs = chars_of(s);
    let mut out: Vec<char> = Vec::new();
    let mut i: usize = 0;
    while i < cs.len()
        invariant
            i <= cs@.len(),
            cs@ == s@,
            out@ == quote_escaped(cs@.take(i as int)),
        decreases cs@.len() - i,
    {
        let c = cs[i];
        proof {
            lemma_expand_take(cs@, i as int, |c: char| quote_piece(c));
        }
        if c == '\'' {
            out.push('\'');
            out.push('\'');
        } else {
            out.push(c);
        }
        assert(out@ =~= quote_escaped(cs@.take(i as int)) + quote_piece(c));
        i = i + 1;
    }
    assert(cs@.take(cs@.len() as int) =~= cs@);
    string_of(out.as_slice())
}

// ── Decimal numerals ───────────────────────────────────────────────────────

/// The decimal digit for `d < 10`.
pub open spec fn digit_char(d: nat) -> char {
    if d == 0 {
        '0'
    } else if d == 1 {
        '1'
    } else if d == 2 {
        '2'
    } else if d == 3 {
        '3'
    } else if d == 4 {
        '4'
    } else if d == 5 {
        '5'
    } else if d == 6 {
        '6'
    } else if d == 7 {
        '7'
    } else if d == 8 {
        '8'
    } else {
        '9'
    }
}

/// The decimal numeral of `n`, without leading zeros (what `u64::to_string` prints).
pub open spec fn decimal(n: nat) -> Seq<char>
    decreases n,
{
    if n < 10 {
        seq![digit_char(n)]
    } else {
        decimal(n / 10).push(digit_char(n % 10))
    }
}

fn digit_exec(d: u64) -> (c: char)
    requires
        d < 10,
    ensures
        c == digit_char(d as nat),
{
    if d == 0 {
        '0'
    } else if d == 1 {
        '1'
    } else if d == 2 {
        '2'
    } else if d == 3 {
        '3'
    } else if d == 4 {
        '4'
    } else if d == 5 {
        '5'
    } else if d == 6 {
        '6'
    } else if d == 7 {
        '7'
    } else if d == 8 {
        '8'
    } else {
        '9'
    }
}

/// The decimal numeral of `n`.
pub fn decimal_chars(n: u64) -> (r: Vec<char>)
    ensures
        r@ == decimal(n as nat),
    decreases n,
{
    if n < 10 {
        let mut v: Vec<char> = Vec::new();
        v.push(digit_exec(n));
        assert(v@ =~= seq![digit_char(n as nat)]);
        v
    } else {
        let mut v = decimal_chars(n / 10);
        v.push(digit_exec(n % 10));
        v
    }
}

/// The decimal numeral of `n` as a `String`.
pub fn decimal_string(n: u64) -> (r: String)
    ensures
        r@ == decimal(n as nat),
{
    let v = decimal_chars(n);
    string_of(v.as_slice())
}

// ── JSON arrays of texts are read back uniquely ────────────────────────────

/// The value of a lower-case hexadecimal digit (inverse of [`hex_lower`]).
spec fn hex_value(c: char) -> int {
    let x = c as u32 as int;
    if x < 58 {
        x - 48
    } else {
        x - 87
    }
}

/// The character a short escape `\k` stands for.
spec fn short_escape(k: char) -> char {
    if k == 'b' {
        (8u32) as char
    } else if k == 't' {
        (9u32) as char
    } else if k == 'n' {
        (10u32) as char
    } else if k == 'f' {
        (12u32) as char
    } else if k == 'r' {
        (13u32) as char
    } else {
        k
    }
}

/// The number of characters a piece starting at `e[0]` takes.
spec fn piece_len(e: Seq<char>) -> int {
    if e[0] == '\\' {
        if e.len() >= 6 && e[1] == 'u' {
            6
        } else {
            2
        }
    } else {
        1
    }
}

/// The character a piece starting at `e[0]` stands for.
spec fn piece_char(e: Seq<char>) -> char {
    if e[0] == '\\' {
        if e.len() >= 6 && e[1] == 'u' {
            ((hex_value(e[4]) * 16 + hex_value(e[5])) as u32) as char
        } else {
            short_escape(e[1])
        }
    } else {
        e[0]
    }
}

/// The text of a JSON string literal whose body starts at `e[0]`, up to
/// its closing quote.
spec fn literal_text(e: Seq<char>) -> Seq<char>
    decreases e.len(),
{
    if e.len() == 0 || e[0] == '"' {
        Seq::empty()
    } else if e[0] == '\\' && e.len() < 2 {
        Seq::empty()
    } else {
        seq![piece_char(e)] + literal_text(e.skip(piece_len(e)))
    }
}

/// How many characters that body and its closing quote take.
spec fn literal_end(e: Seq<char>) -> int
    decreases e.len(),
{
    if e.len() == 0 {
        0
    } else if e[0] == '"' {
        1
    } else if e[0] == '\\' && e.len() < 2 {
        0
    } else {
        piece_len(e) + literal_end(e.skip(piece_len(e)))
    }
}

proof fn lemma_hex_value(d: int)
    requires
        0 <= d < 16,
    ensures
        hex_value(hex_lower(d)) == d,
{
    if d < 10 {
        assert(((48 + d) as char) as u32 as int == 48 + d);
    } else {
        assert(((87 + d) as char) as u32 as int == 87 + d);
    }
}

/// Reading one written character back.
proof fn lemma_piece_read_back(c: char, r: Seq<char>)
    ensures
        piece_len(json_piece(c) + r) == json_piece(c).len(),
        piece_char(json_piece(c) + r) == c,
        (json_piece(c) + r)[0] != '"',
        json_piece(c).len() >= 1,
{
    let e = json_piece(c) + r;
    let v = c as u32 as int;
    vstd::utf8::char_u32_cast(c, c as u32);
    if c == '"' || c == '\\' {
    } else if v == 8 || v == 9 || v == 10 || v == 12 || v == 13 {
        vstd::utf8::char_u32_cast(c, v as u32);
    } else if v < 32 {
        lemma_hex_value(v / 16);
        lemma_hex_value(v % 16);
        assert(hex_value(e[4]) * 16 + hex_value(e[5]) == v);
    } else {
    }
}

/// The front form of [`expand`].
proof fn lemma_expand_front<T>(s: Seq<char>, f: spec_fn(char) -> Seq<T>)
    requires
        s.len() > 0,
    ensures
        expand(s, f) == f(s[0]) + expand(s.skip(1), f),
    decreases s.len(),
{
    if s.len() == 1 {
        assert(s.drop_last() =~= Seq::<char>::empty());
        assert(s.skip(1) =~= Seq::<char>::empty());
        assert(expand(s.drop_last(), f) == Seq::<T>::empty());
        assert(expand(s.skip(1), f) == Seq::<T>::empty());
        assert(expand(s, f) =~= f(s[0]));
    } else {
        lemma_expand_front(s.drop_last(), f);
        assert(s.drop_last().skip(1) =~= s.skip(1).drop_last());
        assert(s.skip(1).last() == s.last());
        assert(expand(s, f) =~= f(s[0]) + expand(s.skip(1), f));
    }
}

/// A written literal body, its closing quote and anything after it read
/// back as the text.
proof fn lemma_literal_read_back(t: Seq<char>, r: Seq<char>)
    ensures
        literal_text(expand(t, |c: char| json_piece(c)) + seq!['"'] + r) == t,
        literal_end(expand(t, |c: char| json_piece(c)) + seq!['"'] + r) == expand(
            t,
            |c: char| json_piece(c),
        ).len() + 1,
    decreases t.len(),
{
    let f = |c: char| json_piece(c);
    let e = expand(t, f) + seq!['"'] + r;
    if t.len() == 0 {
        assert(e =~= seq!['"'] + r);
    } else {
        lemma_expand_front(t, f);
        let rest = expand(t.skip(1), f) + seq!['"'] + r;
        assert(e =~= json_piece(t[0]) + rest);
        lemma_piece_read_back(t[0], rest);
        assert(e.skip(json_piece(t[0]).len() as int) =~= rest);
        lemma_literal_read_back(t.skip(1), r);
        assert(seq![t[0]] + t.skip(1) =~= t);
    }
}

/// The texts of a run of comma-separated JSON string literals starting at
/// `e[0]`.
spec fn literals_text(e: Seq<char>) -> Seq<Seq<char>>
    decreases e.len(),
{
    if e.len() == 0 {
        Seq::empty()
    } else {
        let body = e.skip(1);
        let n = literal_end(body);
        if 0 <= n && 2 + n <= e.len() && e[1 + n] == ',' {
            seq![literal_text(body)] + literals_text(e.skip(2 + n))
        } else {
            seq![literal_text(body)]
        }
    }
}

/// The texts of a JSON array of string literals.
spec fn array_texts(j: Seq<char>) -> Seq<Seq<char>> {
    if j.len() >= 2 && j[1] == ']' {
        Seq::empty()
    } else {
        literals_text(j.skip(1))
    }
}

/// The front form of [`joined`].
proof fn lemma_joined_front(p: Seq<Seq<char>>, sep: Seq<char>)
    requires
        p.len() >= 2,
    ensures
        joined(p, sep) == p[0] + sep + joined(p.skip(1), sep),
    decreases p.len(),
{
    if p.len() == 2 {
        assert(p.drop_last().len() == 1);
        assert(p.skip(1).len() == 1);
        assert(joined(p.skip(1), sep) == p[1]);
        assert(joined(p.drop_last(), sep) == p[0]);
    } else {
        lemma_joined_front(p.drop_last(), sep);
        assert(p.drop_last().skip(1) =~= p.skip(1).drop_last());
        assert(p.skip(1).last() == p.last());
        assert(joined(p, sep) =~= p[0] + sep + joined(p.skip(1), sep));
    }
}

proof fn lemma_literals_read_back(l: Seq<Seq<char>>)
    requires
        l.len() >= 1,
    ensures
        literals_text(joined(l.map_values(|t: Seq<char>| json_literal(t)), seq![',']) + seq![']']) == l,
    decreases l.len(),
{
    let f = |c: char| json_piece(c);
    let p = l.map_values(|t: Seq<char>| json_literal(t));
    let e = joined(p, seq![',']) + seq![']'];
    let x = expand(l[0], f);
    if l.len() == 1 {
        assert(joined(p, seq![',']) == p[0]);
        assert(e.skip(1) =~= x + seq!['"'] + seq![']']);
        lemma_literal_read_back(l[0], seq![']']);
        assert(seq![l[0]] =~= l);
    } else {
        lemma_joined_front(p, seq![',']);
        let q = l.skip(1).map_values(|t: Seq<char>| json_literal(t));
        assert(p.skip(1) =~= q);
        let tail = seq![','] + joined(q, seq![',']) + seq![']'];
        assert(e =~= seq!['"'] + x + seq!['"'] + tail);
        assert(e.skip(1) =~= x + seq!['"'] + tail);
        lemma_literal_read_back(l[0], tail);
        let n: int = x.len() as int + 1;
        assert(e[1 + n] == ',');
        assert(e.skip(2 + n) =~= joined(q, seq![',']) + seq![']']);
        lemma_literals_read_back(l.skip(1));
        assert(seq![l[0]] + l.skip(1) =~= l);
    }
}

/// The JSON array of a list of texts reads back as that list.
proof fn lemma_array_read_back(l: Seq<Seq<char>>)
    ensures
        array_texts(json_array(l)) == l,
{
    let p = l.map_values(|t: Seq<char>| json_literal(t));
    let j = json_array(l);
    if l.len() == 0 {
        assert(p =~= Seq::<Seq<char>>::empty());
        assert(j =~= seq!['[', ']']);
        assert(l =~= Seq::<Seq<char>>::empty());
    } else {
        if l.len() == 1 {
            assert(joined(p, seq![',']) == p[0]);
        } else {
            lemma_joined_front(p, seq![',']);
        }
        assert(joined(p, seq![','])[0] == '"');
        assert(j[1] == '"');
        assert(j.skip(1) =~= joined(p, seq![',']) + seq![']']);
        lemma_literals_read_back(l);
    }
}

/// Two lists of texts with the same compact JSON array are the same list.
pub proof fn lemma_json_array_injective(l1: Seq<Seq<char>>, l2: Seq<Seq<char>>)
    requires
        json_array(l1) == json_array(l2),
    ensures
        l1 == l2,
{
    lemma_array_read_back(l1);
    lemma_array_read_back(l2);
}

} // verus!
