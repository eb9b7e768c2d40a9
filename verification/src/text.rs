//! Character-level string helpers shared by the console's pages.
//!
//! Strings are reasoned about through their character sequences (`s@`).
use vstd::prelude::*;

verus! {

// ── what std computes ────────────────────────────────────────────────────────

/// What `str::to_lowercase` returns for a string (full Unicode case mapping).
pub uninterp spec fn lowercase_text(s: Seq<char>) -> Seq<char>;

/// What `str::to_uppercase` returns for a string (full Unicode case mapping).
pub uninterp spec fn uppercase_text(s: Seq<char>) -> Seq<char>;

/// Whether a character has the Unicode `White_Space` property, which
/// `char::is_whitespace` documents: tab through carriage return, space, next
/// line, no-break space, ogham space mark, the spaces U+2000 to U+200A, the
/// line and paragraph separators, narrow no-break space, medium mathematical
/// space and ideographic space.
pub open spec fn is_white(c: char) -> bool {
    let u: u32 = c as u32;
    ||| 0x09 <= u <= 0x0D
    ||| u == 0x20
    ||| u == 0x85
    ||| u == 0xA0
    ||| u == 0x1680
    ||| 0x2000 <= u <= 0x200A
    ||| u == 0x2028
    ||| u == 0x2029
    ||| u == 0x202F
    ||| u == 0x205F
    ||| u == 0x3000
}

/// Calls `String::push`: the string grows by the one character.
#[verifier::external_body]
pub(crate) fn push_char(s: &mut String, c: char)
    ensures
        final(s)@ == old(s)@.push(c),
{
    s.push(c);
}

/// Calls `str::to_lowercase`; its result is named by `lowercase_text`.
#[verifier::external_body]
pub(crate) fn to_lowercase(s: &str) -> (res: String)
    ensures
        res@ == lowercase_text(s@),
{
    s.to_lowercase()
}

/// Calls `str::to_uppercase`; its result is named by `uppercase_text`.
#[verifier::external_body]
pub(crate) fn to_uppercase(s: &str) -> (res: String)
    ensures
        res@ == uppercase_text(s@),
{
    s.to_uppercase()
}

/// Whether a character is white space in the sense of `char::is_whitespace`:
/// the Unicode `White_Space` property, tested range by range.
pub(crate) fn char_is_whitespace(c: char) -> (res: bool)
    ensures
        res == is_white(c),
{
    let u: u32 = c as u32;
    (0x09 <= u && u <= 0x0D) || u == 0x20 || u == 0x85 || u == 0xA0 || u == 0x1680
        || (0x2000 <= u && u <= 0x200A) || u == 0x2028 || u == 0x2029 || u == 0x202F
        || u == 0x205F || u == 0x3000
}

// ── specifications ───────────────────────────────────────────────────────────

/// The text of an optional string.
pub open spec fn opt_view(o: Option<String>) -> Option<Seq<char>> {
    match o {
        Some(s) => Some(s@),
        None => None,
    }
}

pub open spec fn is_ascii_digit(c: char) -> bool {
    '0' <= c && c <= '9'
}

pub open spec fn is_ascii_lower(c: char) -> bool {
    'a' <= c && c <= 'z'
}

pub open spec fn is_ascii_upper(c: char) -> bool {
    'A' <= c && c <= 'Z'
}

pub open spec fn is_ascii_alnum(c: char) -> bool {
    is_ascii_digit(c) || is_ascii_lower(c) || is_ascii_upper(c)
}

/// `char::to_ascii_lowercase`.
pub open spec fn ascii_lower(c: char) -> char {
    if is_ascii_upper(c) {
        ((c as u32) + 32) as char
    } else {
        c
    }
}

/// `char::to_ascii_uppercase`.
pub open spec fn ascii_upper(c: char) -> char {
    if is_ascii_lower(c) {
        ((c as u32) - 32) as char
    } else {
        c
    }
}

/// `s` with its leading whitespace removed.
pub open spec fn trim_start_spec(s: Seq<char>) -> Seq<char>
    decreases s.len(),
{
    if s.len() > 0 && is_white(s[0]) {
        trim_start_spec(s.drop_first())
    } else {
        s
    }
}

/// `s` with its trailing whitespace removed.
pub open spec fn trim_end_spec(s: Seq<char>) -> Seq<char>
    decreases s.len(),
{
    if s.len() > 0 && is_white(s.last()) {
        trim_end_spec(s.drop_last())
    } else {
        s
    }
}

/// `str::trim`: leading and trailing whitespace removed.
pub open spec fn trim_spec(s: Seq<char>) -> Seq<char> {
    trim_end_spec(trim_start_spec(s))
}

/// `needle` occurs in `hay` as a contiguous run (the empty needle always does).
pub open spec fn occurs_in(hay: Seq<char>, needle: Seq<char>) -> bool {
    exists|i: int|
        0 <= i && i + needle.len() <= hay.len() && #[trigger] hay.subrange(i, i + needle.len())
            == needle
}

/// Every occurrence of `from` replaced by `to`.
pub open spec fn replace_spec(s: Seq<char>, from: char, to: char) -> Seq<char> {
    s.map_values(|c: char| if c == from { to } else { c })
}

/// The first `n` characters of `s` (all of them when it is shorter).
pub open spec fn take_spec(s: Seq<char>, n: int) -> Seq<char> {
    if n < s.len() {
        s.take(n)
    } else {
        s
    }
}

pub open spec fn digit_char(d: int) -> char {
    (('0' as int) + d) as char
}

/// Decimal digits of a natural number, without leading zeros ("0" for zero).
pub open spec fn nat_digits(n: nat) -> Seq<char>
    decreases n,
{
    if n < 10 {
        seq![digit_char(n as int)]
    } else {
        nat_digits((n / 10) as nat).push(digit_char((n % 10) as int))
    }
}

/// What `Display` prints for an integer.
pub open spec fn decimal_spec(n: int) -> Seq<char> {
    if n < 0 {
        seq!['-'] + nat_digits((-n) as nat)
    } else {
        nat_digits(n as nat)
    }
}

pub open spec fn all_digits(s: Seq<char>) -> bool {
    forall|i: int| 0 <= i < s.len() ==> is_ascii_digit(#[trigger] s[i])
}

/// The number that a run of decimal digits stands for.
pub open spec fn digits_value(s: Seq<char>) -> int
    decreases s.len(),
{
    if s.len() == 0 {
        0
    } else {
        digits_value(s.drop_last()) * 10 + (s.last() as int - '0' as int)
    }
}

/// Integer syntax of `FromStr` for signed integers: an optional `+` or `-`,
/// then one or more ASCII digits, nothing else.
pub open spec fn int_syntax(s: Seq<char>) -> Option<int> {
    let neg = s.len() > 0 && s[0] == '-';
    let body = if s.len() > 0 && (s[0] == '-' || s[0] == '+') {
        s.drop_first()
    } else {
        s
    };
    if body.len() > 0 && all_digits(body) {
        Some(
            if neg {
                -digits_value(body)
            } else {
                digits_value(body)
            },
        )
    } else {
        None
    }
}

/// What `s.parse::<i64>().ok()` gives.
pub open spec fn parse_i64_spec(s: Seq<char>) -> Option<int> {
    match int_syntax(s) {
        Some(v) => if i64::MIN <= v <= i64::MAX {
            Some(v)
        } else {
            None
        },
        None => None,
    }
}

/// What `s.parse::<i32>().ok()` gives.
pub open spec fn parse_i32_spec(s: Seq<char>) -> Option<int> {
    match int_syntax(s) {
        Some(v) => if i32::MIN <= v <= i32::MAX {
            Some(v)
        } else {
            None
        },
        None => None,
    }
}

// ── executable helpers ───────────────────────────────────────────────────────

/// The characters of `s`, in order.
pub fn chars_of(s: &str) -> (res: Vec<char>)
    ensures
        res@ == s@,
{
    let mut res: Vec<char> = Vec::new();
    for c in it: s.chars()
        invariant
            res@ == it.seq().take(it.index() as int),
            it.seq() == s@,
    {
        res.push(c);
    }
    res
}

/// A string made of the characters `cs[from..to]`.
pub fn string_of_range(cs: &Vec<char>, from: usize, to: usize) -> (res: String)
    requires
        from <= to <= cs.len(),
    ensures
        res@ == cs@.subrange(from as int, to as int),
{
    let mut res = String::new();
    let mut i: usize = from;
    while i < to
        invariant
            from <= i <= to <= cs.len(),
            res@ == cs@.subrange(from as int, i as int),
        decreases to - i,
    {
        push_char(&mut res, cs[i]);
        i = i + 1;
        assert(res@ =~= cs@.subrange(from as int, i as int));
    }
    res
}

/// A string made of all the characters of `cs`.
pub fn string_of(cs: &Vec<char>) -> (res: String)
    ensures
        res@ == cs@,
{
    let res = string_of_range(cs, 0, cs.len());
    assert(cs@.subrange(0, cs@.len() as int) =~= cs@);
    res
}

/// A fresh copy of a string slice.
pub fn owned(s: &str) -> (res: String)
    ensures
        res@ == s@,
{
    let cs = chars_of(s);
    string_of(&cs)
}

/// `a == b` on string slices.
pub fn str_eq(a: &str, b: &str) -> (res: bool)
    ensures
        res == (a@ == b@),
{
    let x = chars_of(a);
    let y = chars_of(b);
    if x.len() != y.len() {
        return false;
    }
    let mut i: usize = 0;
    while i < x.len()
        invariant
            x@ == a@,
            y@ == b@,
            x.len() == y.len(),
            i <= x.len(),
            forall|k: int| 0 <= k < i ==> x@[k] == y@[k],
        decreases x.len() - i,
    {
        if x[i] != y[i] {
            return false;
        }
        i = i + 1;
    }
    assert(x@ =~= y@);
    true
}

/// The number of characters of `s`.
pub fn char_len(s: &str) -> (res: usize)
    ensures
        res == s@.len(),
{
    chars_of(s).len()
}

/// `str::trim`.
pub fn trim(s: &str) -> (res: String)
    ensures
        res@ == trim_spec(s@),
{
    let cs = chars_of(s);
    let mut start: usize = 0;
    assert(cs@.subrange(0, cs.len() as int) =~= cs@);
    while start < cs.len() && char_is_whitespace(cs[start])
        invariant
            cs@ == s@,
            start <= cs.len(),
            trim_start_spec(s@) == trim_start_spec(cs@.subrange(start as int, cs.len() as int)),
        decreases cs.len() - start,
    {
        let ghost rest = cs@.subrange(start as int, cs.len() as int);
        assert(rest.drop_first() =~= cs@.subrange(start + 1, cs.len() as int));
        start = start + 1;
    }
    let ghost tail = cs@.subrange(start as int, cs.len() as int);
    assert(trim_start_spec(tail) == tail);
    if start == 0 {
        assert(tail =~= s@);
    }
    let mut end: usize = cs.len();
    while end > start && char_is_whitespace(cs[end - 1])
        invariant
            cs@ == s@,
            start <= end <= cs.len(),
            tail == cs@.subrange(start as int, cs.len() as int),
            trim_end_spec(tail) == trim_end_spec(cs@.subrange(start as int, end as int)),
        decreases end,
    {
        let ghost part = cs@.subrange(start as int, end as int);
        assert(part.drop_last() =~= cs@.subrange(start as int, end - 1));
        end = end - 1;
    }
    string_of_range(&cs, start, end)
}

/// Whether `s` is empty once trimmed.
pub fn is_blank(s: &str) -> (res: bool)
    ensures
        res == (trim_spec(s@).len() == 0),
{
    let t = trim(s);
    char_len(t.as_str()) == 0
}

/// `hay.contains(needle)` for a string needle.
pub fn contains(hay: &str, needle: &str) -> (res: bool)
    ensures
        res == occurs_in(hay@, needle@),
{
    let h = chars_of(hay);
    let n = chars_of(needle);
    if n.len() > h.len() {
        return false;
    }
    let mut i: usize = 0;
    while i <= h.len() - n.len()
        invariant
            h@ == hay@,
            n@ == needle@,
            n.len() <= h.len(),
            i <= h.len() - n.len() + 1,
            forall|k: int| 0 <= k < i ==> #[trigger] h@.subrange(k, k + n.len()) != n@,
        decreases h.len() - i,
    {
        let mut j: usize = 0;
        let mut same = true;
        while j < n.len()
            invariant
                h@ == hay@,
                n@ == needle@,
                i + n.len() <= h.len(),
                j <= n.len(),
                same == (forall|k: int| 0 <= k < j ==> h@[i + k] == n@[k]),
            decreases n.len() - j,
        {
            if h[i + j] != n[j] {
                same = false;
            }
            j = j + 1;
        }
        if same {
            assert(h@.subrange(i as int, i + n.len()) =~= n@);
            return true;
        }
        assert(h@.subrange(i as int, i + n.len())[0] == h@[i as int] || n.len() == 0);
        assert(exists|k: int| 0 <= k < n.len() && h@[i + k] != n@[k]);
        let ghost k = choose|k: int| 0 <= k < n.len() && h@[i + k] != n@[k];
        assert(h@.subrange(i as int, i + n.len())[k] != n@[k]);
        i = i + 1;
    }
    assert forall|k: int| 0 <= k && k + n@.len() <= h@.len() implies #[trigger] h@.subrange(k, k + n@.len()) != n@ by {
        assert(k < i);
    }
    false
}

/// Every occurrence of the character `from` replaced by `to`.
pub fn replace_char(s: &str, from: char, to: char) -> (res: String)
    ensures
        res@ == replace_spec(s@, from, to),
{
    let cs = chars_of(s);
    let mut res = String::new();
    let mut i: usize = 0;
    while i < cs.len()
        invariant
            cs@ == s@,
            i <= cs.len(),
            res@ == replace_spec(cs@.take(i as int), from, to),
        decreases cs.len() - i,
    {
        let c = cs[i];
        if c == from {
            push_char(&mut res, to);
        } else {
            push_char(&mut res, c);
        }
        i = i + 1;
        assert(replace_spec(cs@.take(i as int), from, to) =~= replace_spec(cs@.take(i - 1), from, to).push(
            if c == from { to } else { c },
        ));
    }
    assert(cs@.take(cs.len() as int) =~= cs@);
    res
}

/// `s.chars().take(n).collect::<String>()`.
pub fn take_chars(s: &str, n: usize) -> (res: String)
    ensures
        res@ == take_spec(s@, n as int),
{
    let cs = chars_of(s);
    if n < cs.len() {
        string_of_range(&cs, 0, n)
    } else {
        string_of(&cs)
    }
}

/// `c.to_ascii_lowercase()`.
pub fn ascii_lowercase(c: char) -> (res: char)
    ensures
        res == ascii_lower(c),
{
    if 'A' <= c && c <= 'Z' {
        let v = (c as u32 + 32) as u8;
        v as char
    } else {
        c
    }
}

/// `c.to_ascii_uppercase()`.
pub fn ascii_uppercase(c: char) -> (res: char)
    ensures
        res == ascii_upper(c),
{
    if 'a' <= c && c <= 'z' {
        let v = (c as u32 - 32) as u8;
        v as char
    } else {
        c
    }
}

/// `c.is_ascii_alphanumeric()`.
pub fn is_ascii_alphanumeric(c: char) -> (res: bool)
    ensures
        res == is_ascii_alnum(c),
{
    ('0' <= c && c <= '9') || ('a' <= c && c <= 'z') || ('A' <= c && c <= 'Z')
}

/// Appends `t` to `s`.
pub fn append(s: &mut String, t: &str)
    ensures
        final(s)@ == old(s)@ + t@,
{
    let cs = chars_of(t);
    let mut i: usize = 0;
    while i < cs.len()
        invariant
            cs@ == t@,
            i <= cs.len(),
            s@ == old(s)@ + cs@.take(i as int),
        decreases cs.len() - i,
    {
        push_char(s, cs[i]);
        i = i + 1;
        assert(old(s)@ + cs@.take(i as int) =~= (old(s)@ + cs@.take(i - 1)).push(cs@[i - 1]));
    }
    assert(cs@.take(cs.len() as int) =~= cs@);
}

/// `format!("{}{}", a, b)`.
pub fn concat2(a: &str, b: &str) -> (res: String)
    ensures
        res@ == a@ + b@,
{
    let mut s = owned(a);
    append(&mut s, b);
    s
}

/// `format!("{}{}{}", a, b, c)`.
pub fn concat3(a: &str, b: &str, c: &str) -> (res: String)
    ensures
        res@ == a@ + b@ + c@,
{
    let mut s = owned(a);
    append(&mut s, b);
    append(&mut s, c);
    s
}

/// Decimal digits of `n` (`n.to_string()` for a natural number).
fn nat_decimal(n: u64) -> (res: Vec<char>)
    ensures
        res@ == nat_digits(n as nat),
    decreases n,
{
    if n < 10 {
        let c = (48 + n as u8) as char;
        assert(c == digit_char(n as int));
        let mut v: Vec<char> = Vec::new();
        v.push(c);
        assert(v@ =~= seq![digit_char(n as int)]);
        v
    } else {
        let mut v = nat_decimal(n / 10);
        let d = (n % 10) as u8;
        let c = (48 + d) as char;
        v.push(c);
        v
    }
}

/// `n.to_string()`.
pub fn decimal(n: i64) -> (res: String)
    ensures
        res@ == decimal_spec(n as int),
{
    if n < 0 {
        let m: u64 = if n == i64::MIN {
            9223372036854775808u64
        } else {
            (-n) as u64
        };
        let digits = nat_decimal(m);
        let mut res = String::new();
        push_char(&mut res, '-');
        let body = string_of(&digits);
        append(&mut res, body.as_str());
        res
    } else {
        let digits = nat_decimal(n as u64);
        string_of(&digits)
    }
}

/// `n.to_string()` for an unsigned integer.
pub fn decimal_unsigned(n: u64) -> (res: String)
    ensures
        res@ == nat_digits(n as nat),
{
    let digits = nat_decimal(n);
    string_of(&digits)
}

/// `s.parse::<i64>().ok()`.
pub fn parse_i64(s: &str) -> (res: Option<i64>)
    ensures
        match res {
            Some(v) => parse_i64_spec(s@) == Some(v as int),
            None => parse_i64_spec(s@) is None,
        },
{
    let cs = chars_of(s);
    let neg = cs.len() > 0 && cs[0] == '-';
    let start: usize = if cs.len() > 0 && (cs[0] == '-' || cs[0] == '+') {
        1
    } else {
        0
    };
    let ghost body = if s@.len() > 0 && (s@[0] == '-' || s@[0] == '+') {
        s@.drop_first()
    } else {
        s@
    };
    assert(body =~= cs@.subrange(start as int, cs.len() as int));
    if start == cs.len() {
        return None;
    }
    let limit: i128 = 9223372036854775808i128;
    let mut acc: i128 = 0;
    let mut i: usize = start;
    while i < cs.len()
        invariant
            cs@ == s@,
            start <= i <= cs.len(),
            body == cs@.subrange(start as int, cs.len() as int),
            body == (if s@.len() > 0 && (s@[0] == '-' || s@[0] == '+') {
                s@.drop_first()
            } else {
                s@
            }),
            neg == (s@.len() > 0 && s@[0] == '-'),
            all_digits(cs@.subrange(start as int, i as int)),
            acc == digits_value(cs@.subrange(start as int, i as int)),
            0 <= acc <= limit,
            limit == 9223372036854775808i128,
        decreases cs.len() - i,
    {
        let c = cs[i];
        let ghost prefix = cs@.subrange(start as int, i + 1);
        assert(prefix.drop_last() =~= cs@.subrange(start as int, i as int));
        if !('0' <= c && c <= '9') {
            assert(body[i - start] == c);
            assert(!all_digits(body));
            assert(int_syntax(s@) is None);
            return None;
        }
        let d = (c as u32 - 48) as i128;
        acc = acc * 10 + d;
        i = i + 1;
        if acc > limit {
            proof {
                if all_digits(body) {
                    lemma_digits_value_grows(body, i - start);
                    assert(body.take(i - start) =~= cs@.subrange(start as int, i as int));
                    assert(digits_value(body) > limit);
                }
            }
            return None;
        }
    }
    assert(cs@.subrange(start as int, i as int) =~= body);
    if neg {
        Some((-acc) as i64)
    } else if acc == limit {
        None
    } else {
        Some(acc as i64)
    }
}

/// A longer run of digits never stands for a smaller number.
proof fn lemma_digits_value_grows(s: Seq<char>, k: int)
    requires
        0 <= k <= s.len(),
        all_digits(s),
    ensures
        digits_value(s.take(k)) <= digits_value(s),
    decreases s.len() - k,
{
    if k < s.len() {
        lemma_digits_value_grows(s, k + 1);
        assert(s.take(k + 1).drop_last() =~= s.take(k));
        assert(digits_value(s.take(k + 1)) == digits_value(s.take(k)) * 10 + (s[k] as int - '0' as int));
        lemma_digits_value_nonneg(s.take(k));
    } else {
        assert(s.take(k) =~= s);
    }
}

proof fn lemma_digits_value_nonneg(s: Seq<char>)
    requires
        all_digits(s),
    ensures
        digits_value(s) >= 0,
    decreases s.len(),
{
    if s.len() > 0 {
        lemma_digits_value_nonneg(s.drop_last());
    }
}

/// `s.parse::<i32>().ok()`.
pub fn parse_i32(s: &str) -> (res: Option<i32>)
    ensures
        match res {
            Some(v) => parse_i32_spec(s@) == Some(v as int),
            None => parse_i32_spec(s@) is None,
        },
{
    match parse_i64(s) {
        Some(v) => if -2147483648 <= v && v <= 2147483647 {
            Some(v as i32)
        } else {
            None
        },
        None => None,
    }
}

} // verus!
