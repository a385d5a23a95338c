//! Character-level string utilities shared by configuration derivation,
//! discovery, and log reclassification.

use vstd::prelude::*;
use vstd::pervasive::VecAdditionalExecFns;
use vstd::string::StrSliceExecFns;
use vstd::string::StringExecFns;

verus! {

/// Relies on `String::push` of std: appends the given character to the end
/// of the string.
#[verifier::external_body]
pub fn push_char(s: &mut String, c: char)
    ensures
        final(s)@ == old(s)@.push(c),
{
    s.push(c);
}

/// True iff the two string slices hold the same characters.
pub fn str_eq(a: &str, b: &str) -> (r: bool)
    ensures
        r == (a@ == b@),
{
    let a_len = a.unicode_len();
    let b_len = b.unicode_len();
    if a_len != b_len {
        return false;
    }
    let mut i: usize = 0;
    while i < a_len
        invariant
            i <= a_len,
            a_len == a@.len(),
            b_len == b@.len(),
            a_len == b_len,
            forall|j: int| 0 <= j < i ==> a@[j] == b@[j],
        decreases a_len - i,
    {
        if a.get_char(i) != b.get_char(i) {
            return false;
        }
        i += 1;
    }
    proof {
        assert(a@ =~= b@);
    }
    true
}

/// A decimal digit character.
pub open spec fn spec_is_digit(c: char) -> bool {
    48 <= c as u32 <= 57
}

/// The numeric value of one digit character.
pub open spec fn spec_digit_val(c: char) -> int {
    c as u32 - 48
}

/// Every character of the sequence is a decimal digit.
pub open spec fn spec_all_digits(s: Seq<char>) -> bool {
    forall|i: int| 0 <= i < s.len() ==> spec_is_digit(#[trigger] s[i])
}

/// The integer denoted by a sequence of decimal digits (most significant first).
pub open spec fn spec_digits_val(s: Seq<char>) -> int
    decreases s.len(),
{
    if s.len() == 0 {
        0
    } else {
        spec_digits_val(s.drop_last()) * 10 + spec_digit_val(s.last())
    }
}

proof fn lemma_digits_val_nonneg(s: Seq<char>)
    requires
        spec_all_digits(s),
    ensures
        spec_digits_val(s) >= 0,
    decreases s.len(),
{
    if s.len() > 0 {
        assert(spec_all_digits(s.drop_last()));
        lemma_digits_val_nonneg(s.drop_last());
    }
}

/// The digits and the optional leading sign of a numeric literal.
pub open spec fn spec_int_digits(s: Seq<char>) -> Seq<char> {
    if s.len() > 0 && (s[0] == '+' || s[0] == '-') {
        s.subrange(1, s.len() as int)
    } else {
        s
    }
}

pub open spec fn spec_int_negative(s: Seq<char>) -> bool {
    s.len() > 0 && s[0] == '-'
}

/// What `str::parse::<i32>` returns: an optional sign followed by one or
/// more decimal digits, whose value fits in an `i32`; anything else is `None`.
pub open spec fn spec_parse_i32(s: Seq<char>) -> Option<i32> {
    let digits = spec_int_digits(s);
    if digits.len() == 0 || !spec_all_digits(digits) {
        None
    } else {
        let val = if spec_int_negative(s) {
            -spec_digits_val(digits)
        } else {
            spec_digits_val(digits)
        };
        if i32::MIN <= val <= i32::MAX {
            Some(val as i32)
        } else {
            None
        }
    }
}

/// Parse a signed 32-bit integer exactly as `str::parse::<i32>` does.
pub fn parse_i32(s: &str) -> (r: Option<i32>)
    ensures
        r == spec_parse_i32(s@),
{
    let n = s.unicode_len();
    if n == 0 {
        return None;
    }
    let first = s.get_char(0);
    let neg = first == '-';
    let has_sign = neg || first == '+';
    let start: usize = if has_sign { 1 } else { 0 };
    proof {
        assert(spec_int_digits(s@) =~= s@.subrange(start as int, n as int));
    }
    if start == n {
        return None;
    }
    let mut i: usize = start;
    let mut acc: i64 = 0;
    let mut overflow = false;
    while i < n
        invariant
            start <= i <= n,
            n == s@.len(),
            start == if spec_int_negative(s@) || (s@.len() > 0 && s@[0] == '+') { 1int } else { 0int },
            spec_int_digits(s@) =~= s@.subrange(start as int, n as int),
            spec_all_digits(s@.subrange(start as int, i as int)),
            !overflow ==> 0 <= acc <= 0x8000_0000i64,
            !overflow ==> acc == spec_digits_val(s@.subrange(start as int, i as int)),
            overflow ==> spec_digits_val(s@.subrange(start as int, i as int)) > 0x8000_0000,
        decreases n - i,
    {
        let c = s.get_char(i);
        let cv = c as u32;
        if cv < 48 || cv > 57 {
            proof {
                assert(!spec_is_digit(spec_int_digits(s@)[i - start]));
            }
            return None;
        }
        proof {
            let p = s@.subrange(start as int, i as int);
            let q = s@.subrange(start as int, (i + 1) as int);
            assert(q =~= p.push(s@[i as int]));
            assert(q.drop_last() =~= p);
            assert(q.last() == s@[i as int]);
            lemma_digits_val_nonneg(p);
        }
        if !overflow {
            acc = acc * 10 + (cv - 48) as i64;
            if acc > 0x8000_0000i64 {
                overflow = true;
            }
        }
        i += 1;
    }
    if overflow {
        return None;
    }
    if neg {
        proof {
            assert(spec_int_negative(s@));
        }
        Some((-acc) as i32)
    } else {
        if acc > 0x7fff_ffffi64 {
            None
        } else {
            Some(acc as i32)
        }
    }
}

/// What `str::parse::<u16>` returns: an optional `+` sign followed by one
/// or more decimal digits, whose value fits in a `u16`; anything else is
/// `None`.
pub open spec fn spec_parse_u16(s: Seq<char>) -> Option<u16> {
    let digits = if s.len() > 0 && s[0] == '+' {
        s.subrange(1, s.len() as int)
    } else {
        s
    };
    if digits.len() == 0 || !spec_all_digits(digits) {
        None
    } else if spec_digits_val(digits) <= u16::MAX {
        Some(spec_digits_val(digits) as u16)
    } else {
        None
    }
}

/// Parse an unsigned 16-bit integer exactly as `str::parse::<u16>` does.
pub fn parse_u16(s: &str) -> (r: Option<u16>)
    ensures
        r == spec_parse_u16(s@),
{
    let n = s.unicode_len();
    if n == 0 {
        return None;
    }
    let has_sign = s.get_char(0) == '+';
    let start: usize = if has_sign { 1 } else { 0 };
    proof {
        assert((if s@.len() > 0 && s@[0] == '+' {
            s@.subrange(1, s@.len() as int)
        } else {
            s@
        }) =~= s@.subrange(start as int, n as int));
    }
    if start == n {
        return None;
    }
    let mut i: usize = start;
    let mut acc: u32 = 0;
    let mut overflow = false;
    while i < n
        invariant
            start <= i <= n,
            n == s@.len(),
            start == if s@.len() > 0 && s@[0] == '+' { 1int } else { 0int },
            spec_all_digits(s@.subrange(start as int, i as int)),
            !overflow ==> acc <= u16::MAX,
            !overflow ==> acc == spec_digits_val(s@.subrange(start as int, i as int)),
            overflow ==> spec_digits_val(s@.subrange(start as int, i as int)) > u16::MAX,
        decreases n - i,
    {
        let c = s.get_char(i);
        let cv = c as u32;
        if cv < 48 || cv > 57 {
            proof {
                assert(!spec_is_digit(s@.subrange(start as int, n as int)[i - start]));
            }
            return None;
        }
        proof {
            let p = s@.subrange(start as int, i as int);
            let q = s@.subrange(start as int, (i + 1) as int);
            assert(q =~= p.push(s@[i as int]));
            assert(q.drop_last() =~= p);
            assert(q.last() == s@[i as int]);
            lemma_digits_val_nonneg(p);
        }
        if !overflow {
            acc = acc * 10 + (cv - 48);
            if acc > 65535 {
                overflow = true;
            }
        }
        i += 1;
    }
    if overflow {
        None
    } else {
        Some(acc as u16)
    }
}

/// One decimal digit as a character.
pub open spec fn spec_digit_char(d: int) -> char {
    if d == 0 {
        '0'
    } else if d == 1 {
        '1'
    } else if d == 2 {
        '2'
    } else if d == 3 {
        '3'
    } else if d == 4 {
        '4'
    } else if d == 5 {
        '5'
    } else if d == 6 {
        '6'
    } else if d == 7 {
        '7'
    } else if d == 8 {
        '8'
    } else {
        '9'
    }
}

/// The decimal rendering of a non-negative integer, most significant digit
/// first and without leading zeros.
pub open spec fn spec_dec_digits(n: int) -> Seq<char>
    decreases n,
{
    if n < 10 {
        seq![spec_digit_char(n)]
    } else {
        spec_dec_digits(n / 10).push(spec_digit_char(n % 10))
    }
}

fn dec_digit_str(d: u16) -> (r: &'static str)
    requires
        d < 10,
    ensures
        r@ =~= seq![spec_digit_char(d as int)],
{
    proof {
        reveal_strlit("0");
        reveal_strlit("1");
        reveal_strlit("2");
        reveal_strlit("3");
        reveal_strlit("4");
        reveal_strlit("5");
        reveal_strlit("6");
        reveal_strlit("7");
        reveal_strlit("8");
        reveal_strlit("9");
    }
    if d == 0 {
        "0"
    } else if d == 1 {
        "1"
    } else if d == 2 {
        "2"
    } else if d == 3 {
        "3"
    } else if d == 4 {
        "4"
    } else if d == 5 {
        "5"
    } else if d == 6 {
        "6"
    } else if d == 7 {
        "7"
    } else if d == 8 {
        "8"
    } else {
        "9"
    }
}

/// Render a `u16` in decimal, as `format!("{}", n)` would.
pub fn u16_to_dec(n: u16) -> (r: String)
    ensures
        r@ == spec_dec_digits(n as int),
    decreases n,
{
    if n < 10 {
        String::from_str(dec_digit_str(n))
    } else {
        let mut r = u16_to_dec(n / 10);
        push_char(&mut r, dec_digit_str(n % 10).get_char(0));
        r
    }
}

/// The value with every occurrence of a backslash followed by `n` replaced
/// by a newline character, scanning left to right as `str::replace` does.
pub open spec fn spec_unescape_newlines(s: Seq<char>) -> Seq<char>
    decreases s.len(),
{
    if s.len() == 0 {
        Seq::empty()
    } else if s.len() >= 2 && s[0] == '\\' && s[1] == 'n' {
        seq!['\n'] + spec_unescape_newlines(s.subrange(2, s.len() as int))
    } else {
        seq![s[0]] + spec_unescape_newlines(s.subrange(1, s.len() as int))
    }
}

proof fn lemma_unescape_step(s: Seq<char>, i: int)
    requires
        0 <= i <= s.len(),
    ensures
        i + 2 <= s.len() && s[i] == '\\' && s[i + 1] == 'n' ==> spec_unescape_newlines(
            s.subrange(i, s.len() as int),
        ) == seq!['\n'] + spec_unescape_newlines(s.subrange(i + 2, s.len() as int)),
        i < s.len() && !(i + 2 <= s.len() && s[i] == '\\' && s[i + 1] == 'n')
            ==> spec_unescape_newlines(s.subrange(i, s.len() as int)) == seq![s[i]]
            + spec_unescape_newlines(s.subrange(i + 1, s.len() as int)),
{
    let t = s.subrange(i, s.len() as int);
    if i < s.len() {
        if i + 2 <= s.len() && s[i] == '\\' && s[i + 1] == 'n' {
            assert(t.subrange(2, t.len() as int) =~= s.subrange(i + 2, s.len() as int));
        } else {
            assert(t.subrange(1, t.len() as int) =~= s.subrange(i + 1, s.len() as int));
        }
    }
}

/// Replace every `\n` escape in the value by a real newline, exactly as
/// `str::replace(value, "\\n", "\n")` does.
pub fn unescape_newlines(s: &str) -> (r: String)
    ensures
        r@ == spec_unescape_newlines(s@),
{
    let n = s.unicode_len();
    let mut r = String::new();
    let mut i: usize = 0;
    proof {
        assert(s@.subrange(0, n as int) =~= s@);
    }
    while i < n
        invariant
            0 <= i <= n,
            n == s@.len(),
            r@ + spec_unescape_newlines(s@.subrange(i as int, n as int))
                == spec_unescape_newlines(s@),
        decreases n - i,
    {
        proof {
            lemma_unescape_step(s@, i as int);
        }
        let ghost r0 = r@;
        let c = s.get_char(i);
        if c == '\\' && i + 1 < n && s.get_char(i + 1) == 'n' {
            push_char(&mut r, '\n');
            proof {
                let rest = spec_unescape_newlines(s@.subrange(i + 2, n as int));
                assert(r@ + rest =~= r0 + (seq!['\n'] + rest));
            }
            i += 2;
        } else {
            push_char(&mut r, c);
            proof {
                let rest = spec_unescape_newlines(s@.subrange(i + 1, n as int));
                assert(r@ + rest =~= r0 + (seq![s@[i as int]] + rest));
            }
            i += 1;
        }
    }
    proof {
        assert(s@.subrange(n as int, n as int) =~= Seq::<char>::empty());
        assert(r@ + Seq::<char>::empty() =~= r@);
    }
    r
}

/// The suffix after the last colon; the whole string when no colon occurs.
/// This is what `s.rsplit(':').next()` yields.
pub open spec fn spec_after_last_colon(s: Seq<char>) -> Seq<char>
    decreases s.len(),
{
    if s.len() == 0 {
        Seq::empty()
    } else if s.last() == ':' {
        Seq::empty()
    } else {
        spec_after_last_colon(s.drop_last()).push(s.last())
    }
}

proof fn lemma_after_last_colon_suffix(s: Seq<char>, i: int)
    requires
        0 <= i <= s.len(),
        forall|j: int| i <= j < s.len() ==> s[j] != ':',
        i > 0 ==> s[i - 1] == ':',
    ensures
        spec_after_last_colon(s) =~= s.subrange(i, s.len() as int),
    decreases s.len(),
{
    if i == s.len() {
        if i > 0 {
            assert(s.last() == ':');
        }
    } else {
        assert(s.last() != ':');
        let t = s.drop_last();
        assert(t =~= s.subrange(0, s.len() - 1));
        lemma_after_last_colon_suffix(t, i);
        assert(spec_after_last_colon(s) =~= t.subrange(i, t.len() as int).push(s.last()));
    }
}

/// The suffix of the string after its last colon (the whole string when it
/// holds no colon), as `s.rsplit(':').next()` yields it.
pub fn after_last_colon(s: &str) -> (r: String)
    ensures
        r@ == spec_after_last_colon(s@),
{
    let n = s.unicode_len();
    let mut i: usize = n;
    while i > 0
        invariant
            0 <= i <= n,
            n == s@.len(),
            forall|j: int| i <= j < n ==> s@[j] != ':',
        ensures
            i > 0 ==> s@[i - 1] == ':',
        decreases i,
    {
        if s.get_char(i - 1) == ':' {
            break;
        }
        i -= 1;
    }
    proof {
        lemma_after_last_colon_suffix(s@, i as int);
    }
    let suffix = s.substring_char(i, n);
    String::from_str(suffix)
}

/// The segments between commas, in order, exactly as `s.split(',')` yields
/// them: empty segments are kept, and the empty string yields one empty
/// segment.
pub open spec fn spec_split_commas(s: Seq<char>) -> Seq<Seq<char>>
    decreases s.len(),
{
    if s.len() == 0 {
        seq![Seq::<char>::empty()]
    } else if s[0] == ',' {
        seq![Seq::<char>::empty()] + spec_split_commas(s.subrange(1, s.len() as int))
    } else {
        let rest = spec_split_commas(s.subrange(1, s.len() as int));
        rest.update(0, seq![s[0]] + rest[0])
    }
}

proof fn lemma_split_commas_len(s: Seq<char>)
    ensures
        spec_split_commas(s).len() >= 1,
    decreases s.len(),
{
    if s.len() > 0 {
        lemma_split_commas_len(s.subrange(1, s.len() as int));
    }
}

fn split_commas_from(s: &str, i: usize) -> (r: Vec<String>)
    requires
        i <= s@.len(),
    ensures
        r.deep_view() == spec_split_commas(s@.subrange(i as int, s@.len() as int)),
        r.len() >= 1,
    decreases s@.len() - i,
{
    let n = s.unicode_len();
    let ghost suffix = s@.subrange(i as int, n as int);
    proof {
        lemma_split_commas_len(suffix);
    }
    if i == n {
        let mut r: Vec<String> = Vec::new();
        r.push(String::new());
        proof {
            assert(r.deep_view() =~= spec_split_commas(suffix));
        }
        return r;
    }
    let c = s.get_char(i);
    proof {
        assert(suffix[0] == s@[i as int]);
        assert(suffix.subrange(1, suffix.len() as int) =~= s@.subrange(i + 1, n as int));
    }
    let mut rest = split_commas_from(s, i + 1);
    let ghost rest0 = rest.deep_view();
    if c == ',' {
        let mut r: Vec<String> = Vec::new();
        r.push(String::new());
        r.append(&mut rest);
        proof {
            assert(r.deep_view() =~= seq![Seq::<char>::empty()] + rest0);
            assert(r.deep_view() =~= spec_split_commas(suffix));
        }
        r
    } else {
        let mut first = String::new();
        push_char(&mut first, c);
        first.append(rest[0].as_str());
        proof {
            assert(first@ =~= seq![s@[i as int]] + rest0[0]);
        }
        rest.set(0, first);
        proof {
            assert(rest.deep_view() =~= rest0.update(0, seq![s@[i as int]] + rest0[0]));
            assert(rest.deep_view() =~= spec_split_commas(suffix));
        }
        rest
    }
}

/// Split the string on commas, exactly as `s.split(',').collect()` does;
/// the result always holds at least one segment.
pub fn split_commas(s: &str) -> (r: Vec<String>)
    ensures
        r.deep_view() == spec_split_commas(s@),
        r.len() >= 1,
{
    proof {
        assert(s@.subrange(0, s@.len() as int) =~= s@);
    }
    split_commas_from(s, 0)
}

/// An ASCII whitespace character, as `char::is_ascii_whitespace` counts
/// them.
pub open spec fn spec_is_ascii_ws(c: char) -> bool {
    c == ' ' || c == '\t' || c == '\n' || c == '\r' || c as u32 == 12
}

/// The sequence with leading whitespace removed.
pub open spec fn spec_trim_start(s: Seq<char>) -> Seq<char>
    decreases s.len(),
{
    if s.len() > 0 && spec_is_ascii_ws(s[0]) {
        spec_trim_start(s.subrange(1, s.len() as int))
    } else {
        s
    }
}

/// The sequence with trailing whitespace removed.
pub open spec fn spec_trim_end(s: Seq<char>) -> Seq<char>
    decreases s.len(),
{
    if s.len() > 0 && spec_is_ascii_ws(s.last()) {
        spec_trim_end(s.drop_last())
    } else {
        s
    }
}

/// The sequence with whitespace removed from both ends.
pub open spec fn spec_trim(s: Seq<char>) -> Seq<char> {
    spec_trim_end(spec_trim_start(s))
}

proof fn lemma_trim_start_skip(s: Seq<char>, i: int)
    requires
        0 <= i <= s.len(),
        forall|j: int| 0 <= j < i ==> spec_is_ascii_ws(s[j]),
    ensures
        spec_trim_start(s) =~= spec_trim_start(s.subrange(i, s.len() as int)),
    decreases i,
{
    if i == 0 {
        assert(s.subrange(0, s.len() as int) =~= s);
    } else {
        assert(spec_is_ascii_ws(s[0]));
        let t = s.subrange(1, s.len() as int);
        lemma_trim_start_skip(t, i - 1);
        assert(t.subrange(i - 1, t.len() as int) =~= s.subrange(i, s.len() as int));
    }
}

proof fn lemma_trim_end_skip(s: Seq<char>, j: int)
    requires
        0 <= j <= s.len(),
        forall|k: int| j <= k < s.len() ==> spec_is_ascii_ws(s[k]),
    ensures
        spec_trim_end(s) =~= spec_trim_end(s.subrange(0, j)),
    decreases s.len(),
{
    if j == s.len() {
        assert(s.subrange(0, s.len() as int) =~= s);
    } else {
        assert(spec_is_ascii_ws(s.last()));
        let t = s.drop_last();
        assert(t =~= s.subrange(0, s.len() - 1));
        lemma_trim_end_skip(t, j);
        assert(t.subrange(0, j) =~= s.subrange(0, j));
    }
}

/// Remove ASCII whitespace from both ends of the string, as `str::trim`
/// does for such content.
pub fn trim_ascii(s: &str) -> (r: String)
    ensures
        r@ == spec_trim(s@),
{
    let n = s.unicode_len();
    let mut i: usize = 0;
    while i < n
        invariant
            0 <= i <= n,
            n == s@.len(),
            forall|j: int| 0 <= j < i ==> spec_is_ascii_ws(s@[j]),
        ensures
            i < n ==> !spec_is_ascii_ws(s@[i as int]),
        decreases n - i,
    {
        let c = s.get_char(i);
        let cv = c as u32;
        if !(c == ' ' || c == '\t' || c == '\n' || c == '\r' || cv == 12) {
            break;
        }
        i += 1;
    }
    let mut j: usize = n;
    while j > i
        invariant
            i <= j <= n,
            n == s@.len(),
            forall|k: int| j <= k < n ==> spec_is_ascii_ws(s@[k]),
        ensures
            j > i ==> !spec_is_ascii_ws(s@[j - 1]),
        decreases j,
    {
        let c = s.get_char(j - 1);
        let cv = c as u32;
        if !(c == ' ' || c == '\t' || c == '\n' || c == '\r' || cv == 12) {
            break;
        }
        j -= 1;
    }
    proof {
        lemma_trim_start_skip(s@, i as int);
        let t = s@.subrange(i as int, n as int);
        if i < n {
            assert(!spec_is_ascii_ws(t[0]));
        }
        assert(spec_trim_start(s@) =~= t);
        lemma_trim_end_skip(t, j - i);
        let u = t.subrange(0, j - i);
        if j > i {
            assert(!spec_is_ascii_ws(u.last()));
        }
        assert(spec_trim_end(t) =~= u);
        assert(u =~= s@.subrange(i as int, j as int));
    }
    let mid = s.substring_char(i, j);
    String::from_str(mid)
}

} // verus!
