//! Splitting and numeric parsing for URL paths.
//!
//! Path segments are separated by `/`, identifier lists by `,`.  Numeric
//! path parameters follow the grammar of Rust's integer `FromStr`: an
//! optional sign (only `+` for the unsigned types) followed by at least one
//! decimal digit, rejecting values out of range.

use vstd::prelude::*;

verus! {

/// The views of a sequence of character vectors.
pub open spec fn views_of(r: Seq<Vec<char>>) -> Seq<Seq<char>> {
    r.map_values(|e: Vec<char>| e@)
}

/// Splitting a sequence at every occurrence of `sep`, keeping empty pieces,
/// as `str::split` does: the empty sequence yields one empty piece.
pub open spec fn split_at_char(s: Seq<char>, sep: char) -> Seq<Seq<char>>
    decreases s.len(),
{
    if s.len() == 0 {
        seq![Seq::<char>::empty()]
    } else {
        let rest = split_at_char(s.drop_last(), sep);
        if s.last() == sep {
            rest.push(Seq::<char>::empty())
        } else {
            rest.update(rest.len() - 1, rest.last().push(s.last()))
        }
    }
}

/// A split always yields at least one piece.
pub proof fn lemma_split_len(s: Seq<char>, sep: char)
    ensures
        split_at_char(s, sep).len() >= 1,
    decreases s.len(),
{
    if s.len() > 0 {
        lemma_split_len(s.drop_last(), sep);
    }
}

/// A separator followed by a piece without it splits into the empty piece
/// and that piece.
pub proof fn lemma_split_lead_sep(name: Seq<char>, sep: char)
    requires
        forall|i: int| 0 <= i < name.len() ==> name[i] != sep,
    ensures
        split_at_char(seq![sep] + name, sep) == seq![Seq::<char>::empty(), name],
    decreases name.len(),
{
    let s = seq![sep] + name;
    if name.len() == 0 {
        assert(s =~= seq![sep]);
        assert(s.drop_last() =~= Seq::<char>::empty());
        assert(s.last() == sep);
        assert(name =~= Seq::<char>::empty());
        assert(split_at_char(Seq::<char>::empty(), sep) =~= seq![Seq::<char>::empty()]);
        assert(split_at_char(s, sep) =~= seq![Seq::<char>::empty(), name]);
    } else {
        assert(forall|i: int|
            0 <= i < name.drop_last().len() ==> name.drop_last()[i] != sep);
        lemma_split_lead_sep(name.drop_last(), sep);
        assert(s.drop_last() =~= seq![sep] + name.drop_last());
        assert(s.last() == name.last());
        assert(s.last() != sep);
        assert(name.drop_last().push(name.last()) =~= name);
        assert(split_at_char(s, sep) =~= seq![Seq::<char>::empty(), name]);
    }
}

/// Splits a character vector at every occurrence of `sep`.
pub fn split_char(v: &Vec<char>, sep: char) -> (r: Vec<Vec<char>>)
    ensures
        views_of(r@) == split_at_char(v@, sep),
{
    let mut done: Vec<Vec<char>> = Vec::new();
    let mut cur: Vec<char> = Vec::new();
    let mut i: usize = 0;
    assert(v@.take(0) =~= Seq::<char>::empty());
    assert(views_of(done@).push(cur@) =~= split_at_char(v@.take(0), sep));
    while i < v.len()
        invariant
            i <= v.len(),
            views_of(done@).push(cur@) == split_at_char(v@.take(i as int), sep),
        decreases v.len() - i,
    {
        let ghost pre = v@.take(i as int);
        let ghost rest = split_at_char(pre, sep);
        assert(v@.take(i as int + 1).drop_last() =~= pre);
        assert(v@.take(i as int + 1).last() == v@[i as int]);
        if v[i] == sep {
            done.push(cur);
            cur = Vec::new();
            assert(views_of(done@).push(cur@) =~= rest.push(Seq::<char>::empty()));
        } else {
            let ghost old_cur = cur@;
            cur.push(v[i]);
            proof {
                lemma_split_len(pre, sep);
                assert(rest.last() == old_cur);
                assert(views_of(done@).push(cur@) =~= rest.update(
                    rest.len() - 1,
                    rest.last().push(v@[i as int]),
                ));
            }
        }
        i = i + 1;
    }
    assert(v@.take(v.len() as int) =~= v@);
    done.push(cur);
    done
}

/// A decimal digit.
pub open spec fn is_digit(c: char) -> bool {
    '0' <= c <= '9'
}

/// The numeric value of a decimal digit.
pub open spec fn digit_val(c: char) -> nat {
    (c as nat - '0' as nat) as nat
}

/// Every character of `s` is a decimal digit.
pub open spec fn all_digits(s: Seq<char>) -> bool {
    forall|i: int| 0 <= i < s.len() ==> is_digit(s[i])
}

/// The value of a string of decimal digits, most significant first.
pub open spec fn digits_val(s: Seq<char>) -> nat
    decreases s.len(),
{
    if s.len() == 0 {
        0
    } else {
        digits_val(s.drop_last()) * 10 + digit_val(s.last())
    }
}

/// The value of a digit string, as `u64::from_str` reads the part after the
/// optional sign: `None` when empty, not all digits, or out of range.
pub open spec fn digits_parse(s: Seq<char>) -> Option<u64> {
    if s.len() > 0 && all_digits(s) && digits_val(s) <= u64::MAX {
        Some(digits_val(s) as u64)
    } else {
        None
    }
}

/// The value of a digit string never drops when the string grows.
proof fn lemma_digits_val_prefix(s: Seq<char>, i: int)
    requires
        0 <= i <= s.len(),
    ensures
        digits_val(s.take(i)) <= digits_val(s),
    decreases s.len() - i,
{
    if i < s.len() {
        lemma_digits_val_prefix(s, i + 1);
        assert(s.take(i + 1).drop_last() =~= s.take(i));
        assert(digits_val(s.take(i + 1)) == digits_val(s.take(i)) * 10 + digit_val(s[i]));
    } else {
        assert(s.take(i) =~= s);
    }
}

/// Reads the digits of `v` from index `from` to the end.
fn parse_digits(v: &Vec<char>, from: usize) -> (r: Option<u64>)
    requires
        from <= v@.len(),
    ensures
        r == digits_parse(v@.skip(from as int)),
{
    let ghost s = v@.skip(from as int);
    if from == v.len() {
        return None;
    }
    let mut val: u64 = 0;
    let mut i: usize = from;
    while i < v.len()
        invariant
            from <= i <= v@.len(),
            s == v@.skip(from as int),
            all_digits(s.take(i - from)),
            val == digits_val(s.take(i - from)),
        decreases v.len() - i,
    {
        let c = v[i];
        let ghost done = s.take(i - from);
        assert(s.take(i - from + 1).drop_last() =~= done);
        assert(s.take(i - from + 1).last() == c);
        if c < '0' || c > '9' {
            assert(!all_digits(s)) by {
                assert(s[i - from] == c);
            }
            return None;
        }
        let d: u64 = (c as u32 as u64) - ('0' as u32 as u64);
        assert(d == digit_val(c));
        if val > (u64::MAX - d) / 10 {
            proof {
                assert(digits_val(s.take(i - from + 1)) == val * 10 + d);
                assert(val * 10 + d > u64::MAX) by (nonlinear_arith)
                    requires
                        val > (u64::MAX - d) / 10,
                        d <= 9,
                ;
                lemma_digits_val_prefix(s, i - from + 1);
            }
            return None;
        }
        assert(val * 10 + d <= u64::MAX) by (nonlinear_arith)
            requires
                val <= (u64::MAX - d) / 10,
                d <= 9,
        ;
        val = val * 10 + d;
        i = i + 1;
    }
    assert(s.take(i - from) =~= s);
    Some(val)
}

/// `u64::from_str`: an optional `+`, then at least one digit, in range.
pub open spec fn parse_u64_spec(s: Seq<char>) -> Option<u64> {
    if s.len() > 0 && s[0] == '+' {
        digits_parse(s.skip(1))
    } else {
        digits_parse(s)
    }
}

/// Reads an unsigned 64-bit integer as `u64::from_str` does.
pub fn parse_u64(v: &Vec<char>) -> (r: Option<u64>)
    ensures
        r == parse_u64_spec(v@),
{
    if v.len() > 0 && v[0] == '+' {
        parse_digits(v, 1)
    } else {
        assert(v@.skip(0) =~= v@);
        parse_digits(v, 0)
    }
}

/// `u32::from_str`: as `u64::from_str`, within `u32` range.
pub open spec fn parse_u32_spec(s: Seq<char>) -> Option<u32> {
    let body = if s.len() > 0 && s[0] == '+' {
        s.skip(1)
    } else {
        s
    };
    if body.len() > 0 && all_digits(body) && digits_val(body) <= u32::MAX {
        Some(digits_val(body) as u32)
    } else {
        None
    }
}

/// Reads an unsigned 32-bit integer as `u32::from_str` does.
pub fn parse_u32(v: &Vec<char>) -> (r: Option<u32>)
    ensures
        r == parse_u32_spec(v@),
{
    match parse_u64(v) {
        Some(x) => {
            if x <= u32::MAX as u64 {
                Some(x as u32)
            } else {
                None
            }
        },
        None => {
            proof {
                let body = if v@.len() > 0 && v@[0] == '+' {
                    v@.skip(1)
                } else {
                    v@
                };
                if body.len() > 0 && all_digits(body) && digits_val(body) <= u32::MAX {
                    assert(digits_val(body) <= u64::MAX);
                }
            }
            None
        },
    }
}

/// `i8::from_str`: an optional sign, then at least one digit, in range.
pub open spec fn parse_i8_spec(s: Seq<char>) -> Option<i8> {
    if s.len() > 0 && s[0] == '-' {
        match digits_parse(s.skip(1)) {
            Some(m) => if m <= 128 {
                Some((-(m as int)) as i8)
            } else {
                None
            },
            None => None,
        }
    } else {
        let body = if s.len() > 0 && s[0] == '+' {
            s.skip(1)
        } else {
            s
        };
        match digits_parse(body) {
            Some(m) => if m <= 127 {
                Some(m as i8)
            } else {
                None
            },
            None => None,
        }
    }
}

/// Reads a signed 8-bit integer as `i8::from_str` does.
pub fn parse_i8(v: &Vec<char>) -> (r: Option<i8>)
    ensures
        r == parse_i8_spec(v@),
{
    if v.len() > 0 && v[0] == '-' {
        match parse_digits(v, 1) {
            Some(m) => {
                if m <= 128 {
                    Some((-(m as i64)) as i8)
                } else {
                    None
                }
            },
            None => None,
        }
    } else {
        match parse_u64(v) {
            Some(m) => {
                if m <= 127 {
                    Some(m as i8)
                } else {
                    None
                }
            },
            None => None,
        }
    }
}

/// Digits with at most one decimal point and at least one digit.
pub open spec fn decimal_body_ok(body: Seq<char>) -> bool {
    &&& exists|i: int| 0 <= i < body.len() && is_digit(body[i])
    &&& forall|i: int| 0 <= i < body.len() ==> (is_digit(body[i]) || body[i] == '.')
    &&& forall|i: int, j: int|
        0 <= i < j < body.len() && body[i] == '.' ==> body[j] != '.'
}

/// The decimal grammar accepted for the volume path parameter: an optional
/// sign, then digits with at most one decimal point and at least one digit.
pub open spec fn is_decimal(s: Seq<char>) -> bool {
    if s.len() > 0 && (s[0] == '+' || s[0] == '-') {
        decimal_body_ok(s.skip(1))
    } else {
        decimal_body_ok(s)
    }
}

/// Checks the decimal grammar from index `from` to the end of `v`.
fn check_decimal_body(v: &Vec<char>, from: usize) -> (r: bool)
    requires
        from <= v@.len(),
    ensures
        r == decimal_body_ok(v@.skip(from as int)),
{
    let ghost body = v@.skip(from as int);
    let mut has_digit = false;
    let mut has_dot = false;
    let mut i: usize = from;
    while i < v.len()
        invariant
            from <= i <= v@.len(),
            body == v@.skip(from as int),
            has_digit == exists|k: int| 0 <= k < i - from && is_digit(body[k]),
            forall|k: int| 0 <= k < i - from ==> (is_digit(body[k]) || body[k] == '.'),
            has_dot == exists|k: int| 0 <= k < i - from && body[k] == '.',
            forall|k: int, l: int|
                0 <= k < l < i - from && body[k] == '.' ==> body[l] != '.',
        decreases v.len() - i,
    {
        let c = v[i];
        assert(body[i - from] == c);
        if c >= '0' && c <= '9' {
            has_digit = true;
        } else if c == '.' {
            if has_dot {
                return false;
            }
            has_dot = true;
        } else {
            return false;
        }
        i = i + 1;
    }
    has_digit
}

/// Checks the decimal grammar for the volume path parameter.
pub fn check_decimal(v: &Vec<char>) -> (r: bool)
    ensures
        r == is_decimal(v@),
{
    if v.len() > 0 && (v[0] == '+' || v[0] == '-') {
        check_decimal_body(v, 1)
    } else {
        assert(v@.skip(0) =~= v@);
        check_decimal_body(v, 0)
    }
}

} // verus!
