//! Checks on form input before it is handed to the data commands.

use vstd::prelude::*;
use crate::text::chars_of;

verus! {

/// A character of Unicode's White_Space property, which `char::is_whitespace`
/// tests.
pub open spec fn is_white_space(c: char) -> bool {
    ('\t' <= c <= '\r') || c == ' ' || c == '\u{85}' || c == '\u{a0}' || c == '\u{1680}' || (
    '\u{2000}' <= c <= '\u{200a}') || c == '\u{2028}' || c == '\u{2029}' || c == '\u{202f}'
        || c == '\u{205f}' || c == '\u{3000}'
}

/// `s` without its leading white space.
pub open spec fn trim_start_of(s: Seq<char>) -> Seq<char>
    decreases s.len(),
{
    if s.len() > 0 && is_white_space(s[0]) {
        trim_start_of(s.skip(1))
    } else {
        s
    }
}

/// `s` without its trailing white space.
pub open spec fn trim_end_of(s: Seq<char>) -> Seq<char>
    decreases s.len(),
{
    if s.len() > 0 && is_white_space(s.last()) {
        trim_end_of(s.drop_last())
    } else {
        s
    }
}

/// What `str::trim` leaves of `s`: `s` without leading and trailing
/// white space.
pub open spec fn trim_of(s: Seq<char>) -> Seq<char> {
    trim_end_of(trim_start_of(s))
}

/// Relies on str::trim: the text without leading and trailing characters
/// for which `char::is_whitespace` holds.
#[verifier::external_body]
fn trim(s: &str) -> (r: &str)
    ensures
        r@ == trim_of(s@),
{
    s.trim()
}

/// A category must be chosen: id 0 stands for none.
pub fn validate_category_id(id: i64) -> (r: Result<(), &'static str>)
    ensures
        r is Ok <==> id != 0,
        r matches Err(m) ==> m@ == "请选择分类"@,
{
    if id == 0 {
        Err("请选择分类")
    } else {
        Ok(())
    }
}

/// The field must hold more than whitespace; the error is the field's name.
pub fn validate_not_empty(value: &str, field_name: &'static str) -> (r: Result<(), &'static str>)
    ensures
        r is Err <==> trim_of(value@).len() == 0,
        r matches Err(m) ==> m == field_name,
{
    if trim(value).is_empty() {
        Err(field_name)
    } else {
        Ok(())
    }
}

/// The digit `c` stands for.
pub open spec fn digit_value(c: char) -> int {
    c as int - '0' as int
}

/// All characters of `s` are ASCII digits.
pub open spec fn all_digits(s: Seq<char>) -> bool {
    forall|i: int| 0 <= i < s.len() ==> '0' <= #[trigger] s[i] <= '9'
}

/// The number that the digits of `s` spell, most significant first.
pub open spec fn digits_value(s: Seq<char>) -> int
    decreases s.len(),
{
    if s.len() == 0 {
        0
    } else {
        digits_value(s.drop_last()) * 10 + digit_value(s.last())
    }
}

/// The positive `i32` that `s` spells (digits, with an optional leading
/// `+`), if it spells one.
pub open spec fn positive_int_of(s: Seq<char>) -> Option<int> {
    let d = if s.len() > 0 && s[0] == '+' {
        s.skip(1)
    } else {
        s
    };
    if d.len() > 0 && all_digits(d) && 0 < digits_value(d) <= i32::MAX {
        Some(digits_value(d))
    } else {
        None
    }
}

proof fn lemma_digits_value_nonneg(s: Seq<char>)
    requires
        all_digits(s),
    ensures
        digits_value(s) >= 0,
    decreases s.len(),
{
    if s.len() > 0 {
        lemma_digits_value_nonneg(s.drop_last());
    }
}

proof fn lemma_digits_value_grows(s: Seq<char>, i: int)
    requires
        all_digits(s),
        0 <= i <= s.len(),
    ensures
        digits_value(s.take(i)) <= digits_value(s),
    decreases s.len() - i,
{
    if i < s.len() {
        lemma_digits_value_grows(s, i + 1);
        assert(s.take(i + 1).drop_last() =~= s.take(i));
        assert(all_digits(s.take(i)));
        lemma_digits_value_nonneg(s.take(i));
    } else {
        assert(s.take(i) =~= s);
    }
}

/// Reads a positive whole number that fits in an `i32`.
pub fn parse_positive_int(value: &str) -> (r: Result<i32, &'static str>)
    ensures
        positive_int_of(value@) matches Some(n) ==> r == Ok::<i32, &'static str>(n as i32),
        positive_int_of(value@) is None ==> (r matches Err(m) && m@
            == "请输入有效的正整数"@),
{
    let v = chars_of(value);
    let start: usize = if v.len() > 0 && v[0] == '+' {
        1
    } else {
        0
    };
    let ghost d = v@.skip(start as int);
    assert(v@.skip(0) =~= v@);
    assert(d == (if value@.len() > 0 && value@[0] == '+' {
        value@.skip(1)
    } else {
        value@
    }));
    let mut acc: i64 = 0;
    let mut i: usize = start;
    let mut ok = v.len() > start;
    while i < v.len()
        invariant
            v@ == value@,
            start <= i <= v@.len(),
            d == v@.skip(start as int),
            ok ==> all_digits(v@.subrange(start as int, i as int)),
            ok ==> acc == digits_value(v@.subrange(start as int, i as int)),
            ok ==> 0 <= acc <= i32::MAX,
            !ok ==> (d.len() == 0 || !all_digits(d) || digits_value(d) > i32::MAX),
        decreases v.len() - i,
    {
        let c = v[i];
        let ghost pre = v@.subrange(start as int, i as int);
        let ghost next = v@.subrange(start as int, i + 1);
        assert(next.drop_last() =~= pre);
        if !('0' <= c && c <= '9') {
            if ok {
                assert(d[i - start] == c);
            }
            ok = false;
        } else if ok {
            let dv = (c as u32 - '0' as u32) as i64;
            acc = acc * 10 + dv;
            if acc > 2147483647 {
                proof {
                    assert(all_digits(next));
                    assert(d.take(i + 1 - start) =~= next);
                    if all_digits(d) {
                        lemma_digits_value_grows(d, i + 1 - start);
                    }
                }
                ok = false;
            }
        }
        i = i + 1;
    }
    if ok {
        assert(v@.subrange(start as int, v@.len() as int) =~= d);
        if acc > 0 {
            proof {
                reveal_strlit("+");
            }
            return Ok(acc as i32);
        }
    }
    Err("请输入有效的正整数")
}

} // verus!
