//! Choosing the sheet to convert from the sheet option.
use vstd::prelude::*;

verus! {

pub open spec fn is_digit(c: char) -> bool {
    '0' <= c && c <= '9'
}

/// The number that a string of decimal digits writes.
pub open spec fn digits_value(d: Seq<char>) -> nat
    decreases d.len(),
{
    if d.len() == 0 {
        0
    } else {
        digits_value(d.drop_last()) * 10 + (d.last() as nat - '0' as nat) as nat
    }
}

/// The digits of a token once an optional leading `+` is taken off.
pub open spec fn unsigned_digits(s: Seq<char>) -> Seq<char> {
    if s.len() > 0 && s[0] == '+' {
        s.drop_first()
    } else {
        s
    }
}

/// The value of a token read as an unsigned machine-size integer: an
/// optional `+`, then one or more decimal digits, and nothing else, of a
/// value that fits in `usize`.
pub open spec fn parsed_index(s: Seq<char>) -> Option<nat> {
    let d = unsigned_digits(s);
    if d.len() > 0 && (forall|i: int| 0 <= i < d.len() ==> is_digit(#[trigger] d[i]))
        && digits_value(d) <= usize::MAX {
        Some(digits_value(d))
    } else {
        None
    }
}

/// The name of the sheet that a token selects among `names`: a number from
/// 1 to the number of sheets picks the sheet at that place, counting from 1;
/// any other token is the name itself.
pub open spec fn chosen_sheet(token: Seq<char>, names: Seq<Seq<char>>) -> Seq<char> {
    match parsed_index(token) {
        Some(n) => if 1 <= n && n <= names.len() {
            names[n - 1]
        } else {
            token
        },
        None => token,
    }
}

proof fn lemma_digits_value_grows(d: Seq<char>, k: int)
    requires
        0 <= k <= d.len(),
        forall|i: int| 0 <= i < d.len() ==> is_digit(#[trigger] d[i]),
    ensures
        digits_value(d.subrange(0, k)) <= digits_value(d),
    decreases d.len(),
{
    if k < d.len() {
        let p = d.drop_last();
        assert(p.subrange(0, k) =~= d.subrange(0, k));
        lemma_digits_value_grows(p, k);
    } else {
        assert(d.subrange(0, k) =~= d);
    }
}

/// Reads a token as an unsigned machine-size integer, as `usize`'s
/// `from_str` does: an optional `+`, then decimal digits only.
pub fn parse_index(s: &str) -> (r: Option<usize>)
    ensures
        r is Some <==> parsed_index(s@) is Some,
        r is Some ==> r->0 as nat == parsed_index(s@)->0,
{
    let len = s.unicode_len();
    let mut i: usize = 0;
    if len > 0 && s.get_char(0) == '+' {
        i = 1;
    }
    let start = i;
    let d = Ghost(unsigned_digits(s@));
    assert(d@ =~= s@.subrange(start as int, len as int));
    if i == len {
        return None;
    }
    let mut value: usize = 0;
    while i < len
        invariant
            start <= i <= len,
            len == s@.len(),
            d@ == s@.subrange(start as int, len as int),
            d@ == unsigned_digits(s@),
            forall|k: int| 0 <= k < i - start ==> is_digit(#[trigger] d@[k]),
            value as nat == digits_value(d@.subrange(0, i - start)),
        decreases len - i,
    {
        let c = s.get_char(i);
        assert(d@[i - start] == c);
        if c < '0' || c > '9' {
            assert(!is_digit(d@[i - start]));
            return None;
        }
        let digit = (c as u32 - '0' as u32) as usize;
        let prefix = Ghost(d@.subrange(0, i + 1 - start));
        assert(prefix@.drop_last() =~= d@.subrange(0, i - start));
        assert(digits_value(prefix@) == value * 10 + digit);
        if value > (usize::MAX - digit) / 10 {
            proof {
                assert(value * 10 + digit > usize::MAX) by (nonlinear_arith)
                    requires
                        value > (usize::MAX - digit) / 10,
                        digit <= 9,
                ;
                if forall|k: int| 0 <= k < d@.len() ==> is_digit(#[trigger] d@[k]) {
                    lemma_digits_value_grows(d@, i + 1 - start);
                }
            }
            return None;
        }
        value = value * 10 + digit;
        i = i + 1;
    }
    assert(d@.subrange(0, len - start) =~= d@);
    Some(value)
}

/// The name of the sheet that the sheet option `token` selects among the
/// workbook's sheet names, in their order.
pub fn resolve_sheet_name(token: &str, names: &[String]) -> (r: String)
    ensures
        r@ == chosen_sheet(token@, names@.map_values(|n: String| n@)),
{
    match parse_index(token) {
        Some(n) => {
            if 1 <= n && n <= names.len() {
                names[n - 1].clone()
            } else {
                String::from_str(token)
            }
        },
        None => String::from_str(token),
    }
}

} // verus!
