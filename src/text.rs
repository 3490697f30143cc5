use vstd::prelude::*;

verus! {

/// What `char::to_uppercase` yields for `c`.
pub uninterp spec fn upper_of(c: char) -> Seq<char>;

/// Relies on `String::push`: the character is appended at the end.
#[verifier::external_body]
pub(crate) fn push_char(s: &mut String, c: char)
    ensures
        final(s)@ == old(s)@.push(c),
{
    s.push(c);
}

/// Relies on `char::to_uppercase`: the upper-case mapping of one character,
/// collected into a string.
#[verifier::external_body]
pub(crate) fn uppercase_char(c: char) -> (r: String)
    ensures
        r@ == upper_of(c),
{
    c.to_uppercase().collect::<String>()
}

/// Character-wise equality of two strings.
pub fn str_eq(a: &str, b: &str) -> (r: bool)
    ensures
        r == (a@ == b@),
{
    let n = a.unicode_len();
    if n != b.unicode_len() {
        return false;
    }
    let mut i: usize = 0;
    while i < n
        invariant
            n == a@.len(),
            n == b@.len(),
            i <= n,
            forall|k: int| 0 <= k < i ==> a@[k] == b@[k],
        decreases n - i,
    {
        if a.get_char(i) != b.get_char(i) {
            return false;
        }
        i = i + 1;
    }
    proof {
        assert(a@ =~= b@);
    }
    true
}

pub open spec fn is_digit(c: char) -> bool {
    '0' <= c && c <= '9'
}

pub open spec fn all_digits(s: Seq<char>) -> bool {
    s.len() > 0 && forall|i: int| 0 <= i < s.len() ==> is_digit(#[trigger] s[i])
}

/// Value of a string of decimal digits.
pub open spec fn digits_value(s: Seq<char>) -> int
    decreases s.len(),
{
    if s.len() == 0 {
        0
    } else {
        digits_value(s.drop_last()) * 10 + (s.last() as int - '0' as int)
    }
}

/// Value of a decimal literal with an optional sign, if `s` is one.
pub open spec fn literal_value(s: Seq<char>) -> Option<int> {
    if s.len() > 0 && s[0] == '-' && all_digits(s.drop_first()) {
        Some(-digits_value(s.drop_first()))
    } else if s.len() > 0 && s[0] == '+' && all_digits(s.drop_first()) {
        Some(digits_value(s.drop_first()))
    } else if all_digits(s) {
        Some(digits_value(s))
    } else {
        None
    }
}

/// `s` read as a signed 64-bit decimal integer, when it is one.
pub open spec fn int64_value(s: Seq<char>) -> Option<i64> {
    match literal_value(s) {
        Some(v) => if i64::MIN <= v <= i64::MAX {
            Some(v as i64)
        } else {
            None
        },
        None => None,
    }
}

proof fn lemma_digits_value_nonneg(s: Seq<char>)
    requires
        forall|i: int| 0 <= i < s.len() ==> is_digit(#[trigger] s[i]),
    ensures
        digits_value(s) >= 0,
    decreases s.len(),
{
    if s.len() > 0 {
        lemma_digits_value_nonneg(s.drop_last());
    }
}

const MAGNITUDE_LIMIT: u128 = 0x8000_0000_0000_0000;

/// Reads the digits of `s` from index `from` on; `None` when one of them is
/// not a digit or there are none. A result above `MAGNITUDE_LIMIT` only says
/// that the value is above it.
fn digits_magnitude(s: &str, from: usize) -> (r: Option<u128>)
    requires
        from <= s@.len(),
    ensures
        r is None <==> !all_digits(s@.subrange(from as int, s@.len() as int)),
        r matches Some(m) ==> if m <= MAGNITUDE_LIMIT {
            m == digits_value(s@.subrange(from as int, s@.len() as int))
        } else {
            digits_value(s@.subrange(from as int, s@.len() as int)) > MAGNITUDE_LIMIT
        },
{
    let n = s.unicode_len();
    if from == n {
        return None;
    }
    let ghost t = s@.subrange(from as int, n as int);
    let mut acc: u128 = 0;
    let mut i: usize = from;
    while i < n
        invariant
            n == s@.len(),
            from < n,
            from <= i <= n,
            t == s@.subrange(from as int, n as int),
            forall|k: int| 0 <= k < i - from ==> is_digit(#[trigger] t[k]),
            acc <= MAGNITUDE_LIMIT ==> acc == digits_value(t.subrange(0, i - from)),
            acc > MAGNITUDE_LIMIT ==> acc == MAGNITUDE_LIMIT + 1 && digits_value(
                t.subrange(0, i - from),
            ) > MAGNITUDE_LIMIT,
        decreases n - i,
    {
        let c = s.get_char(i);
        if !('0' <= c && c <= '9') {
            proof {
                assert(t[i - from] == c);
            }
            return None;
        }
        let d = (c as u32 - '0' as u32) as u128;
        proof {
            let p = t.subrange(0, i - from);
            let q = t.subrange(0, i + 1 - from);
            assert(q.drop_last() == p);
            assert(q.last() == c);
            assert forall|k: int| 0 <= k < p.len() implies is_digit(#[trigger] p[k]) by {
                assert(p[k] == t[k]);
            }
            lemma_digits_value_nonneg(p);
        }
        if acc <= MAGNITUDE_LIMIT {
            let next = acc * 10 + d;
            if next > MAGNITUDE_LIMIT {
                acc = MAGNITUDE_LIMIT + 1;
            } else {
                acc = next;
            }
        }
        i = i + 1;
    }
    proof {
        assert(t.subrange(0, n - from) == t);
    }
    Some(acc)
}

/// Reads `s` as a signed 64-bit decimal integer: an optional `+` or `-`,
/// then one or more ASCII digits, with a value in range.
pub fn parse_i64(s: &str) -> (r: Option<i64>)
    ensures
        r == int64_value(s@),
{
    let n = s.unicode_len();
    if n == 0 {
        return None;
    }
    let first = s.get_char(0);
    let negative = first == '-';
    let start: usize = if first == '-' || first == '+' { 1 } else { 0 };
    proof {
        assert(s@.subrange(1, n as int) == s@.drop_first());
        assert(s@.subrange(0, n as int) == s@);
        if start == 0 {
            assert(s@[0] != '-' && s@[0] != '+');
        }
    }
    match digits_magnitude(s, start) {
        None => None,
        Some(m) => {
            if negative {
                if m <= MAGNITUDE_LIMIT {
                    Some((0 - m as i128) as i64)
                } else {
                    None
                }
            } else {
                if m < MAGNITUDE_LIMIT {
                    Some(m as i64)
                } else {
                    None
                }
            }
        },
    }
}

/// One character of the Ada-style spelling of `s`: a character that opens a
/// segment (first, or right after `_`, and not `_` itself) is upper-cased.
pub open spec fn ada_piece(s: Seq<char>, i: int) -> Seq<char> {
    if s[i] != '_' && (i == 0 || s[i - 1] == '_') {
        upper_of(s[i])
    } else {
        seq![s[i]]
    }
}

/// Ada-style spelling of a snake_case name: each `_`-separated segment has
/// its first character upper-cased.
pub open spec fn ada_case(s: Seq<char>) -> Seq<char>
    decreases s.len(),
{
    if s.len() == 0 {
        Seq::empty()
    } else {
        ada_case(s.drop_last()) + ada_piece(s, s.len() - 1)
    }
}

/// Converts snake_case to Ada_Case.
pub fn to_ada_case(name: &str) -> (r: String)
    ensures
        r@ == ada_case(name@),
{
    let n = name.unicode_len();
    let mut out = String::new();
    let mut i: usize = 0;
    while i < n
        invariant
            n == name@.len(),
            i <= n,
            out@ == ada_case(name@.subrange(0, i as int)),
        decreases n - i,
    {
        let c = name.get_char(i);
        let opens = c != '_' && (i == 0 || name.get_char(i - 1) == '_');
        proof {
            let q = name@.subrange(0, i + 1);
            assert(q.drop_last() == name@.subrange(0, i as int));
            assert(ada_piece(q, i as int) == ada_piece(name@, i as int));
        }
        if opens {
            let up = uppercase_char(c);
            out.append(up.as_str());
        } else {
            push_char(&mut out, c);
        }
        i = i + 1;
    }
    proof {
        assert(name@.subrange(0, n as int) == name@);
    }
    out
}

/// The views of a sequence of strings.
pub open spec fn views(parts: Seq<String>) -> Seq<Seq<char>> {
    parts.map_values(|p: String| p@)
}

/// `parts` with `sep` between each two neighbours.
pub open spec fn join(parts: Seq<Seq<char>>, sep: Seq<char>) -> Seq<char>
    decreases parts.len(),
{
    if parts.len() == 0 {
        Seq::empty()
    } else if parts.len() == 1 {
        parts[0]
    } else {
        join(parts.drop_last(), sep) + sep + parts.last()
    }
}

/// Joins `parts` with `sep` between each two neighbours.
pub fn join_strings(parts: &Vec<String>, sep: &str) -> (r: String)
    ensures
        r@ == join(views(parts@), sep@),
{
    let mut out = String::new();
    let mut i: usize = 0;
    while i < parts.len()
        invariant
            i <= parts.len(),
            out@ == join(views(parts@.subrange(0, i as int)), sep@),
        decreases parts.len() - i,
    {
        proof {
            let q = views(parts@.subrange(0, i + 1));
            assert(q.drop_last() == views(parts@.subrange(0, i as int)));
            assert(q.last() == parts@[i as int]@);
        }
        if i > 0 {
            out.append(sep);
        }
        out.append(parts[i].as_str());
        i = i + 1;
    }
    proof {
        assert(parts@.subrange(0, parts.len() as int) == parts@);
    }
    out
}

} // verus!
