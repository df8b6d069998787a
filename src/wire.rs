use vstd::prelude::*;

verus! {

/// Whether `b` is an ASCII decimal digit.
pub open spec fn is_digit(b: u8) -> bool {
    48 <= b <= 57
}

/// A non-empty run of decimal digits.
pub open spec fn is_decimal(s: Seq<u8>) -> bool {
    s.len() > 0 && forall|i: int| 0 <= i < s.len() ==> is_digit(#[trigger] s[i])
}

/// The number that a run of decimal digits denotes.
pub open spec fn decimal_value(s: Seq<u8>) -> nat
    decreases s.len(),
{
    if s.len() == 0 {
        0
    } else {
        decimal_value(s.drop_last()) * 10 + (s.last() - 48) as nat
    }
}

/// The number that a run of digits denotes, when it fits in a `u32`.
pub open spec fn spec_parse_digits(s: Seq<u8>) -> Option<u32> {
    if is_decimal(s) && decimal_value(s) <= u32::MAX {
        Some(decimal_value(s) as u32)
    } else {
        None
    }
}

/// What a decimal field of the protocol holds, when it fits in a `u32`: an
/// optional `+` and at least one digit, as std's integer parsing reads it.
pub open spec fn spec_parse_u32(s: Seq<u8>) -> Option<u32> {
    if s.len() > 0 && s[0] == 43 {
        spec_parse_digits(s.skip(1))
    } else {
        spec_parse_digits(s)
    }
}

proof fn lemma_decimal_grows(s: Seq<u8>, i: int, j: int)
    requires
        0 <= i <= j <= s.len(),
        forall|k: int| 0 <= k < s.len() ==> is_digit(#[trigger] s[k]),
    ensures
        decimal_value(s.take(i)) <= decimal_value(s.take(j)),
    decreases j - i,
{
    if i < j {
        lemma_decimal_grows(s, i, j - 1);
        assert(s.take(j).drop_last() =~= s.take(j - 1));
    }
}

/// Reads a decimal `u32` with an optional leading `+`; `None` unless the
/// rest is digits only and fits.
pub fn parse_u32(s: &[u8]) -> (r: Option<u32>)
    ensures
        r == spec_parse_u32(s@),
{
    if s.len() > 0 && s[0] == 43 {
        let rest = copy_range(s, 1, s.len());
        assert(rest@ =~= s@.skip(1));
        parse_digits(rest.as_slice())
    } else {
        parse_digits(s)
    }
}

/// Whether `s` is a non-empty run of decimal digits.
pub fn all_digits(s: &[u8]) -> (r: bool)
    ensures
        r == is_decimal(s@),
{
    if s.len() == 0 {
        return false;
    }
    let mut i: usize = 0;
    while i < s.len()
        invariant
            0 <= i <= s.len(),
            forall|k: int| 0 <= k < i ==> is_digit(#[trigger] s@[k]),
        decreases s.len() - i,
    {
        if !(48 <= s[i] && s[i] <= 57) {
            return false;
        }
        i = i + 1;
    }
    true
}

/// Reads a run of decimal digits that fits in a `u32`.
pub fn parse_digits(s: &[u8]) -> (r: Option<u32>)
    ensures
        r == spec_parse_digits(s@),
{
    if s.len() == 0 {
        return None;
    }
    let mut acc: u64 = 0;
    let mut i: usize = 0;
    while i < s.len()
        invariant
            0 <= i <= s.len(),
            acc as nat == decimal_value(s@.take(i as int)),
            acc <= u32::MAX,
            forall|k: int| 0 <= k < i ==> is_digit(#[trigger] s@[k]),
        decreases s.len() - i,
    {
        let b = s[i];
        if !(48 <= b && b <= 57) {
            return None;
        }
        assert(s@.take(i as int + 1).drop_last() =~= s@.take(i as int));
        acc = acc * 10 + (b - 48) as u64;
        i = i + 1;
        if acc > u32::MAX as u64 {
            proof {
                if is_decimal(s@) {
                    lemma_decimal_grows(s@, i as int, s@.len() as int);
                    assert(s@.take(s@.len() as int) =~= s@);
                }
            }
            return None;
        }
    }
    assert(s@.take(s@.len() as int) =~= s@);
    Some(acc as u32)
}


/// The first position at or after `from` that holds `b`, or `s.len()`.
pub open spec fn find_from(s: Seq<u8>, b: u8, from: int) -> int
    decreases s.len() - from,
{
    if from < 0 || from >= s.len() {
        s.len() as int
    } else if s[from] == b {
        from
    } else {
        find_from(s, b, from + 1)
    }
}

proof fn lemma_find_from_bounds(s: Seq<u8>, b: u8, from: int)
    requires
        0 <= from <= s.len(),
    ensures
        from <= find_from(s, b, from) <= s.len(),
        find_from(s, b, from) < s.len() ==> s[find_from(s, b, from)] == b,
        forall|k: int| from <= k < find_from(s, b, from) ==> s[k] != b,
    decreases s.len() - from,
{
    if from < s.len() && s[from] != b {
        lemma_find_from_bounds(s, b, from + 1);
    }
}

/// Finds the first `b` at or after `from`; `s.len()` where there is none.
pub fn find_byte(s: &[u8], b: u8, from: usize) -> (r: usize)
    requires
        from <= s@.len(),
    ensures
        r as int == find_from(s@, b, from as int),
        from <= r <= s@.len(),
{
    proof {
        lemma_find_from_bounds(s@, b, from as int);
    }
    let mut i: usize = from;
    while i < s.len()
        invariant
            from <= i <= s@.len(),
            find_from(s@, b, from as int) == find_from(s@, b, i as int),
        decreases s.len() - i,
    {
        if s[i] == b {
            return i;
        }
        i = i + 1;
    }
    i
}

/// Copies `s[from..to]` into a vector of its own.
pub fn copy_range(s: &[u8], from: usize, to: usize) -> (r: Vec<u8>)
    requires
        from <= to <= s@.len(),
    ensures
        r@ == s@.subrange(from as int, to as int),
{
    let mut r: Vec<u8> = Vec::new();
    let mut i: usize = from;
    while i < to
        invariant
            from <= i <= to <= s@.len(),
            r@ == s@.subrange(from as int, i as int),
        decreases to - i,
    {
        r.push(s[i]);
        i = i + 1;
    }
    r
}

/// Whether `s` starts with `p`.
pub open spec fn has_prefix(s: Seq<u8>, p: Seq<u8>) -> bool {
    p.len() <= s.len() && s.take(p.len() as int) == p
}

/// Whether `s[at..]` starts with `p`.
pub fn starts_with_at(s: &[u8], at: usize, p: &[u8]) -> (r: bool)
    requires
        at <= s@.len(),
    ensures
        r == has_prefix(s@.skip(at as int), p@),
{
    if p.len() > s.len() - at {
        return false;
    }
    let mut i: usize = 0;
    while i < p.len()
        invariant
            0 <= i <= p@.len(),
            p@.len() <= s@.len() - at,
            s@.len() <= usize::MAX,
            forall|k: int| 0 <= k < i ==> s@[at + k] == p@[k],
        decreases p.len() - i,
    {
        if s[at + i] != p[i] {
            assert(s@.skip(at as int).take(p@.len() as int)[i as int] != p@[i as int]);
            return false;
        }
        i = i + 1;
    }
    assert(s@.skip(at as int).take(p@.len() as int) =~= p@);
    true
}

/// Whether two byte strings are equal.
pub fn bytes_eq(a: &[u8], b: &[u8]) -> (r: bool)
    ensures
        r == (a@ == b@),
{
    if a.len() != b.len() {
        return false;
    }
    let r = starts_with_at(a, 0, b);
    proof {
        assert(a@.skip(0) =~= a@);
        assert(a@.take(b@.len() as int) =~= a@);
    }
    r
}

/// The key and value of a `key: value` line: the key ends at the first `:`,
/// which must be followed by a space.
pub open spec fn spec_split_line(line: Seq<u8>) -> Option<(Seq<u8>, Seq<u8>)> {
    let c = find_from(line, 58, 0);
    if c + 1 < line.len() && line[c + 1] == 32 {
        Some((line.take(c), line.skip(c + 2)))
    } else {
        None
    }
}

/// Splits a `key: value` line; `None` for a line without `": "` after the key.
pub fn split_line(line: &[u8]) -> (r: Option<(Vec<u8>, Vec<u8>)>)
    ensures
        match spec_split_line(line@) {
            Some(kv) => match r {
                Some(p) => p.0@ == kv.0 && p.1@ == kv.1,
                None => false,
            },
            None => r is None,
        },
{
    let c = find_byte(line, 58, 0);
    if c < line.len() && c + 1 < line.len() && line[c + 1] == 32 {
        let k = copy_range(line, 0, c);
        let v = copy_range(line, c + 2, line.len());
        proof {
            assert(line@.take(c as int) =~= line@.subrange(0, c as int));
            assert(line@.skip(c + 2) =~= line@.subrange(c + 2, line@.len() as int));
        }
        Some((k, v))
    } else {
        None
    }
}

} // verus!
