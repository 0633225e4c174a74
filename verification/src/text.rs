//! Character-level helpers shared by the parsers: every routine works on the
//! sequence of `char`s that a string denotes, never on its bytes.
use vstd::prelude::*;
use vstd::string::*;

verus! {

/// `String::push` of the standard library appends exactly one character.
pub assume_specification[ String::push ](s: &mut String, c: char)
    ensures
        final(s)@ == old(s)@.push(c),
;

/// Whether `pat` stands in `s` at position `i`.
pub open spec fn occurs_at(s: Seq<char>, pat: Seq<char>, i: int) -> bool {
    &&& 0 <= i
    &&& i + pat.len() <= s.len()
    &&& s.subrange(i, i + pat.len()) == pat
}

/// Whether `i` is the leftmost position at which `pat` stands in `s`.
pub open spec fn first_at(s: Seq<char>, pat: Seq<char>, i: int) -> bool {
    &&& occurs_at(s, pat, i)
    &&& forall|j: int| 0 <= j < i ==> !occurs_at(s, pat, j)
}

/// The leftmost position at which `pat` stands in `s`, if it stands anywhere.
pub open spec fn find(s: Seq<char>, pat: Seq<char>) -> Option<int> {
    if exists|i: int| first_at(s, pat, i) {
        Some(choose|i: int| first_at(s, pat, i))
    } else {
        None
    }
}

/// The part of `s` from position `i` to its end.
pub open spec fn tail(s: Seq<char>, i: int) -> Seq<char> {
    s.subrange(i, s.len() as int)
}

/// `s` split at the leftmost place where `pat` stands: what is before it and
/// what is behind it, if it stands anywhere.
pub open spec fn split_once(s: Seq<char>, pat: Seq<char>) -> Option<(Seq<char>, Seq<char>)> {
    match find(s, pat) {
        Some(i) => Some((s.subrange(0, i), tail(s, i + pat.len()))),
        None => None,
    }
}

/// A leftmost position is the one that `find` names.
pub proof fn lemma_find_first(s: Seq<char>, pat: Seq<char>, i: int)
    requires
        first_at(s, pat, i),
    ensures
        find(s, pat) == Some(i),
{
    let k = choose|k: int| first_at(s, pat, k);
    if k < i {
        assert(!occurs_at(s, pat, k));
    } else if i < k {
        assert(!occurs_at(s, pat, i));
    }
}

/// Where `pat` stands at `k`, there is a leftmost position at or before `k`.
pub proof fn lemma_find_least(s: Seq<char>, pat: Seq<char>, k: int)
    requires
        occurs_at(s, pat, k),
    ensures
        find(s, pat) matches Some(i) && i <= k && first_at(s, pat, i),
    decreases k,
{
    if exists|j: int| 0 <= j < k && occurs_at(s, pat, j) {
        let j = choose|j: int| 0 <= j < k && occurs_at(s, pat, j);
        lemma_find_least(s, pat, j);
    } else {
        lemma_find_first(s, pat, k);
    }
}

/// What `find` answers: a leftmost position, or that there is none at all.
pub proof fn lemma_find(s: Seq<char>, pat: Seq<char>)
    ensures
        match find(s, pat) {
            Some(i) => first_at(s, pat, i),
            None => forall|k: int| !occurs_at(s, pat, k),
        },
{
    if find(s, pat) is None {
        assert forall|k: int| !occurs_at(s, pat, k) by {
            if occurs_at(s, pat, k) {
                lemma_find_least(s, pat, k);
            }
        }
    }
}

/// Where `pat` is found at `i` in what `s` holds from `from` on, the split
/// of that part is made of stretches of `s` itself.
pub proof fn lemma_split_tail(s: Seq<char>, from: int, pat: Seq<char>, i: int)
    requires
        0 <= from <= i,
        i + pat.len() <= s.len(),
        find(tail(s, from), pat) == Some(i - from),
    ensures
        split_once(tail(s, from), pat) == Some((s.subrange(from, i), tail(s, i + pat.len()))),
{
    let part = tail(s, from);
    assert(part.subrange(0, i - from) =~= s.subrange(from, i));
    assert(tail(part, i - from + pat.len()) =~= tail(s, i + pat.len()));
}

/// The characters of `s`, in order.
pub fn to_chars(s: &str) -> (v: Vec<char>)
    ensures
        v@ == s@,
{
    let mut v: Vec<char> = Vec::new();
    for c in it: s.chars()
        invariant
            it.seq() == s@,
            v@ == s@.take(it.index() as int),
    {
        v.push(c);
    }
    v
}

/// The text made of `chars[from..to]`.
pub fn to_text(chars: &Vec<char>, from: usize, to: usize) -> (s: String)
    requires
        from <= to <= chars.len(),
    ensures
        s@ == chars@.subrange(from as int, to as int),
{
    let mut s = String::new();
    let mut i: usize = from;
    while i < to
        invariant
            from <= i <= to <= chars.len(),
            s@ == chars@.subrange(from as int, i as int),
        decreases to - i,
    {
        s.push(chars[i]);
        i += 1;
    }
    s
}

/// Whether `pat` stands in `chars` at position `i`.
pub fn stands_at(chars: &Vec<char>, i: usize, pat: &Vec<char>) -> (r: bool)
    requires
        i + pat.len() <= chars.len(),
    ensures
        r == (chars@.subrange(i as int, i + pat.len()) == pat@),
{
    let mut k: usize = 0;
    while k < pat.len()
        invariant
            k <= pat.len(),
            i + pat.len() <= chars.len(),
            chars@.subrange(i as int, i + k) == pat@.take(k as int),
        decreases pat.len() - k,
    {
        if chars[i + k] != pat[k] {
            assert(chars@.subrange(i as int, i + pat.len())[k as int] != pat@[k as int]);
            return false;
        }
        assert(chars@.subrange(i as int, i + k + 1) =~= chars@.subrange(i as int, i + k).push(
            chars@[i + k],
        ));
        assert(pat@.take(k + 1) =~= pat@.take(k as int).push(pat@[k as int]));
        k += 1;
    }
    assert(pat@.take(pat.len() as int) =~= pat@);
    true
}

/// Whether `a` and `b` hold the same characters.
pub fn same_text(a: &Vec<char>, b: &Vec<char>) -> (r: bool)
    ensures
        r == (a@ == b@),
{
    if a.len() != b.len() {
        return false;
    }
    assert(a@.subrange(0, b.len() as int) =~= a@);
    stands_at(a, 0, b)
}

/// The leftmost position in `chars[from..to]` at which `pat` stands, counted
/// from the start of `chars`.
pub fn find_in(chars: &Vec<char>, from: usize, to: usize, pat: &Vec<char>) -> (r: Option<usize>)
    requires
        from <= to <= chars.len(),
    ensures
        match r {
            Some(i) => from <= i && i + pat.len() <= to && find(
                chars@.subrange(from as int, to as int),
                pat@,
            ) == Some(i - from),
            None => find(chars@.subrange(from as int, to as int), pat@) is None,
        },
{
    let ghost s = chars@.subrange(from as int, to as int);
    if pat.len() > to - from {
        proof {
            lemma_find(s, pat@);
        }
        return None;
    }
    let last: usize = to - pat.len();
    let mut i: usize = from;
    loop
        invariant
            from <= i <= last,
            last + pat.len() == to,
            to <= chars.len(),
            s == chars@.subrange(from as int, to as int),
            forall|j: int| 0 <= j < i - from ==> !occurs_at(s, pat@, j),
        ensures
            forall|j: int| 0 <= j <= last - from ==> !occurs_at(s, pat@, j),
        decreases last - i,
    {
        assert(s.subrange(i - from, i - from + pat.len()) =~= chars@.subrange(
            i as int,
            i + pat.len(),
        ));
        if stands_at(chars, i, pat) {
            proof {
                lemma_find_first(s, pat@, i - from);
            }
            return Some(i);
        }
        if i == last {
            break;
        }
        i += 1;
    }
    proof {
        lemma_find(s, pat@);
    }
    None
}

/// Whether `c` is one of the ten decimal digits.
pub open spec fn is_digit(c: char) -> bool {
    '0' <= c && c <= '9'
}

/// The number that the decimal digits `digits` denote.
pub open spec fn decimal_value(digits: Seq<char>) -> nat
    decreases digits.len(),
{
    if digits.len() == 0 {
        0
    } else {
        (decimal_value(digits.drop_last()) * 10 + (digits.last() as u32 - '0' as u32)) as nat
    }
}

/// Whether `digits` holds decimal digits only.
pub open spec fn all_digits(digits: Seq<char>) -> bool {
    forall|i: int| 0 <= i < digits.len() ==> is_digit(#[trigger] digits[i])
}

/// `s` without the `+` that it may begin with.
pub open spec fn unsigned_part(s: Seq<char>) -> Seq<char> {
    if s.len() > 0 && s[0] == '+' {
        s.drop_first()
    } else {
        s
    }
}

/// The number that `s` denotes as a `u32`: an optional `+`, then at least one
/// decimal digit and nothing else, the value within range.
pub open spec fn parse_u32(s: Seq<char>) -> Option<u32> {
    let digits = unsigned_part(s);
    if digits.len() > 0 && all_digits(digits) && decimal_value(digits) <= u32::MAX {
        Some(decimal_value(digits) as u32)
    } else {
        None
    }
}

/// A number does not get smaller when digits are appended to it.
proof fn lemma_decimal_grows(digits: Seq<char>, k: int)
    requires
        0 <= k <= digits.len(),
        all_digits(digits),
    ensures
        decimal_value(digits.take(k)) <= decimal_value(digits),
    decreases digits.len() - k,
{
    if k < digits.len() {
        let longer = digits.take(k + 1);
        assert(longer.drop_last() =~= digits.take(k));
        assert(is_digit(digits[k]));
        assert(longer.last() == digits[k]);
        lemma_decimal_grows(digits, k + 1);
    } else {
        assert(digits.take(k) =~= digits);
    }
}

/// Reads `chars[from..to]` as a decimal `u32`.
pub fn parse_u32_in(chars: &Vec<char>, from: usize, to: usize) -> (r: Option<u32>)
    requires
        from <= to <= chars.len(),
    ensures
        r == parse_u32(chars@.subrange(from as int, to as int)),
{
    let ghost s = chars@.subrange(from as int, to as int);
    let start: usize = if from < to && chars[from] == '+' {
        from + 1
    } else {
        from
    };
    let ghost digits = chars@.subrange(start as int, to as int);
    assert(digits =~= unsigned_part(s));
    if start == to {
        return None;
    }
    let mut value: u64 = 0;
    let mut i: usize = start;
    while i < to
        invariant
            from <= start <= i <= to <= chars.len(),
            start < to,
            s == chars@.subrange(from as int, to as int),
            digits == chars@.subrange(start as int, to as int),
            digits == unsigned_part(s),
            forall|j: int| 0 <= j < i - start ==> is_digit(#[trigger] digits[j]),
            value == decimal_value(digits.take(i - start)),
            value <= u32::MAX,
        decreases to - i,
    {
        let c = chars[i];
        if c < '0' || c > '9' {
            assert(!is_digit(digits[i - start]));
            return None;
        }
        let d: u64 = (c as u32 - '0' as u32) as u64;
        let ghost longer = digits.take(i - start + 1);
        assert(longer.drop_last() =~= digits.take(i - start));
        assert(longer.last() == c);
        let next: u64 = value * 10 + d;
        assert(next == decimal_value(longer));
        if next > u32::MAX as u64 {
            proof {
                if all_digits(digits) {
                    lemma_decimal_grows(digits, i - start + 1);
                }
            }
            return None;
        }
        value = next;
        i += 1;
    }
    assert(digits.take(to - start) =~= digits);
    Some(value as u32)
}

} // verus!
