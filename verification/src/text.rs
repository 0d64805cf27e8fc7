//! Small verified helpers on character sequences and strings.

use vstd::prelude::*;
use vstd::string::StringExecFns;

verus! {

/// `String::push`: appends the given character to the end of the string and
/// changes nothing else.
pub assume_specification[ String::push ](s: &mut String, c: char)
    ensures
        final(s)@ == old(s)@.push(c),
;

/// The character that writes the decimal digit `d`.
pub open spec fn digit_char(d: int) -> char
    recommends
        0 <= d <= 9,
{
    ((d + 48) as u8) as char
}

/// The decimal numeral of `n`, without sign and without leading zeros.
pub open spec fn decimal(n: nat) -> Seq<char>
    decreases n,
{
    if n < 10 {
        seq![digit_char(n as int)]
    } else {
        decimal(n / 10).push(digit_char((n % 10) as int))
    }
}

/// Appends the decimal numeral of `n` to `out`.
pub fn push_decimal(out: &mut String, n: u128)
    ensures
        final(out)@ == old(out)@ + decimal(n as nat),
    decreases n,
{
    if n >= 10 {
        push_decimal(out, n / 10);
    }
    let d: u8 = (n % 10) as u8;
    let c: char = (d + 48u8) as char;
    out.push(c);
    proof {
        if n >= 10 {
            assert(old(out)@ + decimal(n as nat) =~= (old(out)@ + decimal((n / 10) as nat)).push(c));
        } else {
            assert(old(out)@ + decimal(n as nat) =~= old(out)@.push(c));
        }
    }
}

/// The characters of `s`, in their order.
pub fn chars_of(s: &str) -> (chars: Vec<char>)
    ensures
        chars@ == s@,
{
    let mut chars: Vec<char> = Vec::new();
    for c in it: s.chars()
        invariant
            it.seq() == s@,
            chars@ == s@.take(it.index() as int),
    {
        chars.push(c);
        assert(s@.take(it.index() + 1) =~= s@.take(it.index() as int).push(c));
    }
    assert(s@.take(s@.len() as int) =~= s@);
    chars
}

/// What stands behind the last `mark` in `s`; all of `s` where it holds none.
pub open spec fn after_last(s: Seq<char>, mark: char) -> Seq<char>
    decreases s.len(),
{
    if s.len() == 0 {
        s
    } else if s.last() == mark {
        Seq::empty()
    } else {
        after_last(s.drop_last(), mark).push(s.last())
    }
}

/// `s` with every occurrence of `pattern` taken out, reading from the front;
/// an occurrence begins where the one before it has ended. An empty pattern
/// occurs nowhere.
pub open spec fn without(s: Seq<char>, pattern: Seq<char>) -> Seq<char>
    decreases s.len(),
{
    if pattern.len() == 0 || s.len() < pattern.len() {
        s
    } else if s.take(pattern.len() as int) == pattern {
        without(s.skip(pattern.len() as int), pattern)
    } else {
        seq![s[0]] + without(s.drop_first(), pattern)
    }
}

/// What stands behind the last `mark` in `s`.
pub fn text_after_last(s: &str, mark: char) -> (rest: String)
    ensures
        rest@ == after_last(s@, mark),
{
    let mut rest = String::new();
    for c in it: s.chars()
        invariant
            it.seq() == s@,
            rest@ == after_last(s@.take(it.index() as int), mark),
    {
        let ghost seen = s@.take(it.index() + 1);
        assert(seen.drop_last() =~= s@.take(it.index() as int));
        if c == mark {
            rest = String::new();
        } else {
            rest.push(c);
        }
    }
    assert(s@.take(s@.len() as int) =~= s@);
    rest
}

/// Whether `pattern` stands in `s` at position `at`.
fn occurs_at(s: &Vec<char>, at: usize, pattern: &Vec<char>) -> (found: bool)
    requires
        at <= s.len(),
    ensures
        found == (pattern.len() <= s.len() - at && s@.skip(at as int).take(pattern.len() as int)
            == pattern@),
{
    if pattern.len() > s.len() - at {
        return false;
    }
    let ghost window = s@.skip(at as int).take(pattern.len() as int);
    let mut k: usize = 0;
    while k < pattern.len()
        invariant
            k <= pattern.len(),
            pattern.len() <= s.len() - at,
            window == s@.skip(at as int).take(pattern.len() as int),
            forall|j: int| 0 <= j < k ==> window[j] == pattern[j],
        decreases pattern.len() - k,
    {
        if s[at + k] != pattern[k] {
            assert(window[k as int] != pattern[k as int]);
            return false;
        }
        k += 1;
    }
    assert(window =~= pattern@);
    true
}

/// `s` with every occurrence of `pattern` taken out; `s` as it is where
/// `pattern` is empty.
pub fn text_without(s: &str, pattern: &str) -> (rest: String)
    ensures
        rest@ == without(s@, pattern@),
{
    let chars = chars_of(s);
    let pat = chars_of(pattern);
    if pat.len() == 0 {
        return String::from_str(s);
    }
    let mut rest = String::new();
    let mut i: usize = 0;
    assert(s@.skip(0) =~= s@);
    assert(rest@ + without(s@, pattern@) =~= without(s@, pattern@));
    while i < chars.len()
        invariant
            i <= chars.len(),
            chars@ == s@,
            pat@ == pattern@,
            pat.len() > 0,
            rest@ + without(s@.skip(i as int), pattern@) == without(s@, pattern@),
        decreases chars.len() - i,
    {
        let ghost tail = s@.skip(i as int);
        let ghost before = rest@;
        if occurs_at(&chars, i, &pat) {
            assert(tail.skip(pat.len() as int) =~= s@.skip(i + pat.len()));
            i += pat.len();
        } else {
            rest.push(chars[i]);
            assert(tail.drop_first() =~= s@.skip(i + 1));
            assert(before.push(tail[0]) + without(tail.drop_first(), pattern@) =~= before + (
                seq![tail[0]] + without(tail.drop_first(), pattern@)));
            i += 1;
        }
    }
    assert(s@.skip(i as int) =~= Seq::<char>::empty());
    assert(rest@ + Seq::<char>::empty() =~= rest@);
    rest
}

} // verus!
