//! Small verified string helpers: literal copies, concatenation and
//! decimal rendering of integers.
use vstd::prelude::*;
use vstd::string::*;

verus! {

/// The ASCII digit character for `d` (meant for `d < 10`).
pub open spec fn digit_char(d: nat) -> char {
    if d == 0 { '0' }
    else if d == 1 { '1' }
    else if d == 2 { '2' }
    else if d == 3 { '3' }
    else if d == 4 { '4' }
    else if d == 5 { '5' }
    else if d == 6 { '6' }
    else if d == 7 { '7' }
    else if d == 8 { '8' }
    else { '9' }
}

/// Base-ten rendering of `n`, most significant digit first, without padding.
pub open spec fn decimal(n: nat) -> Seq<char>
    decreases n,
{
    if n < 10 {
        seq![digit_char(n)]
    } else {
        decimal(n / 10).push(digit_char(n % 10))
    }
}

/// An owned copy of a string slice.
pub fn owned(s: &str) -> (r: String)
    ensures
        r@ == s@,
{
    s.to_owned()
}

fn digit_str(d: u64) -> (r: &'static str)
    requires
        d < 10,
    ensures
        r@ == seq![digit_char(d as nat)],
{
    proof {
        reveal_strlit("0");
        reveal_strlit("1");
        reveal_strlit("2");
        reveal_strlit("3");
        reveal_strlit("4");
        reveal_strlit("5");
        reveal_strlit("6");
        reveal_strlit("7");
        reveal_strlit("8");
        reveal_strlit("9");
    }
    if d == 0 { "0" }
    else if d == 1 { "1" }
    else if d == 2 { "2" }
    else if d == 3 { "3" }
    else if d == 4 { "4" }
    else if d == 5 { "5" }
    else if d == 6 { "6" }
    else if d == 7 { "7" }
    else if d == 8 { "8" }
    else { "9" }
}

/// Renders `n` in base ten, as `n.to_string()` does for unsigned integers.
pub fn decimal_string(n: u64) -> (r: String)
    ensures
        r@ == decimal(n as nat),
    decreases n,
{
    if n < 10 {
        owned(digit_str(n))
    } else {
        let mut s = decimal_string(n / 10);
        s.append(digit_str(n % 10));
        s
    }
}

/// The characters of `s`, in order.
pub fn chars_of(s: &str) -> (r: Vec<char>)
    ensures
        r@ == s@,
{
    broadcast use vstd::string::group_string_axioms;
    let mut r: Vec<char> = Vec::new();
    for c in it: s.chars()
        invariant
            it.seq() == s@,
            r@ == it.seq().take(it.index()),
    {
        r.push(c);
    }
    r
}

/// Appends one character: calls `String::push` of std, which adds `c` at the
/// end of the string.
#[verifier::external_body]
pub fn push_char(s: &mut String, c: char)
    ensures
        final(s)@ == old(s)@.push(c),
{
    s.push(c);
}

/// Whether `s` ends with `suffix`.
pub open spec fn ends_with(s: Seq<char>, suffix: Seq<char>) -> bool {
    suffix.len() <= s.len() && s.skip(s.len() - suffix.len()) == suffix
}

/// Whether `s` ends with `suffix`, as `str::ends_with` tells.
pub fn str_ends_with(s: &str, suffix: &str) -> (r: bool)
    ensures
        r == ends_with(s@, suffix@),
{
    let cs = chars_of(s);
    let xs = chars_of(suffix);
    if xs.len() > cs.len() {
        return false;
    }
    let start = cs.len() - xs.len();
    let mut j: usize = 0;
    while j < xs.len()
        invariant
            cs@ == s@,
            xs@ == suffix@,
            start == cs@.len() - xs@.len(),
            cs@.len() <= usize::MAX,
            j <= xs@.len(),
            forall|k: int| 0 <= k < j ==> cs@[start + k] == xs@[k],
        decreases xs@.len() - j,
    {
        if cs[start + j] != xs[j] {
            assert(s@.skip(start as int)[j as int] != suffix@[j as int]);
            return false;
        }
        j = j + 1;
    }
    assert(s@.skip(start as int) =~= suffix@);
    true
}

/// Whether `s` holds `pattern` starting at index `i`.
pub open spec fn occurs_at(s: Seq<char>, pattern: Seq<char>, i: int) -> bool {
    0 <= i && i + pattern.len() <= s.len() && s.subrange(i, i + pattern.len()) == pattern
}

/// Whether `text` holds `pattern` somewhere.
pub open spec fn contains_text(text: Seq<char>, pattern: Seq<char>) -> bool {
    exists|i: int| occurs_at(text, pattern, i)
}

/// `s` with every occurrence of `pattern` (a nonempty pattern) replaced by
/// `replacement`, scanning from the left and not overlapping, as
/// `str::replace` does.
pub open spec fn replaced(s: Seq<char>, pattern: Seq<char>, replacement: Seq<char>) -> Seq<char>
    decreases s.len(),
{
    if pattern.len() == 0 || s.len() < pattern.len() {
        s
    } else if s.take(pattern.len() as int) == pattern {
        replacement + replaced(s.skip(pattern.len() as int), pattern, replacement)
    } else {
        seq![s[0]] + replaced(s.skip(1), pattern, replacement)
    }
}

fn occurs_at_exec(cs: &Vec<char>, ps: &Vec<char>, i: usize) -> (r: bool)
    requires
        i + ps@.len() <= cs@.len(),
    ensures
        r == occurs_at(cs@, ps@, i as int),
{
    let n = cs.len();
    let mut j: usize = 0;
    while j < ps.len()
        invariant
            i + ps@.len() <= cs@.len(),
            n == cs@.len(),
            j <= ps@.len(),
            forall|k: int| 0 <= k < j ==> cs@[i + k] == ps@[k],
        decreases ps@.len() - j,
    {
        if cs[i + j] != ps[j] {
            assert(cs@.subrange(i as int, i + ps@.len())[j as int] != ps@[j as int]);
            return false;
        }
        j = j + 1;
    }
    assert(cs@.subrange(i as int, i + ps@.len()) =~= ps@);
    true
}

/// Whether `s` holds `pattern` somewhere (an empty pattern is held by
/// every text).
pub fn str_contains(s: &str, pattern: &str) -> (r: bool)
    ensures
        r == contains_text(s@, pattern@),
{
    let cs = chars_of(s);
    let ps = chars_of(pattern);
    if ps.len() > cs.len() {
        assert(forall|i: int| !occurs_at(s@, pattern@, i));
        return false;
    }
    let last = cs.len() - ps.len();
    let mut i: usize = 0;
    loop
        invariant
            cs@ == s@,
            ps@ == pattern@,
            last + ps@.len() == cs@.len(),
            i <= last,
            forall|k: int| 0 <= k < i ==> !occurs_at(s@, pattern@, k),
        decreases last - i,
    {
        if occurs_at_exec(&cs, &ps, i) {
            return true;
        }
        if i == last {
            assert forall|k: int| !occurs_at(s@, pattern@, k) by {
                if 0 <= k <= i {
                }
            }
            return false;
        }
        i = i + 1;
    }
}

/// `s` with every occurrence of `pattern` replaced by `replacement`.
pub fn replace_all(s: &str, pattern: &str, replacement: &str) -> (r: String)
    requires
        pattern@.len() > 0,
    ensures
        r@ == replaced(s@, pattern@, replacement@),
{
    let cs = chars_of(s);
    let ps = chars_of(pattern);
    let mut out = String::new();
    let mut i: usize = 0;
    assert(s@.skip(0) =~= s@);
    while i < cs.len()
        invariant
            cs@ == s@,
            ps@ == pattern@,
            ps@.len() > 0,
            i <= cs@.len(),
            replaced(s@, pattern@, replacement@) == out@ + replaced(s@.skip(i as int), pattern@, replacement@),
        decreases cs@.len() - i,
    {
        let ghost rest = s@.skip(i as int);
        if ps.len() <= cs.len() - i && occurs_at_exec(&cs, &ps, i) {
            assert(rest.take(ps@.len() as int) =~= cs@.subrange(i as int, i + ps@.len()));
            assert(rest.skip(ps@.len() as int) =~= s@.skip(i + ps@.len()));
            out.append(replacement);
            i = i + ps.len();
        } else {
            if ps.len() <= cs.len() - i {
                assert(rest.take(ps@.len() as int) =~= cs@.subrange(i as int, i + ps@.len()));
            } else {
                assert(rest.len() < ps@.len());
                assert(s@.skip(i + 1).len() < ps@.len());
                assert(rest =~= seq![rest[0]] + rest.skip(1));
            }
            assert(rest.skip(1) =~= s@.skip(i + 1));
            push_char(&mut out, cs[i]);
            i = i + 1;
        }
    }
    assert(s@.skip(i as int) =~= Seq::<char>::empty());
    out
}

/// Lower-case form of a text, as std's `str::to_lowercase` gives it.
pub uninterp spec fn lowercase(s: Seq<char>) -> Seq<char>;

/// Calls std's `str::to_lowercase`; the contract only names the result,
/// which follows Unicode's lower-case mapping of each character.
#[verifier::external_body]
pub fn to_lowercase(s: &str) -> (r: String)
    ensures
        r@ == lowercase(s@),
{
    s.to_lowercase()
}

} // verus!
