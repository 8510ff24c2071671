//! Paging and clock-style duration rendering.
use vstd::prelude::*;
use vstd::string::*;
use crate::text::{decimal, decimal_string, owned};

verus! {

/// Number of pages needed to show `items` entries, `per_page` to a page.
pub open spec fn total_pages(items: nat, per_page: nat) -> nat
    recommends
        per_page > 0,
{
    if items % per_page == 0 { items / per_page } else { items / per_page + 1 }
}

/// Number of pages needed to show `items` entries, `per_page` to a page
/// (the last page may be partly filled).
pub fn get_total_pages(items: usize, per_page: usize) -> (r: usize)
    requires
        per_page > 0,
    ensures
        r as nat == total_pages(items as nat, per_page as nat),
        (r - 1) * per_page < items <= r * per_page || (items == 0 && r == 0),
{
    let full = items / per_page;
    assert(full * per_page + items % per_page == items && items % per_page < per_page) by (nonlinear_arith)
        requires
            per_page > 0,
            full == items / per_page,
    ;
    assert(items % per_page != 0 ==> full < items) by (nonlinear_arith)
        requires
            per_page > 0,
            full * per_page + items % per_page == items,
            full >= 0,
    ;
    let r = if items % per_page == 0 { full } else { full + 1 };
    assert((r - 1) * per_page < items <= r * per_page || (items == 0 && r == 0)) by (nonlinear_arith)
        requires
            per_page > 0,
            full == items / per_page,
            r == (if items % per_page == 0 { full as int } else { full + 1 }),
    {
        assert(items == full * per_page + items % per_page);
    }
    r
}

/// `n` written with at least two digits (a leading zero below ten).
pub open spec fn two_digits(n: nat) -> Seq<char> {
    if n < 10 { seq!['0'] + decimal(n) } else { decimal(n) }
}

/// A length of time in seconds as a clock reading: `MM:SS` below an hour,
/// `H:MM:SS` from an hour on.
pub open spec fn clock(secs: nat) -> Seq<char> {
    let h = secs / 3600;
    let m = (secs % 3600) / 60;
    let s = secs % 60;
    if h == 0 {
        two_digits(m) + seq![':'] + two_digits(s)
    } else {
        decimal(h) + seq![':'] + two_digits(m) + seq![':'] + two_digits(s)
    }
}

fn two_digit_string(n: u64) -> (r: String)
    ensures
        r@ == two_digits(n as nat),
{
    let d = decimal_string(n);
    if n < 10 {
        proof { reveal_strlit("0"); }
        let mut s = owned("0");
        s.append(d.as_str());
        s
    } else {
        d
    }
}

/// Renders a length of time given in whole seconds as a clock reading.
pub fn duration_string(secs: u64) -> (r: String)
    ensures
        r@ == clock(secs as nat),
{
    let h = secs / 3600;
    let m = (secs % 3600) / 60;
    let s = secs % 60;
    proof { reveal_strlit(":"); }
    let mut out = if h == 0 {
        two_digit_string(m)
    } else {
        let mut o = decimal_string(h);
        o.append(":");
        let mm = two_digit_string(m);
        o.append(mm.as_str());
        o
    };
    out.append(":");
    let ss = two_digit_string(s);
    out.append(ss.as_str());
    out
}

} // verus!
