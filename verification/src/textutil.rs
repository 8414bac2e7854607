//! Verified text utilities: decimal rendering of sequence numbers and the
//! derived-artifact path beside a note's markdown path.

use vstd::prelude::*;
use vstd::string::*;

verus! {

/// Relies on String::push: appends exactly the one character.
#[verifier::external_body]
pub(crate) fn push_char(s: &mut String, c: char)
    ensures
        final(s)@ == old(s)@.push(c),
{
    s.push(c);
}

/// The decimal digit character for a value below ten.
pub open spec fn dec_digit(d: nat) -> char {
    if d == 0 {
        '0'
    } else if d == 1 {
        '1'
    } else if d == 2 {
        '2'
    } else if d == 3 {
        '3'
    } else if d == 4 {
        '4'
    } else if d == 5 {
        '5'
    } else if d == 6 {
        '6'
    } else if d == 7 {
        '7'
    } else if d == 8 {
        '8'
    } else {
        '9'
    }
}

/// The decimal rendering of a number, most significant digit first, with no
/// leading zeros (zero itself renders as "0").
pub open spec fn dec_str(n: nat) -> Seq<char>
    decreases n,
{
    if n < 10 {
        seq![dec_digit(n)]
    } else {
        dec_str(n / 10).push(dec_digit(n % 10))
    }
}

fn dec_digit_exec(d: usize) -> (c: char)
    requires
        d < 10,
    ensures
        c == dec_digit(d as nat),
{
    if d == 0 {
        '0'
    } else if d == 1 {
        '1'
    } else if d == 2 {
        '2'
    } else if d == 3 {
        '3'
    } else if d == 4 {
        '4'
    } else if d == 5 {
        '5'
    } else if d == 6 {
        '6'
    } else if d == 7 {
        '7'
    } else if d == 8 {
        '8'
    } else {
        '9'
    }
}

/// Render a sequence number in decimal.
pub fn usize_str(n: usize) -> (r: String)
    ensures
        r@ == dec_str(n as nat),
    decreases n,
{
    if n < 10 {
        let mut s = String::new();
        push_char(&mut s, dec_digit_exec(n));
        proof {
            assert(s@ =~= dec_str(n as nat));
        }
        s
    } else {
        proof {
            assert(n / 10 < n) by (nonlinear_arith)
                requires
                    n >= 10,
            ;
        }
        let mut s = usize_str(n / 10);
        push_char(&mut s, dec_digit_exec(n % 10));
        s
    }
}

/// Whether a path ends in the markdown extension.
pub open spec fn spec_ends_with_md(p: Seq<char>) -> bool {
    p.len() >= 3 && p.subrange(p.len() - 3, p.len() as int) == ".md"@
}

/// The path of the derived HTML artifact kept beside a note's file: the
/// markdown extension replaced by the HTML one (appended, for a path without
/// the markdown extension).
pub open spec fn spec_html_sibling(p: Seq<char>) -> Seq<char> {
    if spec_ends_with_md(p) {
        p.subrange(0, p.len() - 3) + ".html"@
    } else {
        p + ".html"@
    }
}

pub fn html_sibling(path: &str) -> (r: String)
    ensures
        r@ == spec_html_sibling(path@),
{
    let n = path.unicode_len();
    if n >= 3 {
        let tail = path.substring_char(n - 3, n).to_owned();
        let md_ext = ".md".to_owned();
        if tail == md_ext {
            let mut head = path.substring_char(0, n - 3).to_owned();
            head.append(".html");
            return head;
        }
    }
    let mut whole = path.to_owned();
    whole.append(".html");
    whole
}

} // verus!
