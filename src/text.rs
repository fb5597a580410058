use vstd::prelude::*;
use vstd::string::StringExecFns;

verus! {

/// The number of terminal columns that a string takes, counting characters of
/// ambiguous width as two.
pub uninterp spec fn display_width(s: Seq<char>) -> usize;

/// Relies on `unicode_width::UnicodeWidthStr::width_cjk` for the display width
/// of a string; it sums the widths of the characters, so an empty string is zero
/// columns wide.
#[verifier::external_body]
fn width_cjk(s: &str) -> (r: usize)
    ensures
        r == display_width(s@),
        s@.len() == 0 ==> r == 0,
{
    unicode_width::UnicodeWidthStr::width_cjk(s)
}

/// `n` spaces.
pub open spec fn spaces(n: nat) -> Seq<char> {
    Seq::new(n, |i: int| ' ')
}

/// `s`, preceded by as many spaces as it takes to reach `target_width` columns
/// when `s` takes `width` columns.
pub open spec fn padded(s: Seq<char>, width: nat, target_width: nat) -> Seq<char> {
    if target_width > width {
        spaces((target_width - width) as nat) + s
    } else {
        s
    }
}

/// Pads `s`, which takes `width` columns, on the left to `target_width` columns.
pub fn pad_to_width(s: &str, width: usize, target_width: usize) -> (r: String)
    ensures
        r@ == padded(s@, width as nat, target_width as nat),
{
    if target_width > width {
        let n = target_width - width;
        let mut r = String::new();
        let mut i: usize = 0;
        while i < n
            invariant
                i <= n,
                r@ == spaces(i as nat),
            decreases n - i,
        {
            proof {
                reveal_strlit(" ");
            }
            r.append(" ");
            i = i + 1;
            assert(r@ =~= spaces(i as nat));
        }
        r.append(s);
        r
    } else {
        s.to_owned()
    }
}

/// Pads `s` on the left with spaces to `target_width` terminal columns, so that
/// names of different widths line up; a string at least that wide is unchanged.
pub fn left_pad(s: &str, target_width: usize) -> (r: String)
    ensures
        r@ == padded(s@, display_width(s@) as nat, target_width as nat),
        s@.len() == 0 ==> r@ == spaces(target_width as nat),
{
    let width = width_cjk(s);
    let r = pad_to_width(s, width, target_width);
    proof {
        if s@.len() == 0 {
            assert(spaces(target_width as nat) + s@ =~= spaces(target_width as nat));
            assert(spaces(0) =~= s@);
        }
    }
    r
}

/// The widest display width among `names`, zero when there are none.
pub open spec fn widest_of(names: Seq<String>) -> nat
    decreases names.len(),
{
    if names.len() == 0 {
        0
    } else {
        let rest = widest_of(names.drop_last());
        let last = display_width(names.last()@) as nat;
        if last > rest { last } else { rest }
    }
}

/// The column width that the widest of `names` takes, so that all of them can
/// be padded to line up.
pub fn widest(names: &Vec<String>) -> (r: usize)
    ensures
        r == widest_of(names@),
{
    let mut best: usize = 0;
    let mut i: usize = 0;
    while i < names.len()
        invariant
            i <= names@.len(),
            best == widest_of(names@.take(i as int)),
        decreases names@.len() - i,
    {
        let w = width_cjk(names[i].as_str());
        proof {
            assert(names@.take(i as int + 1).drop_last() =~= names@.take(i as int));
        }
        if w > best {
            best = w;
        }
        i = i + 1;
    }
    proof {
        assert(names@.take(i as int) =~= names@);
    }
    best
}

} // verus!
