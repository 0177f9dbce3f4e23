//! Window labels: the archetype name followed by a count of whole seconds.
use vstd::prelude::*;

verus! {

/// The name of the one window archetype, which is also the label of the
/// window that exists from startup.
pub open spec fn archetype() -> Seq<char> {
    "main"@
}

/// The decimal digit for `d`, for `d` below ten.
pub open spec fn digit_char(d: nat) -> char {
    if d == 0 {
        '0'
    } else if d == 1 {
        '1'
    } else if d == 2 {
        '2'
    } else if d == 3 {
        '3'
    } else if d == 4 {
        '4'
    } else if d == 5 {
        '5'
    } else if d == 6 {
        '6'
    } else if d == 7 {
        '7'
    } else if d == 8 {
        '8'
    } else {
        '9'
    }
}

/// The decimal form of `n`, without leading zeros.
pub open spec fn decimal(n: nat) -> Seq<char>
    decreases n,
{
    if n < 10 {
        seq![digit_char(n)]
    } else {
        decimal(n / 10).push(digit_char(n % 10))
    }
}

/// The label minted for a window created `secs` seconds after the epoch.
pub open spec fn label_for(secs: nat) -> Seq<char> {
    archetype() + decimal(secs)
}

fn digit_str(d: u64) -> (r: &'static str)
    requires
        d < 10,
    ensures
        r@ == seq![digit_char(d as nat)],
{
    if d == 0 {
        proof { reveal_strlit("0"); }
        "0"
    } else if d == 1 {
        proof { reveal_strlit("1"); }
        "1"
    } else if d == 2 {
        proof { reveal_strlit("2"); }
        "2"
    } else if d == 3 {
        proof { reveal_strlit("3"); }
        "3"
    } else if d == 4 {
        proof { reveal_strlit("4"); }
        "4"
    } else if d == 5 {
        proof { reveal_strlit("5"); }
        "5"
    } else if d == 6 {
        proof { reveal_strlit("6"); }
        "6"
    } else if d == 7 {
        proof { reveal_strlit("7"); }
        "7"
    } else if d == 8 {
        proof { reveal_strlit("8"); }
        "8"
    } else {
        proof { reveal_strlit("9"); }
        "9"
    }
}

/// Appends the decimal form of `n` to `s`.
pub fn push_decimal(s: &mut String, n: u64)
    ensures
        final(s)@ == old(s)@ + decimal(n as nat),
    decreases n,
{
    if n >= 10 {
        push_decimal(s, n / 10);
        s.append(digit_str(n % 10));
        assert(final(s)@ =~= old(s)@ + decimal(n as nat));
    } else {
        s.append(digit_str(n));
    }
}

/// Mints the label of a new window from the current time in whole seconds
/// since the epoch. Two calls within one second give the same label.
pub fn allocate_label(now_secs: u64) -> (r: String)
    ensures
        r@ == label_for(now_secs as nat),
{
    let mut s = String::from_str("main");
    push_decimal(&mut s, now_secs);
    s
}

/// A decimal form is never empty, and has one digit exactly below ten.
pub proof fn lemma_decimal_len(n: nat)
    ensures
        decimal(n).len() >= 1,
        (decimal(n).len() == 1) == (n < 10),
    decreases n,
{
    if n >= 10 {
        lemma_decimal_len(n / 10);
    }
}

/// Distinct numbers have distinct decimal forms.
pub proof fn lemma_decimal_injective(a: nat, b: nat)
    ensures
        decimal(a) == decimal(b) ==> a == b,
    decreases a,
{
    if decimal(a) == decimal(b) {
        lemma_decimal_len(a);
        lemma_decimal_len(b);
        if a < 10 {
            assert(decimal(a)[0] == decimal(b)[0]);
        } else {
            let da = decimal(a);
            let db = decimal(b);
            assert(da.last() == db.last());
            assert(da.drop_last() =~= decimal(a / 10));
            assert(db.drop_last() =~= decimal(b / 10));
            lemma_decimal_injective(a / 10, b / 10);
        }
    }
}

/// Labels minted in distinct seconds differ, and none equals the archetype's
/// own label.
pub proof fn lemma_label_for_injective(a: nat, b: nat)
    ensures
        label_for(a) == label_for(b) ==> a == b,
        label_for(a) != archetype(),
{
    reveal_strlit("main");
    lemma_decimal_len(a);
    lemma_decimal_len(b);
    if label_for(a) == label_for(b) {
        assert(label_for(a).subrange(4, label_for(a).len() as int) =~= decimal(a));
        assert(label_for(b).subrange(4, label_for(b).len() as int) =~= decimal(b));
        lemma_decimal_injective(a, b);
    }
    assert(label_for(a).len() > archetype().len());
}

} // verus!
