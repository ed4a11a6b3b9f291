//! Numbers as text: decimal notation, and lists of numbers joined by dashes.
use vstd::prelude::*;

verus! {

/// The character for a digit.
pub open spec fn digit(d: nat) -> char {
    (48 + d) as char
}

/// `n` in decimal notation, without leading zeros.
pub open spec fn decimal(n: nat) -> Seq<char>
    decreases n,
{
    if n < 10 {
        seq![digit(n)]
    } else {
        decimal(n / 10).push(digit(n % 10))
    }
}

/// The numbers of a list in decimal notation, with a dash between each two.
pub open spec fn dashed(list: Seq<u64>) -> Seq<char>
    decreases list.len(),
{
    if list.len() == 0 {
        seq![]
    } else if list.len() == 1 {
        decimal(list[0] as nat)
    } else {
        dashed(list.drop_last()).push('-') + decimal(list.last() as nat)
    }
}

/// The text of a single digit.
fn digit_text(d: u64) -> (text: &'static str)
    requires
        d < 10,
    ensures
        text@ == seq![digit(d as nat)],
{
    proof {
        reveal_strlit("0");
        reveal_strlit("1");
        reveal_strlit("2");
        reveal_strlit("3");
        reveal_strlit("4");
        reveal_strlit("5");
        reveal_strlit("6");
        reveal_strlit("7");
        reveal_strlit("8");
        reveal_strlit("9");
    }
    let text = if d == 0 {
        "0"
    } else if d == 1 {
        "1"
    } else if d == 2 {
        "2"
    } else if d == 3 {
        "3"
    } else if d == 4 {
        "4"
    } else if d == 5 {
        "5"
    } else if d == 6 {
        "6"
    } else if d == 7 {
        "7"
    } else if d == 8 {
        "8"
    } else {
        "9"
    };
    assert(text@ =~= seq![digit(d as nat)]);
    text
}

/// Writes `n` in decimal notation at the end of `text`.
pub fn push_decimal(text: &mut String, n: u64)
    ensures
        final(text)@ == old(text)@ + decimal(n as nat),
    decreases n,
{
    if n >= 10 {
        push_decimal(text, n / 10);
    }
    text.append(digit_text(n % 10));
    assert(text@ =~= old(text)@ + decimal(n as nat));
}

/// The numbers of a list in decimal notation, with a dash between each two.
pub fn stringy(data: &Vec<u64>) -> (text: String)
    ensures
        text@ == dashed(data@),
{
    proof {
        reveal_strlit("-");
    }
    let mut text: String = String::new();
    let mut i: usize = 0;
    while i < data.len()
        invariant
            i <= data@.len(),
            text@ == dashed(data@.take(i as int)),
            "-"@ =~= seq!['-'],
        decreases data@.len() - i,
    {
        let ghost before = data@.take(i as int);
        let ghost after = data@.take(i + 1);
        assert(after.drop_last() =~= before);
        if i > 0 {
            text.append("-");
        }
        push_decimal(&mut text, data[i]);
        assert(text@ =~= dashed(after));
        i = i + 1;
    }
    assert(data@.take(data@.len() as int) =~= data@);
    text
}

/// Whether `c` is a decimal digit.
pub open spec fn is_digit(c: char) -> bool {
    '0' <= c <= '9'
}

/// Decimal notation has at least one character, and digits only.
pub proof fn decimal_digits(n: nat)
    ensures
        decimal(n).len() > 0,
        forall|i: int| 0 <= i < decimal(n).len() ==> is_digit(#[trigger] decimal(n)[i]),
    decreases n,
{
    if n >= 10 {
        decimal_digits(n / 10);
    }
}

/// Decimal notation tells numbers apart.
pub proof fn decimal_injective(a: nat, b: nat)
    requires
        decimal(a) == decimal(b),
    ensures
        a == b,
    decreases a,
{
    decimal_digits(a / 10);
    decimal_digits(b / 10);
    assert(decimal(a).last() == digit(a % 10));
    assert(decimal(b).last() == digit(b % 10));
    assert(a % 10 == b % 10);
    if a >= 10 && b >= 10 {
        assert(decimal(a).drop_last() =~= decimal(a / 10));
        assert(decimal(b).drop_last() =~= decimal(b / 10));
        decimal_injective(a / 10, b / 10);
    }
}

/// A list joined by dashes holds digits and dashes only.
pub proof fn dashed_characters(list: Seq<u64>)
    ensures
        forall|i: int|
            0 <= i < dashed(list).len() ==> is_digit(#[trigger] dashed(list)[i]) || dashed(list)[i]
                == '-',
    decreases list.len(),
{
    if list.len() == 1 {
        decimal_digits(list[0] as nat);
    } else if list.len() > 1 {
        dashed_characters(list.drop_last());
        decimal_digits(list.last() as nat);
        let front = dashed(list.drop_last());
        let back = decimal(list.last() as nat);
        assert forall|i: int| 0 <= i < dashed(list).len() implies is_digit(
            #[trigger] dashed(list)[i],
        ) || dashed(list)[i] == '-' by {
            if i < front.len() {
                assert(dashed(list)[i] == front[i]);
            } else if i > front.len() {
                assert(dashed(list)[i] == back[i - front.len() - 1]);
            }
        }
    }
}

/// Two texts that are alike up to a separator which neither part before it
/// holds have the same parts before and after it.
pub proof fn split_at_first(a: Seq<char>, b: Seq<char>, c: Seq<char>, d: Seq<char>, sep: char)
    requires
        a.push(sep) + b == c.push(sep) + d,
        !a.contains(sep),
        !c.contains(sep),
    ensures
        a == c,
        b == d,
{
    let s = a.push(sep) + b;
    let t = c.push(sep) + d;
    assert(s[a.len() as int] == sep);
    assert(t[c.len() as int] == sep);
    if a.len() < c.len() {
        assert(c[a.len() as int] == t[a.len() as int]);
        assert(c.contains(sep));
    }
    if c.len() < a.len() {
        assert(a[c.len() as int] == s[c.len() as int]);
        assert(a.contains(sep));
    }
    assert forall|i: int| 0 <= i < a.len() implies a[i] == c[i] by {
        assert(s[i] == a[i]);
        assert(t[i] == c[i]);
    }
    assert(a =~= c);
    assert(b.len() == s.len() - a.len() - 1);
    assert(d.len() == t.len() - c.len() - 1);
    assert forall|i: int| 0 <= i < b.len() implies b[i] == d[i] by {
        assert(s[a.len() + 1 + i] == b[i]);
        assert(t[c.len() + 1 + i] == d[i]);
    }
    assert(b =~= d);
}

/// Two texts that are alike and whose parts behind a separator do not hold it
/// have the same parts before and after it.
pub proof fn split_at_last(a: Seq<char>, b: Seq<char>, c: Seq<char>, d: Seq<char>, sep: char)
    requires
        a.push(sep) + b == c.push(sep) + d,
        !b.contains(sep),
        !d.contains(sep),
    ensures
        a == c,
        b == d,
{
    let s = a.push(sep) + b;
    let t = c.push(sep) + d;
    assert(s.len() == a.len() + 1 + b.len());
    assert(t.len() == c.len() + 1 + d.len());
    assert(s[a.len() as int] == sep);
    assert(t[c.len() as int] == sep);
    if a.len() < c.len() {
        let k = c.len() - a.len() - 1;
        assert(b[k] == s[c.len() as int]);
        assert(b.contains(sep));
    }
    if c.len() < a.len() {
        let k = a.len() - c.len() - 1;
        assert(d[k] == t[a.len() as int]);
        assert(d.contains(sep));
    }
    assert forall|i: int| 0 <= i < a.len() implies a[i] == c[i] by {
        assert(s[i] == a[i]);
        assert(t[i] == c[i]);
    }
    assert(a =~= c);
    assert(b.len() == s.len() - a.len() - 1);
    assert(d.len() == t.len() - c.len() - 1);
    assert forall|i: int| 0 <= i < b.len() implies b[i] == d[i] by {
        assert(s[a.len() + 1 + i] == b[i]);
        assert(t[c.len() + 1 + i] == d[i]);
    }
    assert(b =~= d);
}

/// A list of two numbers or more has a dash in it when joined.
proof fn dashed_has_dash(list: Seq<u64>)
    requires
        list.len() > 1,
    ensures
        dashed(list).contains('-'),
{
    let front = dashed(list.drop_last());
    assert(dashed(list)[front.len() as int] == '-');
}

/// Joining by dashes tells lists of numbers apart.
pub proof fn dashed_injective(a: Seq<u64>, b: Seq<u64>)
    requires
        dashed(a) == dashed(b),
    ensures
        a == b,
    decreases a.len(),
{
    if a.len() > 0 {
        decimal_digits(a.last() as nat);
    }
    if b.len() > 0 {
        decimal_digits(b.last() as nat);
    }
    if a.len() > 1 {
        dashed_has_dash(a);
    }
    if b.len() > 1 {
        dashed_has_dash(b);
    }
    if a.len() == 0 || b.len() == 0 {
        assert(a =~= b);
    } else if a.len() == 1 || b.len() == 1 {
        decimal_injective(a[0] as nat, b[0] as nat);
        assert(a =~= b);
    } else {
        split_at_last(
            dashed(a.drop_last()),
            decimal(a.last() as nat),
            dashed(b.drop_last()),
            decimal(b.last() as nat),
            '-',
        );
        dashed_injective(a.drop_last(), b.drop_last());
        decimal_injective(a.last() as nat, b.last() as nat);
        assert(a =~= a.drop_last().push(a.last()));
        assert(b =~= b.drop_last().push(b.last()));
    }
}

} // verus!
