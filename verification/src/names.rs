//! Names of the runtimes registered as one batch.
use vstd::prelude::*;

verus! {

/// The character that writes the decimal digit `d`.
pub open spec fn digit_char(d: nat) -> char
    recommends
        d < 10,
{
    ('0' as nat + d) as char
}

/// `n` in decimal, most significant digit first, without leading zeros.
pub open spec fn decimal(n: nat) -> Seq<char>
    decreases n,
{
    if n < 10 {
        seq![digit_char(n)]
    } else {
        decimal(n / 10).push(digit_char(n % 10))
    }
}

/// `"{name}-{i}"`: the name of the runtime at position `i` of the batch `name`.
pub open spec fn batch_name(name: Seq<char>, i: nat) -> Seq<char> {
    name.push('-') + decimal(i)
}

fn digit_str(d: usize) -> (s: &'static str)
    requires
        d < 10,
    ensures
        s@ == seq![digit_char(d as nat)],
{
    proof {
        reveal_strlit("0");
        reveal_strlit("1");
        reveal_strlit("2");
        reveal_strlit("3");
        reveal_strlit("4");
        reveal_strlit("5");
        reveal_strlit("6");
        reveal_strlit("7");
        reveal_strlit("8");
        reveal_strlit("9");
    }
    match d {
        0 => "0",
        1 => "1",
        2 => "2",
        3 => "3",
        4 => "4",
        5 => "5",
        6 => "6",
        7 => "7",
        8 => "8",
        _ => "9",
    }
}

fn append_decimal(text: &mut String, n: usize)
    ensures
        final(text)@ == old(text)@ + decimal(n as nat),
    decreases n,
{
    if n >= 10 {
        append_decimal(text, n / 10);
    }
    text.append(digit_str(n % 10));
}

/// Name the runtime at position `i` of the batch `name`: `"{name}-{i}"`.
pub fn batch_runtime_name(name: &str, i: usize) -> (res: String)
    ensures
        res@ == batch_name(name@, i as nat),
{
    let mut text: String = name.to_string();
    proof {
        reveal_strlit("-");
    }
    text.append("-");
    append_decimal(&mut text, i);
    assert(text@ == batch_name(name@, i as nat));
    text
}

/// Two numbers with the same decimal digits are the same number.
pub proof fn law_decimal_is_injective(a: nat, b: nat)
    requires
        decimal(a) == decimal(b),
    ensures
        a == b,
    decreases a + b,
{
    assert(decimal(a).len() >= 1 && decimal(b).len() >= 1) by {
        lemma_decimal_not_empty(a);
        lemma_decimal_not_empty(b);
    }
    assert(decimal(a).last() == digit_char(a % 10));
    assert(decimal(b).last() == digit_char(b % 10));
    assert(a % 10 == b % 10);
    if a >= 10 && b >= 10 {
        assert(decimal(a).drop_last() == decimal(a / 10));
        assert(decimal(b).drop_last() == decimal(b / 10));
        law_decimal_is_injective(a / 10, b / 10);
    } else if a >= 10 {
        lemma_decimal_not_empty(a / 10);
    } else if b >= 10 {
        lemma_decimal_not_empty(b / 10);
    }
}

proof fn lemma_decimal_not_empty(n: nat)
    ensures
        decimal(n).len() >= 1,
    decreases n,
{
}

/// Different positions of one batch have different names.
pub proof fn law_batch_names_are_distinct(name: Seq<char>, i: nat, j: nat)
    requires
        i != j,
    ensures
        batch_name(name, i) != batch_name(name, j),
{
    if batch_name(name, i) == batch_name(name, j) {
        let prefix = name.push('-');
        assert(batch_name(name, i).skip(prefix.len() as int) == decimal(i));
        assert(batch_name(name, j).skip(prefix.len() as int) == decimal(j));
        law_decimal_is_injective(i, j);
    }
}

/// Numbers are written digit by digit: a number below 10 as the one digit it is,
/// and `10 * n + d` as `n` with the digit `d` behind it.
pub proof fn law_decimal_appends_a_digit(n: nat, d: nat)
    requires
        d < 10,
    ensures
        decimal(d) == seq![('0' as nat + d) as char],
        n >= 1 ==> decimal(10 * n + d) == decimal(n).push(('0' as nat + d) as char),
{
    assert((10 * n + d) / 10 == n && (10 * n + d) % 10 == d);
}

/// Only the digits 0 to 9 are used, and no number but 0 starts with a zero.
pub proof fn law_decimal_has_digits_alone(n: nat)
    ensures
        decimal(n).len() >= 1,
        forall|i: int|
            0 <= i < decimal(n).len() ==> '0' as nat <= #[trigger] decimal(n)[i] as nat
                && decimal(n)[i] as nat <= '9' as nat,
        n > 0 ==> decimal(n)[0] != '0',
    decreases n,
{
    if n >= 10 {
        law_decimal_has_digits_alone(n / 10);
    }
}

/// The name of a batch's runtime is the name of the batch, a dash, and the
/// position in decimal.
pub proof fn law_batch_names_start_with_the_batch(name: Seq<char>, i: nat)
    ensures
        batch_name(name, i).len() == name.len() + 1 + decimal(i).len(),
        batch_name(name, i).take(name.len() as int) == name,
        batch_name(name, i)[name.len() as int] == '-',
        batch_name(name, i).skip(1 + name.len() as int) == decimal(i),
{
}

} // verus!
