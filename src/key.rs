use vstd::prelude::*;

verus! {

/// Number of distinct backing objects that workers rotate through.
pub const KEY_FAN_OUT: u64 = 40;

/// The character of the decimal digit `d`.
pub open spec fn digit_char(d: nat) -> char {
    if d == 0 { '0' }
    else if d == 1 { '1' }
    else if d == 2 { '2' }
    else if d == 3 { '3' }
    else if d == 4 { '4' }
    else if d == 5 { '5' }
    else if d == 6 { '6' }
    else if d == 7 { '7' }
    else if d == 8 { '8' }
    else { '9' }
}

/// The decimal digits of `n`, most significant first, without leading zeros.
pub open spec fn decimal(n: nat) -> Seq<char>
    decreases n,
{
    if n < 10 {
        seq![digit_char(n)]
    } else {
        decimal(n / 10).push(digit_char(n % 10))
    }
}

/// The key of object number `index` under `prefix`: the prefix, a dash, and
/// the index in decimal.
pub open spec fn object_key_spec(prefix: Seq<char>, index: nat) -> Seq<char> {
    prefix + seq!['-'] + decimal(index)
}

fn digit_str(d: u64) -> (r: &'static str)
    requires
        d < 10,
    ensures
        r@ == seq![digit_char(d as nat)],
{
    if d == 0 {
        proof { reveal_strlit("0"); }
        "0"
    } else if d == 1 {
        proof { reveal_strlit("1"); }
        "1"
    } else if d == 2 {
        proof { reveal_strlit("2"); }
        "2"
    } else if d == 3 {
        proof { reveal_strlit("3"); }
        "3"
    } else if d == 4 {
        proof { reveal_strlit("4"); }
        "4"
    } else if d == 5 {
        proof { reveal_strlit("5"); }
        "5"
    } else if d == 6 {
        proof { reveal_strlit("6"); }
        "6"
    } else if d == 7 {
        proof { reveal_strlit("7"); }
        "7"
    } else if d == 8 {
        proof { reveal_strlit("8"); }
        "8"
    } else {
        proof { reveal_strlit("9"); }
        "9"
    }
}

/// Appends the decimal digits of `n` to `out`.
pub fn push_decimal(out: &mut String, n: u64)
    ensures
        final(out)@ == old(out)@ + decimal(n as nat),
    decreases n,
{
    if n < 10 {
        out.append(digit_str(n));
    } else {
        push_decimal(out, n / 10);
        out.append(digit_str(n % 10));
        proof {
            assert(decimal(n as nat) == decimal((n / 10) as nat).push(digit_char((n % 10) as nat)));
        }
    }
}

/// The key of object number `index` under `prefix`: `"{prefix}-{index}"`.
pub fn object_key(prefix: &str, index: u64) -> (r: String)
    ensures
        r@ == object_key_spec(prefix@, index as nat),
{
    let mut out = String::from_str(prefix);
    proof { reveal_strlit("-"); }
    out.append("-");
    push_decimal(&mut out, index);
    out
}

/// The key that worker `worker` fetches: workers share `width` backing
/// objects, worker `i` taking object `i % width`.
pub fn worker_key(prefix: &str, worker: u64, width: u64) -> (r: String)
    requires
        width > 0,
    ensures
        r@ == object_key_spec(prefix@, (worker % width) as nat),
{
    object_key(prefix, worker % width)
}

} // verus!
