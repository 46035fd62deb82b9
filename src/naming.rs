//! Names for temporary paths: `<directory>/rustytemp-<count>`, with the
//! count written in decimal.
use vstd::prelude::*;

verus! {

/// The character of a decimal digit.
pub open spec fn digit_char(d: nat) -> char
    recommends
        d < 10,
{
    if d == 0 {
        '0'
    } else if d == 1 {
        '1'
    } else if d == 2 {
        '2'
    } else if d == 3 {
        '3'
    } else if d == 4 {
        '4'
    } else if d == 5 {
        '5'
    } else if d == 6 {
        '6'
    } else if d == 7 {
        '7'
    } else if d == 8 {
        '8'
    } else {
        '9'
    }
}

/// `n` written in decimal, most significant digit first, without leading zeros.
pub open spec fn decimal(n: nat) -> Seq<char>
    decreases n,
{
    if n < 10 {
        seq![digit_char(n)]
    } else {
        decimal(n / 10).push(digit_char(n % 10))
    }
}

/// The file name that the counter value `count` gives.
pub open spec fn temp_file_name(count: nat) -> Seq<char> {
    "rustytemp-"@ + decimal(count)
}

/// The temporary path under `directory` for the counter value `count`.
pub open spec fn temp_path_name(directory: Seq<char>, count: nat) -> Seq<char> {
    directory + seq!['/'] + temp_file_name(count)
}

/// The counter value handed out `steps` calls after one that handed out
/// `start`: the counter is 16 bits wide and wraps back to 0.
pub open spec fn count_after(start: u16, steps: nat) -> nat {
    ((start as nat) + steps) % 0x1_0000
}

/// The one-character string of the digit `d`.
fn digit_str(d: u16) -> (r: &'static str)
    requires
        d < 10,
    ensures
        r@ == seq![digit_char(d as nat)],
{
    proof {
        reveal_strlit("0");
        reveal_strlit("1");
        reveal_strlit("2");
        reveal_strlit("3");
        reveal_strlit("4");
        reveal_strlit("5");
        reveal_strlit("6");
        reveal_strlit("7");
        reveal_strlit("8");
        reveal_strlit("9");
    }
    match d {
        0 => "0",
        1 => "1",
        2 => "2",
        3 => "3",
        4 => "4",
        5 => "5",
        6 => "6",
        7 => "7",
        8 => "8",
        _ => "9",
    }
}

/// Appends `n` in decimal to `s`.
fn push_decimal(s: &mut String, n: u16)
    ensures
        final(s)@ == old(s)@ + decimal(n as nat),
    decreases n,
{
    if n >= 10 {
        push_decimal(s, n / 10);
    }
    s.append(digit_str(n % 10));
    assert(s@ =~= old(s)@ + decimal(n as nat));
}

/// The temporary path under `directory` for the counter value `count`:
/// `"<directory>/rustytemp-<count>"`. Nothing on disk is read or written.
pub fn create_temp_path_at_directory(directory: &str, count: u16) -> (r: String)
    ensures
        r@ == temp_path_name(directory@, count as nat),
{
    let mut path = String::from_str(directory);
    path.append("/rustytemp-");
    push_decimal(&mut path, count);
    proof {
        reveal_strlit("/rustytemp-");
        reveal_strlit("rustytemp-");
        assert("/rustytemp-"@ =~= seq!['/'] + "rustytemp-"@);
        assert(path@ =~= temp_path_name(directory@, count as nat));
    }
    path
}

/// Every decimal has at least one digit, and a number of ten or more has two.
proof fn lemma_decimal_len(n: nat)
    ensures
        decimal(n).len() >= 1,
        n >= 10 ==> decimal(n).len() >= 2,
    decreases n,
{
    if n >= 10 {
        lemma_decimal_len(n / 10);
    }
}

/// Distinct numbers have distinct decimals.
pub proof fn lemma_decimal_injective(a: nat, b: nat)
    requires
        decimal(a) == decimal(b),
    ensures
        a == b,
    decreases a,
{
    lemma_decimal_len(a);
    lemma_decimal_len(b);
    if a >= 10 && b >= 10 {
        // The last digits agree, and so do the numbers that precede them.
        assert(decimal(a).drop_last() =~= decimal(a / 10));
        assert(decimal(b).drop_last() =~= decimal(b / 10));
        assert(decimal(a).last() == digit_char(a % 10));
        assert(decimal(b).last() == digit_char(b % 10));
        lemma_decimal_injective(a / 10, b / 10);
    } else if a < 10 && b < 10 {
        assert(decimal(a)[0] == digit_char(a));
        assert(decimal(b)[0] == digit_char(b));
    }
}

/// Under one directory, distinct counter values name distinct paths.
pub proof fn lemma_temp_path_name_injective(directory: Seq<char>, a: nat, b: nat)
    requires
        a != b,
    ensures
        temp_path_name(directory, a) != temp_path_name(directory, b),
{
    if temp_path_name(directory, a) == temp_path_name(directory, b) {
        let prefix = directory + seq!['/'] + "rustytemp-"@;
        assert(temp_path_name(directory, a) =~= prefix + decimal(a));
        assert(temp_path_name(directory, b) =~= prefix + decimal(b));
        assert(decimal(a) =~= temp_path_name(directory, a).subrange(
            prefix.len() as int,
            temp_path_name(directory, a).len() as int,
        ));
        assert(decimal(b) =~= temp_path_name(directory, b).subrange(
            prefix.len() as int,
            temp_path_name(directory, b).len() as int,
        ));
        lemma_decimal_injective(a, b);
    }
}

/// Paths named under one directory by successive calls of a wrapping 16-bit
/// counter are pairwise distinct, as long as fewer than 65536 calls are made:
/// the `i`-th and the `j`-th call after the one that handed out `start` give
/// different paths.
pub proof fn lemma_successive_paths_distinct(directory: Seq<char>, start: u16, i: nat, j: nat)
    requires
        i < j < 0x1_0000,
    ensures
        temp_path_name(directory, count_after(start, i)) != temp_path_name(
            directory,
            count_after(start, j),
        ),
{
    assert(count_after(start, i) != count_after(start, j)) by (nonlinear_arith)
        requires
            i < j < 0x1_0000,
            start < 0x1_0000,
            count_after(start, i) == ((start as nat) + i) % 0x1_0000,
            count_after(start, j) == ((start as nat) + j) % 0x1_0000,
    ;
    lemma_temp_path_name_injective(directory, count_after(start, i), count_after(start, j));
}

} // verus!
