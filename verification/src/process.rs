//! The process id of the master, and numbers in decimal.
use vstd::prelude::*;
use vstd::string::StringExecFns;

verus! {

/// `nix::unistd::getpid`: the id of this process. Of its value nothing is claimed.
#[verifier::external_body]
fn current_pid() -> (pid: i32) {
    nix::unistd::getpid().into()
}

/// `pid` is an id that the system gives this process when asked for it.
pub closed spec fn is_own_pid(pid: i32) -> bool {
    call_ensures(current_pid, (), pid)
}

/// The id of this process, as the system gives it.
pub fn own_pid() -> (pid: i32)
    ensures
        is_own_pid(pid),
{
    current_pid()
}

/// What passes for an id of this process is what the system was asked for and gave.
proof fn own_pid_comes_from_the_system(pid: i32)
    ensures
        is_own_pid(pid) <==> call_ensures(current_pid, (), pid),
{
}

/// The decimal digit of a number below ten.
pub open spec fn digit(d: nat) -> char {
    ('0' as nat + d) as char
}

/// `n` in decimal, without leading zeros.
pub open spec fn decimal_nat(n: nat) -> Seq<char>
    decreases n,
{
    if n < 10 {
        seq![digit(n)]
    } else {
        decimal_nat(n / 10).push(digit(n % 10))
    }
}

/// `n` in decimal, with a minus sign in front where it is negative.
pub open spec fn decimal(n: int) -> Seq<char> {
    if n < 0 {
        seq!['-'] + decimal_nat((-n) as nat)
    } else {
        decimal_nat(n as nat)
    }
}

/// The number that decimal digits stand for, the most significant one first.
pub open spec fn number(digits: Seq<char>) -> int {
    digits.fold_left(0int, |high: int, low: char| high * 10 + (low as int - '0' as int))
}

/// `digits` are decimal digits, the first of them not a zero unless it is the only one.
pub open spec fn is_numeral(digits: Seq<char>) -> bool {
    &&& digits.len() > 0
    &&& forall|i: int| 0 <= i < digits.len() ==> '0' <= #[trigger] digits[i] <= '9'
    &&& digits[0] == '0' ==> digits.len() == 1
}

/// `text` is how `n` is written: its digits, after a minus sign where it is negative.
pub open spec fn reads_as(text: Seq<char>, n: int) -> bool {
    if n < 0 {
        text.len() > 0 && text[0] == '-' && is_numeral(text.skip(1)) && number(text.skip(1)) == -n
    } else {
        is_numeral(text) && number(text) == n
    }
}

/// The digit of `d`.
fn digit_str(d: u32) -> (s: &'static str)
    requires
        d < 10,
    ensures
        s@ == seq![digit(d as nat)],
{
    proof {
        reveal_strlit("0");
        reveal_strlit("1");
        reveal_strlit("2");
        reveal_strlit("3");
        reveal_strlit("4");
        reveal_strlit("5");
        reveal_strlit("6");
        reveal_strlit("7");
        reveal_strlit("8");
        reveal_strlit("9");
    }
    match d {
        0 => "0",
        1 => "1",
        2 => "2",
        3 => "3",
        4 => "4",
        5 => "5",
        6 => "6",
        7 => "7",
        8 => "8",
        _ => "9",
    }
}

/// `n` in decimal.
fn nat_to_decimal(n: u32) -> (s: String)
    ensures
        s@ == decimal_nat(n as nat),
    decreases n,
{
    if n < 10 {
        digit_str(n).to_owned()
    } else {
        let s = nat_to_decimal(n / 10).concat(digit_str(n % 10));
        assert(s@ =~= decimal_nat(n as nat));
        s
    }
}

/// `n` in decimal.
pub fn to_decimal(n: i32) -> (s: String)
    ensures
        s@ == decimal(n as int),
        reads_as(s@, n as int),
{
    proof {
        decimal_reads_as(n as int);
    }
    if n < 0 {
        proof {
            reveal_strlit("-");
        }
        let magnitude: u32 = (-(n as i64)) as u32;
        let s = "-".to_owned().concat(nat_to_decimal(magnitude).as_str());
        assert(s@ =~= decimal(n as int));
        s
    } else {
        nat_to_decimal(n as u32)
    }
}

proof fn lemma_decimal_nat_reads_as(n: nat)
    ensures
        is_numeral(decimal_nat(n)),
        number(decimal_nat(n)) == n,
        decimal_nat(n)[0] == '0' ==> n == 0,
    decreases n,
{
    let digits = decimal_nat(n);
    reveal_with_fuel(Seq::fold_left, 2);
    if n >= 10 {
        lemma_decimal_nat_reads_as(n / 10);
        assert(digits.drop_last() =~= decimal_nat(n / 10));
        assert(digits.last() == digit(n % 10));
    } else {
        assert(digits.drop_last() =~= Seq::<char>::empty());
    }
}

/// A digit behind others makes ten times their number, and its own value more.
pub proof fn digit_adds_to_ten_times_the_number(digits: Seq<char>, low: char)
    ensures
        number(Seq::empty()) == 0,
        number(digits.push(low)) == 10 * number(digits) + (low as int - '0' as int),
{
    reveal_with_fuel(Seq::fold_left, 2);
    assert(digits.push(low).drop_last() =~= digits);
}

/// A number is written so that it can be read back: the digits of its decimal form,
/// each ten times the weight of the next, add up to it.
pub proof fn decimal_reads_as(n: int)
    ensures
        reads_as(decimal(n), n),
{
    lemma_decimal_nat_reads_as(if n < 0 { (-n) as nat } else { n as nat });
    if n < 0 {
        assert(decimal(n).skip(1) =~= decimal_nat((-n) as nat));
    }
}

proof fn lemma_decimal_nat_injective(m: nat, n: nat)
    requires
        decimal_nat(m) == decimal_nat(n),
    ensures
        m == n,
    decreases m,
{
    lemma_decimal_nat_starts_with_digit(m);
    lemma_decimal_nat_starts_with_digit(n);
    assert(decimal_nat(m).last() == digit(m % 10));
    assert(decimal_nat(n).last() == digit(n % 10));
    if m >= 10 && n >= 10 {
        assert(decimal_nat(m).drop_last() =~= decimal_nat(m / 10));
        assert(decimal_nat(n).drop_last() =~= decimal_nat(n / 10));
        lemma_decimal_nat_injective(m / 10, n / 10);
    } else if m >= 10 {
        lemma_decimal_nat_starts_with_digit(m / 10);
    } else if n >= 10 {
        lemma_decimal_nat_starts_with_digit(n / 10);
    }
}

proof fn lemma_decimal_nat_starts_with_digit(n: nat)
    ensures
        decimal_nat(n).len() > 0,
        decimal_nat(n)[0] != '-',
    decreases n,
{
    if n >= 10 {
        lemma_decimal_nat_starts_with_digit(n / 10);
    }
}

/// Two numbers are written alike only if they are the same.
pub proof fn decimal_tells_apart(m: int, n: int)
    requires
        decimal(m) == decimal(n),
    ensures
        m == n,
{
    lemma_decimal_nat_starts_with_digit(if m < 0 { (-m) as nat } else { m as nat });
    lemma_decimal_nat_starts_with_digit(if n < 0 { (-n) as nat } else { n as nat });
    assert(m < 0 <==> decimal(m)[0] == '-');
    assert(n < 0 <==> decimal(n)[0] == '-');
    if m < 0 {
        assert(decimal(m).skip(1) =~= decimal_nat((-m) as nat));
        assert(decimal(n).skip(1) =~= decimal_nat((-n) as nat));
        lemma_decimal_nat_injective((-m) as nat, (-n) as nat);
    } else {
        lemma_decimal_nat_injective(m as nat, n as nat);
    }
}

} // verus!
