//! Memos attached to the ledger mints, so that each mint names its reserve
//! (and its idempotency key, for manual top-ups).
use vstd::prelude::*;

verus! {

/// The character of a decimal digit.
pub open spec fn digit_char(d: nat) -> char {
    (48 + d) as char
}

/// Decimal representation of a number, without leading zeros.
pub open spec fn decimal(n: nat) -> Seq<char>
    decreases n,
{
    if n < 10 {
        seq![digit_char(n)]
    } else {
        decimal(n / 10).push(digit_char(n % 10))
    }
}

fn digit_str(d: u64) -> (s: &'static str)
    requires
        d < 10,
    ensures
        s@ == seq![digit_char(d as nat)],
{
    proof {
        reveal_strlit("0");
        reveal_strlit("1");
        reveal_strlit("2");
        reveal_strlit("3");
        reveal_strlit("4");
        reveal_strlit("5");
        reveal_strlit("6");
        reveal_strlit("7");
        reveal_strlit("8");
        reveal_strlit("9");
    }
    if d == 0 {
        "0"
    } else if d == 1 {
        "1"
    } else if d == 2 {
        "2"
    } else if d == 3 {
        "3"
    } else if d == 4 {
        "4"
    } else if d == 5 {
        "5"
    } else if d == 6 {
        "6"
    } else if d == 7 {
        "7"
    } else if d == 8 {
        "8"
    } else {
        "9"
    }
}

/// Appends the decimal representation of `n`.
pub fn push_decimal(out: &mut String, n: u64)
    ensures
        final(out)@ == old(out)@ + decimal(n as nat),
    decreases n,
{
    if n >= 10 {
        push_decimal(out, n / 10);
    }
    out.append(digit_str(n % 10));
    assert(final(out)@ =~= old(out)@ + decimal(n as nat));
}

/// Memo of a rebalance mint: `rebalance:<id>`.
pub fn rebalance_memo(reserve_id: u64) -> (r: String)
    ensures
        r@ == "rebalance:"@ + decimal(reserve_id as nat),
{
    let mut memo = String::from_str("rebalance:");
    push_decimal(&mut memo, reserve_id);
    memo
}

/// Memo of a manual top-up mint: `topup:<id>`, or `topup:<id>:<key>` with
/// an idempotency key.
pub fn topup_memo(reserve_id: u64, idempotency_key: Option<&str>) -> (r: String)
    ensures
        r@ == "topup:"@ + decimal(reserve_id as nat) + match idempotency_key {
            Some(k) => ":"@ + k@,
            None => Seq::empty(),
        },
{
    let mut memo = String::from_str("topup:");
    push_decimal(&mut memo, reserve_id);
    let ghost base = memo@;
    if let Some(k) = idempotency_key {
        memo.append(":");
        memo.append(k);
        assert(memo@ =~= base + (":"@ + k@));
    } else {
        assert(memo@ =~= base + Seq::<char>::empty());
    }
    memo
}

} // verus!
