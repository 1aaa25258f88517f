//! The authorization payload: the text that the owner signs to release funds.

use vstd::prelude::*;
use vstd::string::StringExecFns;

verus! {

/// The character of one decimal digit.
pub open spec fn digit_char(d: nat) -> char {
    if d == 0 {
        '0'
    } else if d == 1 {
        '1'
    } else if d == 2 {
        '2'
    } else if d == 3 {
        '3'
    } else if d == 4 {
        '4'
    } else if d == 5 {
        '5'
    } else if d == 6 {
        '6'
    } else if d == 7 {
        '7'
    } else if d == 8 {
        '8'
    } else {
        '9'
    }
}

/// The decimal text of a number: no sign, no padding, `0` for zero.
pub open spec fn decimal_text(n: nat) -> Seq<char>
    decreases n,
{
    if n < 10 {
        seq![digit_char(n)]
    } else {
        decimal_text(n / 10).push(digit_char(n % 10))
    }
}

/// The payload for one withdrawal: recipient, amount and the caller's current
/// nonce, joined by `|`.
pub open spec fn payload_text(recipient: Seq<char>, amount: u128, nonce: u64) -> Seq<char> {
    recipient + seq!['|'] + decimal_text(amount as nat) + seq!['|'] + decimal_text(nonce as nat)
}

/// Decimal text is never empty.
pub proof fn lemma_decimal_nonempty(n: nat)
    ensures
        decimal_text(n).len() >= 1,
    decreases n,
{
    if n >= 10 {
        lemma_decimal_nonempty(n / 10);
    }
}

/// Different numbers have different decimal texts.
pub proof fn lemma_decimal_injective(a: nat, b: nat)
    requires
        decimal_text(a) == decimal_text(b),
    ensures
        a == b,
    decreases a,
{
    if a < 10 && b < 10 {
        assert(decimal_text(a)[0] == digit_char(a));
        assert(decimal_text(b)[0] == digit_char(b));
    } else if a < 10 {
        lemma_decimal_nonempty(b / 10);
    } else if b < 10 {
        lemma_decimal_nonempty(a / 10);
    } else {
        let x = decimal_text(a / 10);
        let y = decimal_text(b / 10);
        assert(x.push(digit_char(a % 10)).drop_last() =~= x);
        assert(y.push(digit_char(b % 10)).drop_last() =~= y);
        assert(x.push(digit_char(a % 10)).last() == digit_char(a % 10));
        assert(y.push(digit_char(b % 10)).last() == digit_char(b % 10));
        lemma_decimal_injective(a / 10, b / 10);
    }
}

/// Decimal text holds no separator.
pub proof fn lemma_decimal_has_no_separator(n: nat)
    ensures
        forall|i: int| 0 <= i < decimal_text(n).len() ==> decimal_text(n)[i] != '|',
    decreases n,
{
    let text = decimal_text(n);
    if n >= 10 {
        lemma_decimal_has_no_separator(n / 10);
        let front = decimal_text(n / 10);
        assert forall|i: int| 0 <= i < text.len() implies text[i] != '|' by {
            if i < front.len() {
                assert(text[i] == front[i]);
            } else {
                assert(text[i] == digit_char(n % 10));
            }
        }
    } else {
        assert(text[0] == digit_char(n));
    }
}

/// A text that ends in a separator and a part without separators can be
/// taken apart in one way only.
proof fn lemma_last_separator_is_unique(
    head: Seq<char>,
    tail: Seq<char>,
    other_head: Seq<char>,
    other_tail: Seq<char>,
)
    requires
        head + seq!['|'] + tail == other_head + seq!['|'] + other_tail,
        forall|i: int| 0 <= i < tail.len() ==> tail[i] != '|',
        forall|i: int| 0 <= i < other_tail.len() ==> other_tail[i] != '|',
    ensures
        head == other_head,
        tail == other_tail,
{
    let whole = head + seq!['|'] + tail;
    let other = other_head + seq!['|'] + other_tail;
    assert(whole.len() == head.len() + 1 + tail.len());
    assert(other.len() == other_head.len() + 1 + other_tail.len());
    if tail.len() < other_tail.len() {
        let k = head.len() as int;
        assert(whole[k] == '|');
        assert(other[k] == other_tail[k - other_head.len() - 1]);
        assert(false);
    }
    if other_tail.len() < tail.len() {
        let k = other_head.len() as int;
        assert(other[k] == '|');
        assert(whole[k] == tail[k - head.len() - 1]);
        assert(false);
    }
    assert(head =~= whole.subrange(0, head.len() as int));
    assert(other_head =~= other.subrange(0, other_head.len() as int));
    assert(tail =~= whole.subrange(head.len() as int + 1, whole.len() as int));
    assert(other_tail =~= other.subrange(other_head.len() as int + 1, other.len() as int));
}

/// A payload stands for one request only: equal payloads have the same
/// recipient, the same amount and the same nonce, whatever the recipient's
/// text holds.
pub proof fn lemma_payload_injective(
    recipient: Seq<char>,
    amount: u128,
    nonce: u64,
    other_recipient: Seq<char>,
    other_amount: u128,
    other_nonce: u64,
)
    requires
        payload_text(recipient, amount, nonce) == payload_text(
            other_recipient,
            other_amount,
            other_nonce,
        ),
    ensures
        recipient == other_recipient,
        amount == other_amount,
        nonce == other_nonce,
{
    lemma_decimal_has_no_separator(amount as nat);
    lemma_decimal_has_no_separator(nonce as nat);
    lemma_decimal_has_no_separator(other_amount as nat);
    lemma_decimal_has_no_separator(other_nonce as nat);
    lemma_last_separator_is_unique(
        recipient + seq!['|'] + decimal_text(amount as nat),
        decimal_text(nonce as nat),
        other_recipient + seq!['|'] + decimal_text(other_amount as nat),
        decimal_text(other_nonce as nat),
    );
    lemma_last_separator_is_unique(
        recipient,
        decimal_text(amount as nat),
        other_recipient,
        decimal_text(other_amount as nat),
    );
    lemma_decimal_injective(amount as nat, other_amount as nat);
    lemma_decimal_injective(nonce as nat, other_nonce as nat);
}

/// Payloads for the same recipient and amount under different nonces differ:
/// a signature over the payload of one nonce is not a signature over the
/// payload of the next.
pub proof fn lemma_payload_binds_nonce(
    recipient: Seq<char>,
    amount: u128,
    first: u64,
    second: u64,
)
    requires
        first != second,
    ensures
        payload_text(recipient, amount, first) != payload_text(recipient, amount, second),
{
    let head = recipient + seq!['|'] + decimal_text(amount as nat) + seq!['|'];
    let p = payload_text(recipient, amount, first);
    let q = payload_text(recipient, amount, second);
    if p == q {
        assert(p.subrange(head.len() as int, p.len() as int) =~= decimal_text(first as nat));
        assert(q.subrange(head.len() as int, q.len() as int) =~= decimal_text(second as nat));
        lemma_decimal_injective(first as nat, second as nat);
    }
}

fn digit_str(d: u8) -> (s: &'static str)
    requires
        d < 10,
    ensures
        s@ == seq![digit_char(d as nat)],
{
    proof {
        reveal_strlit("0");
        reveal_strlit("1");
        reveal_strlit("2");
        reveal_strlit("3");
        reveal_strlit("4");
        reveal_strlit("5");
        reveal_strlit("6");
        reveal_strlit("7");
        reveal_strlit("8");
        reveal_strlit("9");
    }
    let s: &'static str = match d {
        0 => "0",
        1 => "1",
        2 => "2",
        3 => "3",
        4 => "4",
        5 => "5",
        6 => "6",
        7 => "7",
        8 => "8",
        _ => "9",
    };
    assert(s@ =~= seq![digit_char(d as nat)]);
    s
}

/// Writes `n` in decimal.
pub fn decimal_string(n: u128) -> (s: String)
    ensures
        s@ == decimal_text(n as nat),
    decreases n,
{
    if n < 10 {
        String::from_str(digit_str(n as u8))
    } else {
        let mut s: String = decimal_string(n / 10);
        s.append(digit_str((n % 10) as u8));
        s
    }
}

/// Builds the payload that authorizes sending `amount` to `recipient` while
/// the caller's nonce is `nonce`.
pub fn build_payload(recipient: &str, amount: u128, nonce: u64) -> (payload: String)
    ensures
        payload@ == payload_text(recipient@, amount, nonce),
{
    proof {
        reveal_strlit("|");
    }
    let mut payload: String = String::from_str(recipient);
    payload.append("|");
    let amount_text: String = decimal_string(amount);
    payload.append(amount_text.as_str());
    payload.append("|");
    let nonce_text: String = decimal_string(nonce as u128);
    payload.append(nonce_text.as_str());
    assert("|"@ =~= seq!['|']);
    payload
}

} // verus!
