//! Account names: the decimal rendering of a pool id, the derived sub-account
//! name and the ledger's account-name syntax.
use vstd::prelude::*;

verus! {

/// The character for a decimal digit `d < 10`.
pub open spec fn digit_char(d: nat) -> char {
    if d == 0 {
        '0'
    } else if d == 1 {
        '1'
    } else if d == 2 {
        '2'
    } else if d == 3 {
        '3'
    } else if d == 4 {
        '4'
    } else if d == 5 {
        '5'
    } else if d == 6 {
        '6'
    } else if d == 7 {
        '7'
    } else if d == 8 {
        '8'
    } else {
        '9'
    }
}

/// The decimal rendering of `n`, most significant digit first, without
/// leading zeros.
pub open spec fn decimal(n: nat) -> Seq<char>
    decreases n,
{
    if n < 10 {
        seq![digit_char(n)]
    } else {
        decimal(n / 10).push(digit_char(n % 10))
    }
}

/// The sub-account of `parent` reserved for pool `pool_id`:
/// `"<pool_id>.<parent>"`.
pub open spec fn subaccount_name(pool_id: u64, parent: Seq<char>) -> Seq<char> {
    decimal(pool_id as nat) + seq!['.'] + parent
}

/// The separators allowed in an account name.
pub open spec fn is_separator(c: char) -> bool {
    c == '-' || c == '_' || c == '.'
}

/// A lower-case ASCII letter or a decimal digit.
pub open spec fn is_alphanumeric_lower(c: char) -> bool {
    ('a' <= c && c <= 'z') || ('0' <= c && c <= '9')
}

/// The ledger's account-name syntax: 2 to 64 characters, each a lower-case
/// letter, a digit or one of `-`, `_`, `.`; neither the first nor the last
/// character a separator, and no two separators next to each other.
pub open spec fn valid_account_name(s: Seq<char>) -> bool {
    &&& 2 <= s.len() <= 64
    &&& forall|i: int| 0 <= i < s.len() ==> #[trigger] is_alphanumeric_lower(s[i]) || is_separator(s[i])
    &&& !is_separator(s[0])
    &&& !is_separator(s[s.len() - 1])
    &&& forall|i: int| 0 <= i < s.len() - 1 ==> !(#[trigger] is_separator(s[i]) && is_separator(s[i + 1]))
}

/// Relies on `near_sdk::env::is_valid_account_id`, which checks the bytes of
/// a name against the account-name syntax. On UTF-8 text it answers as
/// `valid_account_name` does on the characters: a character outside ASCII
/// yields bytes that the check refuses, and on ASCII text bytes and
/// characters coincide.
#[verifier::external_body]
pub(crate) fn is_valid_account_name(s: &str) -> (r: bool)
    ensures
        r == valid_account_name(s@),
{
    near_sdk::env::is_valid_account_id(s.as_bytes())
}

/// The one-character string of the decimal digit `d`.
fn digit_str(d: u64) -> (r: &'static str)
    requires
        d < 10,
    ensures
        r@ == seq![digit_char(d as nat)],
{
    if d == 0 {
        proof { reveal_strlit("0"); }
        assert("0"@ =~= seq!['0']);
        "0"
    } else if d == 1 {
        proof { reveal_strlit("1"); }
        assert("1"@ =~= seq!['1']);
        "1"
    } else if d == 2 {
        proof { reveal_strlit("2"); }
        assert("2"@ =~= seq!['2']);
        "2"
    } else if d == 3 {
        proof { reveal_strlit("3"); }
        assert("3"@ =~= seq!['3']);
        "3"
    } else if d == 4 {
        proof { reveal_strlit("4"); }
        assert("4"@ =~= seq!['4']);
        "4"
    } else if d == 5 {
        proof { reveal_strlit("5"); }
        assert("5"@ =~= seq!['5']);
        "5"
    } else if d == 6 {
        proof { reveal_strlit("6"); }
        assert("6"@ =~= seq!['6']);
        "6"
    } else if d == 7 {
        proof { reveal_strlit("7"); }
        assert("7"@ =~= seq!['7']);
        "7"
    } else if d == 8 {
        proof { reveal_strlit("8"); }
        assert("8"@ =~= seq!['8']);
        "8"
    } else {
        proof { reveal_strlit("9"); }
        assert("9"@ =~= seq!['9']);
        "9"
    }
}

/// The decimal rendering of `n`.
pub fn decimal_string(n: u64) -> (r: String)
    ensures
        r@ == decimal(n as nat),
    decreases n,
{
    if n < 10 {
        String::from_str(digit_str(n))
    } else {
        let mut s = decimal_string(n / 10);
        s.append(digit_str(n % 10));
        s
    }
}

/// The sub-account of `parent` reserved for pool `pool_id`.
pub fn derive_subaccount(pool_id: u64, parent: &str) -> (r: String)
    ensures
        r@ == subaccount_name(pool_id, parent@),
{
    let mut s = decimal_string(pool_id);
    proof { reveal_strlit("."); }
    assert("."@ =~= seq!['.']);
    s.append(".");
    s.append(parent);
    s
}

} // verus!
