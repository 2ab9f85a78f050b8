//! What an invocation hands back to the host: effects to issue and attributes to report.
use vstd::prelude::*;

verus! {

/// An amount of one denomination.
#[derive(Debug, Clone)]
pub struct Coin {
    pub denom: String,
    pub amount: u128,
}

/// An effect that an actor hands to the host to carry out after the call.
#[derive(Debug, Clone)]
pub enum CosmosMsg {
    /// Moves `amount` from the issuing account to `to_address`.
    BankSend { to_address: String, amount: Vec<Coin> },
    /// Creates a new actor from the stored code `code_id`, with an empty
    /// initialization payload, no funds and no admin.
    Instantiate { code_id: u64, label: String },
}

/// When the host calls the issuer back with the result of a sub-message.
#[derive(Debug, Clone, Copy, PartialEq, Eq, Structural)]
pub enum ReplyOn {
    Never,
    Success,
}

/// An effect tagged with the correlation identifier its callback will carry.
#[derive(Debug, Clone)]
pub struct SubMsg {
    pub id: u64,
    pub msg: CosmosMsg,
    pub reply_on: ReplyOn,
}

/// A key and value reported with a response.
#[derive(Debug, Clone)]
pub struct Attribute {
    pub key: String,
    pub value: String,
}

/// What an invocation hands back to the host: effects to issue and attributes to report.
#[derive(Debug, Clone)]
pub struct Response {
    pub messages: Vec<SubMsg>,
    pub attributes: Vec<Attribute>,
}

pub open spec fn attribute_is(a: Attribute, key: Seq<char>, value: Seq<char>) -> bool {
    a.key@ == key && a.value@ == value
}

/// The characters of `d`, a digit below ten.
pub open spec fn digit_char(d: nat) -> char {
    seq!['0', '1', '2', '3', '4', '5', '6', '7', '8', '9'][d as int]
}

/// The decimal notation of `n`, without sign or leading zeros.
pub open spec fn decimal(n: nat) -> Seq<char>
    decreases n,
{
    if n < 10 {
        seq![digit_char(n)]
    } else {
        decimal(n / 10).push(digit_char(n % 10))
    }
}

/// Relies on `u128::to_string` (through `Display`): plain decimal digits.
#[verifier::external_body]
pub(crate) fn decimal_string(n: u128) -> (r: String)
    ensures
        r@ == decimal(n as nat),
{
    n.to_string()
}

/// How a coin is written in an attribute: its amount in decimal, then its denomination.
pub open spec fn coin_text(c: Coin) -> Seq<char> {
    decimal(c.amount as nat) + c.denom@
}

/// How a list of coins is written in an attribute: each coin as `coin_text`,
/// separated by commas; the empty list is written as nothing.
pub open spec fn coins_text(cs: Seq<Coin>) -> Seq<char>
    decreases cs.len(),
{
    if cs.len() == 0 {
        Seq::empty()
    } else if cs.len() == 1 {
        coin_text(cs[0])
    } else {
        coins_text(cs.drop_last()) + seq![','] + coin_text(cs.last())
    }
}

/// Writes `coins` as `coins_text` does.
pub fn coins_string(coins: &Vec<Coin>) -> (r: String)
    ensures
        r@ == coins_text(coins@),
{
    let mut out = String::new();
    let mut i: usize = 0;
    while i < coins.len()
        invariant
            i <= coins@.len(),
            out@ == coins_text(coins@.subrange(0, i as int)),
        decreases coins@.len() - i,
    {
        let ghost before = coins@.subrange(0, i as int);
        let ghost after = coins@.subrange(0, i + 1);
        proof {
            assert(after.drop_last() =~= before);
            assert(after.last() == coins@[i as int]);
        }
        if i > 0 {
            out.append(",");
        }
        let amount = decimal_string(coins[i].amount);
        out.append(amount.as_str());
        out.append(coins[i].denom.as_str());
        proof {
            reveal_strlit(",");
            if i == 0 {
                assert(before.len() == 0);
                assert(out@ =~= coin_text(after[0]));
            } else {
                assert(out@ =~= coins_text(before) + seq![','] + coin_text(after.last()));
            }
        }
        i = i + 1;
    }
    proof {
        assert(coins@.subrange(0, coins@.len() as int) =~= coins@);
    }
    out
}

/// A response with no effects and no attributes.
pub fn empty_response() -> (r: Response)
    ensures
        r.messages@.len() == 0,
        r.attributes@.len() == 0,
{
    Response { messages: Vec::new(), attributes: Vec::new() }
}

/// A key and a value, the key taken from a literal.
pub fn attribute(key: &str, value: String) -> (r: Attribute)
    ensures
        r.key@ == key@,
        r.value@ == value@,
{
    Attribute { key: key.to_owned(), value }
}

} // verus!
