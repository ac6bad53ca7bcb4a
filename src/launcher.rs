use vstd::prelude::*;

verus! {

/// The decimal digit character for `d` (below ten).
pub open spec fn digit_char(d: nat) -> char {
    seq!['0', '1', '2', '3', '4', '5', '6', '7', '8', '9'][d as int]
}

/// The decimal representation of `n`, without sign or leading zeros.
pub open spec fn decimal(n: nat) -> Seq<char>
    decreases n,
{
    if n < 10 {
        seq![digit_char(n)]
    } else {
        decimal(n / 10).push(digit_char(n % 10))
    }
}

/// Relies on `u32::to_string` (its `Display`): the number in decimal.
#[verifier::external_body]
fn decimal_text(n: u32) -> (r: String)
    ensures
        r@ == decimal(n as nat),
{
    n.to_string()
}

/// The URI that asks the game client to start the game `appid`.
pub open spec fn launch_uri_of(appid: u32) -> Seq<char> {
    "steam://run/"@ + decimal(appid as nat)
}

/// The URI that asks the game client to start the game `appid`:
/// `steam://run/<appid>`.
pub fn launch_uri(appid: u32) -> (r: String)
    ensures
        r@ == launch_uri_of(appid),
{
    let mut uri = String::from_str("steam://run/");
    let digits = decimal_text(appid);
    uri.append(digits.as_str());
    uri
}

} // verus!
