use vstd::prelude::*;

verus! {

/// The character of a decimal digit.
pub open spec fn digit_char(d: nat) -> char {
    ((48 + d) as u8) as char
}

/// The decimal numeral of `n`, without sign or leading zeros.
pub open spec fn decimal(n: nat) -> Seq<char>
    decreases n,
{
    if n < 10 {
        seq![digit_char(n)]
    } else {
        decimal(n / 10).push(digit_char(n % 10))
    }
}

/// Relies on `u32`'s `Display`, which writes the decimal numeral.
#[verifier::external_body]
fn decimal_string(n: u32) -> (r: String)
    ensures
        r@ == decimal(n as nat),
{
    n.to_string()
}

pub fn get_users() -> (r: &'static str)
    ensures
        r@ == "Get all users"@,
{
    "Get all users"
}

pub fn create_user() -> (r: &'static str)
    ensures
        r@ == "Create a user"@,
{
    "Create a user"
}

pub fn get_user(id: u32) -> (r: String)
    ensures
        r@ == "Get user with ID: "@ + decimal(id as nat),
{
    let mut s = String::from_str("Get user with ID: ");
    s.append(decimal_string(id).as_str());
    s
}

pub fn delete_user(id: u32) -> (r: String)
    ensures
        r@ == "Delete user with ID: "@ + decimal(id as nat),
{
    let mut s = String::from_str("Delete user with ID: ");
    s.append(decimal_string(id).as_str());
    s
}

} // verus!
