use vstd::prelude::*;

verus! {

/// The two versions of IP address.
#[derive(Debug, Clone, Copy, PartialEq, Eq, Structural)]
pub enum IpAddrKind {
    V4,
    V6,
}

/// An IP address with its data held in the variant.
pub enum IpAddr {
    V4(u8, u8, u8, u8),
    V6(String),
}

impl IpAddrKind {
    /// A method on an enum; it does nothing.
    pub fn who_am_i(&self) {
    }
}

/// A US state, as printed on the back of a state quarter.
#[derive(Debug, Clone, Copy, PartialEq, Eq, Structural)]
pub enum State {
    Pennsylvania,
}

/// A US coin.
#[derive(Debug, Clone, Copy, PartialEq, Eq, Structural)]
pub enum Coin {
    Penny,
    Nickel,
    Dime,
    Quarter(State),
}

impl Coin {
    /// What the coin is worth, in cents.
    pub open spec fn cents(self) -> u8 {
        match self {
            Coin::Penny => 1,
            Coin::Nickel => 5,
            Coin::Dime => 10,
            Coin::Quarter(_) => 25,
        }
    }
}

/// The value of `coin` in cents.
pub fn value_in_cents(coin: Coin) -> (r: u8)
    ensures
        r == coin.cents(),
{
    match coin {
        Coin::Penny => 1,
        Coin::Nickel => 5,
        Coin::Dime => 10,
        Coin::Quarter(_) => 25,
    }
}

} // verus!
