//! Pattern-matching demonstrations: coin values and optional numbers.

use vstd::prelude::*;

verus! {

/// A state a quarter may commemorate.
#[derive(Clone, Copy, Debug, PartialEq, Eq, Structural)]
pub enum USState {
    Alabama,
    Alaska,
}

/// A coin of the till.
#[derive(Clone, Copy, Debug, PartialEq, Eq, Structural)]
pub enum Coin {
    Penny,
    Nickel,
    Dime,
    Quarter(USState),
}

/// The worth of each coin, in cents.
pub open spec fn coin_value(coin: Coin) -> u8 {
    match coin {
        Coin::Penny => 1,
        Coin::Nickel => 5,
        Coin::Dime => 10,
        Coin::Quarter(_) => 25,
    }
}

/// The worth of one coin, in cents.
pub fn value_in_cents(coin: Coin) -> (v: u8)
    ensures
        v == coin_value(coin),
{
    match coin {
        Coin::Penny => 1,
        Coin::Nickel => 5,
        Coin::Dime => 10,
        Coin::Quarter(_) => 25,
    }
}

/// Adds one to a number that may be absent; absence stays absent.
pub fn plus_one(x: Option<i32>) -> (r: Option<i32>)
    requires
        x matches Some(i) ==> i < i32::MAX,
    ensures
        r == match x {
            None => None::<i32>,
            Some(i) => Some((i + 1) as i32),
        },
{
    match x {
        None => None,
        Some(i) => Some(i + 1),
    }
}

} // verus!
