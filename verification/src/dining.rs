//! The restaurant: back-of-house dishes and front-of-house duties.

use vstd::prelude::*;

verus! {

/// A seasonal starter from the back of house.
#[derive(Clone, Copy, Debug, PartialEq, Eq, Structural)]
pub enum Appetiser {
    Soup,
    Salad,
}

/// Orders one of each appetiser: the variants are reachable wherever
/// the enum itself is.
pub fn eat_at_restaurant() {
    let _order1 = Appetiser::Soup;
    let _order2 = Appetiser::Salad;
}

/// A breakfast order; the fruit is chosen by the kitchen alone.
pub struct Breakfast {
    pub toast: String,
    seasonal_fruit: String,
}

impl Breakfast {
    /// The toast the customer asked for.
    pub closed spec fn toast_view(self) -> Seq<char> {
        self.toast@
    }

    /// The fruit the kitchen chose.
    pub closed spec fn fruit_view(self) -> Seq<char> {
        self.seasonal_fruit@
    }

    /// A summer breakfast: the customer picks the toast, the kitchen
    /// serves peach.
    pub fn summer(toast: &str) -> (b: Breakfast)
        ensures
            b.toast_view() == toast@,
            b.fruit_view() == "peach"@,
    {
        Breakfast { toast: toast.to_owned(), seasonal_fruit: "peach".to_owned() }
    }
}

/// Puts a party on the waitlist; the record itself is kept off stage.
pub fn add_to_waitlist() {
}

/// Walks a waiting party to a free table.
pub fn seat_at_table() {
}

/// Writes down what a seated party asks for.
pub fn take_order() {
}

/// Carries a finished order out of the kitchen.
pub fn serve_order() {
}

/// Settles the bill at the end of the meal.
pub fn take_payment() {
}

} // verus!
