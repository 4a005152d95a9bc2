//! Days of the week and directions of travel.

use vstd::prelude::*;

verus! {

pub enum Day {
    Monday,
    Tuesday,
    Wednesday,
    Thursday,
    Friday,
    Saturday,
    Sunday,
}

impl Day {
    /// Every day but Saturday and Sunday.
    pub open spec fn spec_is_weekday(&self) -> bool {
        !(self is Saturday || self is Sunday)
    }

    pub fn is_weekday(&self) -> (r: bool)
        ensures
            r == self.spec_is_weekday(),
    {
        match self {
            Day::Saturday | Day::Sunday => false,
            _ => true,
        }
    }
}

pub enum Direction {
    Up,
    Down,
    Left,
    Right,
}

impl Direction {
    /// The sentence announcing a heading.
    pub open spec fn heading_text(&self) -> Seq<char> {
        match self {
            Direction::Up => "we are heading up !"@,
            Direction::Down => "we are heading down !"@,
            Direction::Left => "we are heading left !"@,
            Direction::Right => "we are heading right !"@,
        }
    }

    pub fn heading(&self) -> (r: &'static str)
        ensures
            r@ == self.heading_text(),
    {
        match self {
            Direction::Up => "we are heading up !",
            Direction::Down => "we are heading down !",
            Direction::Left => "we are heading left !",
            Direction::Right => "we are heading right !",
        }
    }
}

} // verus!
