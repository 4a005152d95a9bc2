//! Rectangles, boxes and sized objects, with the text that describes them.

use vstd::prelude::*;
use vstd::string::*;
use crate::text::{decimal, decimal_string};

verus! {

/// `prefix`, then `a`, then `middle`, then `b`, all in decimal where numbers.
pub open spec fn pair_text(prefix: Seq<char>, a: nat, middle: Seq<char>, b: nat) -> Seq<char> {
    prefix + decimal(a) + middle + decimal(b)
}

fn render_pair(prefix: &str, a: u64, middle: &str, b: u64) -> (r: String)
    ensures
        r@ == pair_text(prefix@, a as nat, middle@, b as nat),
{
    let mut out = String::from_str(prefix);
    let first = decimal_string(a);
    out.append(first.as_str());
    out.append(middle);
    let second = decimal_string(b);
    out.append(second.as_str());
    out
}

#[derive(Debug)]
pub struct Rectangle {
    pub width: u32,
    pub height: u32,
}

impl Rectangle {
    /// Whether the rectangle is a square.
    pub fn is_square(&self) -> (r: bool)
        ensures
            r == (self.height == self.width),
    {
        if self.height == self.width {
            true
        } else {
            false
        }
    }

    /// `Rectangle : <width> x <height>`.
    pub fn description(&self) -> (r: String)
        ensures
            r@ == pair_text(
                "Rectangle : "@,
                self.width as nat,
                " x "@,
                self.height as nat,
            ),
    {
        render_pair("Rectangle : ", self.width as u64, " x ", self.height as u64)
    }
}

pub struct MyBox {
    pub width: u32,
    pub height: u32,
}

impl MyBox {
    /// Whether the box is square.
    pub fn is_square(&self) -> (r: bool)
        ensures
            r == (self.width == self.height),
    {
        self.width == self.height
    }
}

/// An object with a width and a height whose area is computed.
pub struct MyObject {
    pub width: u32,
    pub height: u32,
}

impl MyObject {
    pub fn new_object(width: u32, height: u32) -> (r: MyObject)
        ensures
            r.width == width,
            r.height == height,
    {
        MyObject { width, height }
    }

    /// The area, for an object whose area fits in a `u32`.
    pub fn calculate_area(&self) -> (r: u32)
        requires
            self.width * self.height <= u32::MAX,
        ensures
            r == self.width * self.height,
    {
        self.width * self.height
    }

    /// `Area of the specified object with dimensions <w> x <h> => <area>`.
    pub fn show(&self) -> (r: String)
        requires
            self.width * self.height <= u32::MAX,
        ensures
            r@ == pair_text(
                "Area of the specified object with dimensions "@,
                self.width as nat,
                " x "@,
                self.height as nat,
            ) + " => "@ + decimal((self.width * self.height) as nat),
    {
        let mut out = render_pair(
            "Area of the specified object with dimensions ",
            self.width as u64,
            " x ",
            self.height as u64,
        );
        out.append(" => ");
        let area = decimal_string(self.calculate_area() as u64);
        out.append(area.as_str());
        out
    }
}

/// A colour given by its red, green and blue components.
pub struct Color {
    pub red: u8,
    pub green: u8,
    pub blue: u8,
}

/// The same colour as an unnamed triple.
pub struct TupleColor(pub u8, pub u8, pub u8);

/// `color values are : <red>, <green>, <blue>`.
pub fn color_text(c: &Color) -> (r: String)
    ensures
        r@ == pair_text("color values are : "@, c.red as nat, ", "@, c.green as nat) + ", "@
            + decimal(c.blue as nat),
{
    let mut out = render_pair("color values are : ", c.red as u64, ", ", c.green as u64);
    out.append(", ");
    let blue = decimal_string(c.blue as u64);
    out.append(blue.as_str());
    out
}

} // verus!
