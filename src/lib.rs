//! Small verified building blocks: shapes, people, number helpers, days and
//! directions, regular-expression search, and the text each of them renders.

pub mod text;
pub mod people;
pub mod numbers;
pub mod shapes;
pub mod calendar;
pub mod pattern;
