//! People, what they do, and what is said about them.

use vstd::prelude::*;
use vstd::string::*;
use crate::text::{decimal, decimal_string, same_text};

verus! {

/// The occupation on record for a name, if any.
pub open spec fn occupation_of(name: Seq<char>) -> Option<Seq<char>> {
    if name == "giridhar"@ {
        Some("software developer"@)
    } else if name == "linus"@ {
        Some("linux kernel developer"@)
    } else {
        None
    }
}

/// Looks up the occupation on record for `name`.
pub fn get_occupation(name: &str) -> (r: Option<&'static str>)
    ensures
        match r {
            Some(s) => occupation_of(name@) == Some(s@),
            None => occupation_of(name@) is None,
        },
{
    if same_text(name, "giridhar") {
        Some("software developer")
    } else if same_text(name, "linus") {
        Some("linux kernel developer")
    } else {
        None
    }
}

/// The remark made about a name.
pub open spec fn remark_on(name: Seq<char>) -> Seq<char> {
    if name == "linus"@ {
        "he created linux !"@
    } else if name == "giridhar"@ {
        "he is getting better at RUST language"@
    } else if name == "clinton"@ || name == "bush"@ {
        "they were US presidents !"@
    } else {
        "oops : does not match anything"@
    }
}

/// The remark made about `my_name`.
pub fn check(my_name: &str) -> (r: &'static str)
    ensures
        r@ == remark_on(my_name@),
{
    if same_text(my_name, "linus") {
        "he created linux !"
    } else if same_text(my_name, "giridhar") {
        "he is getting better at RUST language"
    } else if same_text(my_name, "clinton") || same_text(my_name, "bush") {
        "they were US presidents !"
    } else {
        "oops : does not match anything"
    }
}

/// A person with a name and an age in years.
pub struct Person {
    pub name: String,
    pub age: u8,
}

impl Person {
    /// The introduction a person gives of themselves.
    pub open spec fn introduction(self) -> Seq<char> {
        "My Name Is "@ + self.name@ + ", & I am "@ + decimal(self.age as nat)
    }

    /// The greeting a person speaks.
    pub open spec fn greeting(self) -> Seq<char> {
        "Hello, my name is "@ + self.name@ + " and my age is "@ + decimal(self.age as nat)
    }

    /// Whether a person of this age can speak: older than two years.
    pub open spec fn speaks(self) -> bool {
        self.age > 2
    }

    /// Renders the introduction.
    pub fn to_string(&self) -> (r: String)
        ensures
            r@ == self.introduction(),
    {
        let mut out = String::from_str("My Name Is ");
        out.append(self.name.as_str());
        out.append(", & I am ");
        let age = decimal_string(self.age as u64);
        out.append(age.as_str());
        out
    }

    /// Renders the greeting.
    pub fn speak(&self) -> (r: String)
        ensures
            r@ == self.greeting(),
    {
        let mut out = String::from_str("Hello, my name is ");
        out.append(self.name.as_str());
        out.append(" and my age is ");
        let age = decimal_string(self.age as u64);
        out.append(age.as_str());
        out
    }

    pub fn can_speak(&self) -> (r: bool)
        ensures
            r == self.speaks(),
    {
        self.age > 2
    }
}

} // verus!
