//! The record of a person and the line with which it introduces itself.

use crate::decimal::{decimal, push_decimal};
use vstd::prelude::*;
use vstd::string::StringExecFns;
use vstd::utf8::encode_utf8;

verus! {

/// What a [`User`] holds, as mathematical values.
pub struct UserView {
    /// The name, character by character. Any text is a name, the empty one too.
    pub name: Seq<char>,
    /// The age in years.
    pub age: nat,
}

impl UserView {
    /// The introduction of this person: one line of text, with the newline
    /// that ends it. The name stands in it as it is, the age as its base-ten
    /// numeral.
    pub open spec fn introduction(self) -> Seq<char> {
        "Hello, my name is "@ + self.name + " and I am "@ + decimal(self.age)
            + " years old.\n"@
    }
}

/// A person: a name and an age. Both are fixed when the record is made and
/// can only be read afterwards.
pub struct User {
    name: String,
    age: u32,
}

impl View for User {
    type V = UserView;

    closed spec fn view(&self) -> UserView {
        UserView { name: self.name@, age: self.age as nat }
    }
}

impl User {
    /// Makes the record of a person called `name` who is `age` years old.
    /// Nothing is checked and nothing is changed: the record holds the two
    /// values exactly as they were given.
    pub fn new(name: String, age: u32) -> (user: User)
        ensures
            user@.name == name@,
            user@.age == age,
    {
        User { name, age }
    }

    /// The name that the record was made with.
    pub fn name(&self) -> (name: &str)
        ensures
            name@ == self@.name,
    {
        self.name.as_str()
    }

    /// The age that the record was made with.
    pub fn age(&self) -> (age: u32)
        ensures
            age == self@.age,
    {
        self.age
    }

    /// The line with which this person introduces themself, ready to be
    /// written out: it ends with its newline. The record is only read.
    pub fn introduce(&self) -> (line: String)
        ensures
            line@ == self@.introduction(),
    {
        let mut line = String::from_str("Hello, my name is ");
        line.append(self.name.as_str());
        line.append(" and I am ");
        push_decimal(&mut line, self.age);
        line.append(" years old.\n");
        line
    }
}

/// The age of every record fits in 32 bits.
pub proof fn lemma_age_fits(user: User)
    ensures
        user@.age <= u32::MAX,
{
}

/// An introduction can be repeated: the record alone fixes the text, so two
/// lines that `introduce` gives for one record agree character for
/// character, and so byte for byte once encoded.
pub proof fn lemma_introduce_repeats(user: User, first: String, second: String)
    requires
        first@ == user@.introduction(),
        second@ == user@.introduction(),
    ensures
        first@ == second@,
        encode_utf8(first@) == encode_utf8(second@),
{
}

} // verus!
