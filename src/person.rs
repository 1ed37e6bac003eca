use vstd::prelude::*;
use vstd::string::StringExecFns;
use crate::text::{nat_text, push_decimal};

verus! {

/// A person: a name and an age in years.
#[derive(Debug)]
pub struct Person {
    pub name: String,
    pub age: u32,
}

/// Something that can give a human-readable label of itself.
pub trait Describable {
    fn describe(&self) -> String;
}

/// The label of a person: the name, the honorific, then the age in full-width parentheses.
pub open spec fn person_label(name: Seq<char>, age: nat) -> Seq<char> {
    name + "さん（"@ + nat_text(age) + "歳）"@
}

/// A person's label starts with the exact name, and right after the honorific
/// and the opening parenthesis it holds the exact decimal age.
pub proof fn label_embeds_name_and_age(name: Seq<char>, age: nat)
    ensures
        person_label(name, age).subrange(0, name.len() as int) == name,
        person_label(name, age).subrange(
            name.len() + 3 as int,
            name.len() + 3 + nat_text(age).len() as int,
        ) == nat_text(age),
{
    reveal_strlit("さん（");
    let l = person_label(name, age);
    assert(l.subrange(0, name.len() as int) =~= name);
    assert(l.subrange(name.len() + 3 as int, name.len() + 3 + nat_text(age).len() as int) =~= nat_text(age));
}

impl Person {
    pub fn new(name: String, age: u32) -> (r: Person)
        ensures
            r.name@ == name@,
            r.age == age,
    {
        Person { name, age }
    }
}

impl Describable for Person {
    fn describe(&self) -> (r: String)
        ensures
            r@ == person_label(self.name@, self.age as nat),
    {
        let mut s = self.name.clone();
        s.append("さん（");
        push_decimal(&mut s, self.age);
        s.append("歳）");
        s
    }
}

} // verus!
