//! Named text values, as the identity provider stores user attributes and as
//! token claims carry them, and lookups over them.

use vstd::prelude::*;
use crate::text::{clone_text, opt_text, str_eq};

verus! {

/// A named value; `value` is absent when there is no text for the name.
#[derive(Debug, Clone)]
pub struct Attribute {
    pub name: String,
    pub value: Option<String>,
}

impl Attribute {
    /// A copy of this attribute.
    pub fn copy(&self) -> (r: Attribute)
        ensures
            r == *self,
    {
        Attribute { name: self.name.clone(), value: clone_text(&self.value) }
    }

    /// An attribute with a text value.
    pub fn with_text(name: &str, value: String) -> (r: Attribute)
        ensures
            r.name@ == name@,
            r.value == Some(value),
    {
        Attribute { name: name.to_owned(), value: Some(value) }
    }
}

/// The index of the first attribute named `name`, looking from index `i` on.
pub open spec fn first_named_from(attrs: Seq<Attribute>, name: Seq<char>, i: int) -> Option<int>
    decreases attrs.len() - i,
{
    if i < 0 || i >= attrs.len() {
        None
    } else if attrs[i].name@ == name {
        Some(i)
    } else {
        first_named_from(attrs, name, i + 1)
    }
}

/// The index of the first attribute named `name`.
pub open spec fn first_named(attrs: Seq<Attribute>, name: Seq<char>) -> Option<int> {
    first_named_from(attrs, name, 0)
}

/// The text of the first attribute named `name`, if that attribute has one.
pub open spec fn attribute_text(attrs: Seq<Attribute>, name: Seq<char>) -> Option<Seq<char>> {
    match first_named(attrs, name) {
        Some(i) => match attrs[i].value {
            Some(v) => Some(v@),
            None => None,
        },
        None => None,
    }
}

proof fn lemma_first_named_from_facts(attrs: Seq<Attribute>, name: Seq<char>, i: int)
    requires
        0 <= i,
    ensures
        first_named_from(attrs, name, i) matches Some(j) ==> i <= j < attrs.len() && attrs[j].name@ == name,
    decreases attrs.len() - i,
{
    if i < attrs.len() && attrs[i].name@ != name {
        lemma_first_named_from_facts(attrs, name, i + 1);
    }
}

fn first_named_index(attrs: &Vec<Attribute>, name: &str) -> (r: Option<usize>)
    ensures
        r matches Some(i) ==> first_named(attrs@, name@) == Some(i as int),
        r is None ==> first_named(attrs@, name@) is None,
        first_named(attrs@, name@) matches Some(j) ==> 0 <= j < attrs@.len(),
{
    proof {
        lemma_first_named_from_facts(attrs@, name@, 0);
    }
    let mut i: usize = 0;
    while i < attrs.len()
        invariant
            i <= attrs@.len(),
            first_named(attrs@, name@) == first_named_from(attrs@, name@, i as int),
        decreases attrs.len() - i,
    {
        if str_eq(attrs[i].name.as_str(), name) {
            return Some(i);
        }
        i = i + 1;
    }
    None
}

/// The first attribute named `name`, if any.
pub fn get_attribute_with_name(attributes: &Vec<Attribute>, name: &str) -> (r: Option<Attribute>)
    ensures
        first_named(attributes@, name@) matches Some(i) ==> r == Some(attributes@[i]),
        first_named(attributes@, name@) is None ==> r is None,
{
    match first_named_index(attributes, name) {
        Some(i) => Some(attributes[i].copy()),
        None => None,
    }
}

/// The text of the first attribute named `name`, if that attribute has one.
pub fn get_attribute_text(attributes: &Vec<Attribute>, name: &str) -> (r: Option<String>)
    ensures
        r is Some <==> attribute_text(attributes@, name@) is Some,
        r matches Some(t) ==> attribute_text(attributes@, name@) == Some(t@),
{
    match first_named_index(attributes, name) {
        Some(i) => clone_text(&attributes[i].value),
        None => None,
    }
}

/// Whether the attributes carry the six texts that identify a user.
pub open spec fn has_identity(attrs: Seq<Attribute>) -> bool {
    &&& attribute_text(attrs, "sub"@) is Some
    &&& attribute_text(attrs, "given_name"@) is Some
    &&& attribute_text(attrs, "family_name"@) is Some
    &&& attribute_text(attrs, "email"@) is Some
    &&& attribute_text(attrs, "custom:tenantId"@) is Some
    &&& attribute_text(attrs, "custom:userRole"@) is Some
}

/// The six identity texts: subject, given name, family name, email, tenant and role.
pub fn identity_texts(attributes: &Vec<Attribute>) -> (r: Option<(String, String, String, String, String, String)>)
    ensures
        r is Some <==> has_identity(attributes@),
        r matches Some(t) ==> {
            &&& attribute_text(attributes@, "sub"@) == Some(t.0@)
            &&& attribute_text(attributes@, "given_name"@) == Some(t.1@)
            &&& attribute_text(attributes@, "family_name"@) == Some(t.2@)
            &&& attribute_text(attributes@, "email"@) == Some(t.3@)
            &&& attribute_text(attributes@, "custom:tenantId"@) == Some(t.4@)
            &&& attribute_text(attributes@, "custom:userRole"@) == Some(t.5@)
        },
{
    let sub = get_attribute_text(attributes, "sub");
    let given_name = get_attribute_text(attributes, "given_name");
    let family_name = get_attribute_text(attributes, "family_name");
    let email = get_attribute_text(attributes, "email");
    let tenant = get_attribute_text(attributes, "custom:tenantId");
    let role = get_attribute_text(attributes, "custom:userRole");
    match (sub, given_name, family_name, email, tenant, role) {
        (Some(a), Some(b), Some(c), Some(d), Some(e), Some(f)) => Some((a, b, c, d, e, f)),
        _ => None,
    }
}

/// Each attribute as its name and its text.
pub open spec fn attribute_pairs(attrs: Seq<Attribute>) -> Seq<(Seq<char>, Option<Seq<char>>)> {
    attrs.map_values(|a: Attribute| (a.name@, opt_text(a.value)))
}

/// The index of the first pair named `name`, looking from index `i` on.
pub open spec fn first_pair_from(p: Seq<(Seq<char>, Option<Seq<char>>)>, name: Seq<char>, i: int) -> Option<int>
    decreases p.len() - i,
{
    if i < 0 || i >= p.len() {
        None
    } else if p[i].0 == name {
        Some(i)
    } else {
        first_pair_from(p, name, i + 1)
    }
}

/// The text of the first pair named `name`, if that pair has one.
pub open spec fn pair_text(p: Seq<(Seq<char>, Option<Seq<char>>)>, name: Seq<char>) -> Option<Seq<char>> {
    match first_pair_from(p, name, 0) {
        Some(i) => p[i].1,
        None => None,
    }
}

/// Whether named texts carry the six texts that identify a user.
pub open spec fn pairs_identify(p: Seq<(Seq<char>, Option<Seq<char>>)>) -> bool {
    &&& pair_text(p, "sub"@) is Some
    &&& pair_text(p, "given_name"@) is Some
    &&& pair_text(p, "family_name"@) is Some
    &&& pair_text(p, "email"@) is Some
    &&& pair_text(p, "custom:tenantId"@) is Some
    &&& pair_text(p, "custom:userRole"@) is Some
}

proof fn lemma_first_pair_from(attrs: Seq<Attribute>, name: Seq<char>, i: int)
    requires
        0 <= i,
    ensures
        first_named_from(attrs, name, i) == first_pair_from(attribute_pairs(attrs), name, i),
    decreases attrs.len() - i,
{
    if i < attrs.len() && attrs[i].name@ != name {
        lemma_first_pair_from(attrs, name, i + 1);
    }
}

/// Reading a name's text from attributes or from their pairs gives the same.
pub proof fn lemma_pair_text(attrs: Seq<Attribute>, name: Seq<char>)
    ensures
        attribute_text(attrs, name) == pair_text(attribute_pairs(attrs), name),
{
    lemma_first_pair_from(attrs, name, 0);
    lemma_first_named_from_facts(attrs, name, 0);
}

} // verus!
