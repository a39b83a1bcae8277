//! Descriptions of tools as plain data: a name, a description, and what the
//! parameters look like.

use vstd::prelude::*;

verus! {

/// The shape of one parameter value.
#[derive(Debug)]
pub enum ParameterSchema {
    /// A string.
    Text { description: String },
    /// A number.
    Number { description: String },
    /// A list whose elements all have the shape `items`.
    List { description: String, items: Box<ParameterSchema> },
    /// A record of named properties, some of them required.
    Record { properties: Vec<Property>, required: Vec<String> },
}

/// A named property of a record.
#[derive(Debug)]
pub struct Property {
    pub name: String,
    pub schema: ParameterSchema,
}

/// What an agent is told about a tool.
#[derive(Debug)]
pub struct ToolDefinition {
    pub name: String,
    pub description: String,
    pub parameters: ParameterSchema,
}

/// `property` is a string called `name` with this description.
pub open spec fn is_text_property(
    property: Property,
    name: Seq<char>,
    description: Seq<char>,
) -> bool {
    &&& property.name@ == name
    &&& property.schema matches ParameterSchema::Text { description: d }
    &&& d@ == description
}

/// `property` is a number called `name` with this description.
pub open spec fn is_number_property(
    property: Property,
    name: Seq<char>,
    description: Seq<char>,
) -> bool {
    &&& property.name@ == name
    &&& property.schema matches ParameterSchema::Number { description: d }
    &&& d@ == description
}

/// `names` holds exactly these names, in this order.
pub open spec fn names_are(names: Vec<String>, expected: Seq<Seq<char>>) -> bool {
    names.deep_view() == expected
}

impl Property {
    /// A string property.
    pub fn text(name: &str, description: &str) -> (r: Property)
        ensures
            is_text_property(r, name@, description@),
    {
        Property {
            name: name.to_owned(),
            schema: ParameterSchema::Text { description: description.to_owned() },
        }
    }

    /// A number property.
    pub fn number(name: &str, description: &str) -> (r: Property)
        ensures
            is_number_property(r, name@, description@),
    {
        Property {
            name: name.to_owned(),
            schema: ParameterSchema::Number { description: description.to_owned() },
        }
    }

    /// A list property whose elements have the shape `items`.
    pub fn list(name: &str, description: &str, items: ParameterSchema) -> (r: Property)
        ensures
            r.name@ == name@,
            r.schema matches ParameterSchema::List { description: d, items: i } && d@
                == description@ && *i == items,
    {
        Property {
            name: name.to_owned(),
            schema: ParameterSchema::List {
                description: description.to_owned(),
                items: Box::new(items),
            },
        }
    }
}

/// A list of names from string slices.
pub fn name_list(names: &[&str]) -> (r: Vec<String>)
    ensures
        r@.len() == names@.len(),
        forall|i: int| 0 <= i < names@.len() ==> (#[trigger] r@[i])@ == names@[i]@,
{
    let mut out: Vec<String> = Vec::new();
    let mut i: usize = 0;
    while i < names.len()
        invariant
            i <= names@.len(),
            out@.len() == i,
            forall|j: int| 0 <= j < i ==> (#[trigger] out@[j])@ == names@[j]@,
        decreases names@.len() - i,
    {
        out.push(names[i].to_owned());
        i += 1;
    }
    out
}

} // verus!
