//! Properties: named values attached to elements.

use crate::error::Error;
use crate::error::ErrorView;
use crate::text::lemma_views_empty;
use crate::text::lemma_views_push;
use crate::text::same_text;
use crate::text::views;
use crate::vocabulary::PropertyType;
use crate::vocabulary::property_type_of;
use vstd::prelude::*;

verus! {

/// A named value that a document attaches to one of its elements.
#[derive(Debug, PartialEq, Eq)]
pub struct Property {
    name: String,
    property_type: PropertyType,
    value: String,
}

/// The mathematical value of a [`Property`].
pub struct PropertyView {
    pub name: Seq<char>,
    pub property_type: PropertyType,
    pub value: Seq<char>,
}

impl View for Property {
    type V = PropertyView;

    closed spec fn view(&self) -> PropertyView {
        PropertyView {
            name: self.name@,
            property_type: self.property_type,
            value: self.value@,
        }
    }
}

impl PropertyView {
    /// The value of an element `property` before anything of it is read: every
    /// default in place, nothing attached.
    pub open spec fn fresh() -> PropertyView {
        PropertyView {
            name: Seq::empty(),
            property_type: PropertyType::String,
            value: Seq::empty(),
        }
    }

    /// Whether `name` is an attribute that an element `property` defines.
    pub open spec fn recognizes(name: Seq<char>) -> bool {
        name == "name"@
            || name == "type"@
            || name == "value"@
    }

    /// The value after one more attribute is read. An attribute that the
    /// element does not define is refused by name; a value that cannot be
    /// read is refused with the error of its reader.
    pub open spec fn with_attribute(self, name: Seq<char>, value: Seq<char>) -> Result<
        PropertyView,
        ErrorView,
    > {
        if name == "name"@ {
            Ok(PropertyView { name: value, ..self })
        } else if name == "type"@ {
            Ok(PropertyView { property_type: property_type_of(value), ..self })
        } else if name == "value"@ {
            Ok(PropertyView { value: value, ..self })
        } else {
            Err(ErrorView::UnknownAttribute(name))
        }
    }
}

impl Property {
    /// An element `property` with every default in place and nothing attached.
    pub fn new() -> (fresh: Property)
        ensures
            fresh@ == PropertyView::fresh(),
    {
        Property {
            name: String::new(),
            property_type: PropertyType::String,
            value: String::new(),
        }
    }

    /// The name of the property.
    pub fn name(&self) -> (name: &str)
        ensures
            name@ == self@.name,
    {
        self.name.as_str()
    }

    /// How the value is meant to be read; text, unless the document says
    /// otherwise.
    pub fn property_type(&self) -> (property_type: PropertyType)
        ensures
            property_type == self@.property_type,
    {
        self.property_type
    }

    /// The value, as it was written.
    pub fn value(&self) -> (value: &str)
        ensures
            value@ == self@.value,
    {
        self.value.as_str()
    }

    /// Reads one attribute into the element, as [`PropertyView::with_attribute`]
    /// says. After an error the element is not to be used.
    pub(crate) fn read_attribute(&mut self, name: &str, value: &str) -> (result: Result<
        (),
        Error,
    >)
        ensures
            match old(self)@.with_attribute(name@, value@) {
                Ok(next) => result is Ok && final(self)@ == next,
                Err(e) => result is Err && result->Err_0@ == e,
            },
    {
        if same_text(name, "name") {
            self.name = String::from_str(value);
            Ok(())
        } else if same_text(name, "type") {
            self.property_type = PropertyType::parse(value);
            Ok(())
        } else if same_text(name, "value") {
            self.value = String::from_str(value);
            Ok(())
        } else {
            Err(Error::UnknownAttribute(String::from_str(name)))
        }
    }
}

impl Default for Property {
    fn default() -> (fresh: Property)
        ensures
            fresh@ == PropertyView::fresh(),
    {
        Property::new()
    }
}

/// Where the first property named `name` stands in `items` at or after
/// `from`, or the length of `items` where there is none.
pub open spec fn position(items: Seq<PropertyView>, name: Seq<char>, from: int) -> int
    decreases items.len() - from,
{
    if from < 0 || from >= items.len() {
        items.len() as int
    } else if items[from].name == name {
        from
    } else {
        position(items, name, from + 1)
    }
}

/// Whether no two properties of `items` share a name.
pub open spec fn unique_names(items: Seq<PropertyView>) -> bool {
    forall|i: int, j: int|
        0 <= i < j < items.len() ==> (#[trigger] items[i]).name != (#[trigger] items[j]).name
}

/// The properties after one more is attached: it takes the place of the
/// property of its name, where there is one, and else comes last.
pub open spec fn upsert(items: Seq<PropertyView>, property: PropertyView) -> Seq<PropertyView> {
    let at = position(items, property.name, 0);
    if 0 <= at < items.len() {
        items.update(at, property)
    } else {
        items.push(property)
    }
}

/// What [`position`] finds holds the name, and nothing from `from` up to it
/// does.
pub proof fn lemma_position(items: Seq<PropertyView>, name: Seq<char>, from: int)
    requires
        0 <= from <= items.len(),
    ensures
        from <= position(items, name, from) <= items.len(),
        position(items, name, from) < items.len() ==> items[position(items, name, from)].name
            == name,
        forall|k: int|
            from <= k < position(items, name, from) ==> (#[trigger] items[k]).name != name,
    decreases items.len() - from,
{
    if from < items.len() && items[from].name != name {
        lemma_position(items, name, from + 1);
    }
}

/// Attaching a property keeps the names apart.
pub proof fn lemma_upsert_keeps_names_unique(items: Seq<PropertyView>, property: PropertyView)
    requires
        unique_names(items),
    ensures
        unique_names(upsert(items, property)),
{
    lemma_position(items, property.name, 0);
}

/// The properties of an element: a mapping from names to values that keeps
/// the order in which the names first occurred.
#[derive(Debug, PartialEq, Eq)]
pub struct Properties {
    items: Vec<Property>,
}

impl View for Properties {
    type V = Seq<PropertyView>;

    closed spec fn view(&self) -> Seq<PropertyView> {
        views(self.items@)
    }
}

impl Properties {
    #[verifier::type_invariant]
    spec fn well_formed(&self) -> bool {
        unique_names(views(self.items@))
    }

    /// No properties.
    pub fn new() -> (fresh: Properties)
        ensures
            fresh@ == Seq::<PropertyView>::empty(),
    {
        proof {
            lemma_views_empty::<Property>();
        }
        Properties { items: Vec::new() }
    }

    /// The properties in order. No two of them share a name.
    pub fn items(&self) -> (items: &Vec<Property>)
        ensures
            views(items@) == self@,
            unique_names(self@),
    {
        proof {
            use_type_invariant(self);
        }
        &self.items
    }

    /// How many properties there are.
    pub fn len(&self) -> (len: usize)
        ensures
            len == self@.len(),
    {
        self.items.len()
    }

    /// The property named `name`, if there is one.
    pub fn get(&self, name: &str) -> (found: Option<&Property>)
        ensures
            match found {
                Some(property) => position(self@, name@, 0) < self@.len() && property@
                    == self@[position(self@, name@, 0)],
                None => position(self@, name@, 0) == self@.len(),
            },
    {
        let at = self.find(name);
        if at < self.items.len() {
            Some(&self.items[at])
        } else {
            None
        }
    }

    /// Where the property named `name` stands, or the number of properties
    /// where there is none.
    fn find(&self, name: &str) -> (at: usize)
        ensures
            at == position(self@, name@, 0),
            at <= self@.len(),
            self@.len() == self.items@.len(),
    {
        let mut at: usize = 0;
        while at < self.items.len()
            invariant
                at <= self.items.len(),
                position(self@, name@, at as int) == position(self@, name@, 0),
                self@ == views(self.items@),
            decreases self.items.len() - at,
        {
            if same_text(self.items[at].name(), name) {
                return at;
            }
            at += 1;
        }
        at
    }

    /// Attaches a property, as [`upsert`] says: in the place of the one of
    /// its name, or last.
    pub(crate) fn insert(self, property: Property) -> (next: Properties)
        ensures
            next@ == upsert(self@, property@),
    {
        proof {
            use_type_invariant(&self);
            lemma_upsert_keeps_names_unique(self@, property@);
        }
        let at = self.find(property.name());
        let mut items = self.items;
        if at < items.len() {
            assert(views(items@.update(at as int, property)) =~= views(items@).update(
                at as int,
                property@,
            ));
            items.set(at, property);
        } else {
            proof {
                lemma_views_push(items@, property);
            }
            items.push(property);
        }
        Properties { items }
    }
}

impl Default for Properties {
    fn default() -> (fresh: Properties)
        ensures
            fresh@ == Seq::<PropertyView>::empty(),
    {
        Properties::new()
    }
}

} // verus!
