//! The rules by which a host structure is wired to its provider: which of
//! its attributes names the capability trait, what the trait that carries
//! `manage` and `get` is called, and which hosts can hold a provider.

use vstd::prelude::*;

verus! {

/// `name` is the name of the attribute that names the capability trait.
pub open spec fn names_component(name: Seq<char>) -> bool {
    name == "component"@
}

/// The place of the first of `names` that is `component`, if there is one.
/// `names` are the names of a host's attributes, in the order in which they
/// are written.
pub fn component_attribute(names: &Vec<String>) -> (found: Option<usize>)
    ensures
        match found {
            Some(place) => place < names@.len() && names_component(names@[place as int]@)
                && forall|earlier: int|
                0 <= earlier < place ==> !names_component(#[trigger] names@[earlier]@),
            None => forall|place: int|
                0 <= place < names@.len() ==> !names_component(#[trigger] names@[place]@),
        },
{
    let wanted = String::from_str("component");
    let mut place: usize = 0;
    while place < names.len()
        invariant
            place <= names@.len(),
            wanted@ == "component"@,
            forall|earlier: int|
                0 <= earlier < place ==> !names_component(#[trigger] names@[earlier]@),
        decreases names@.len() - place,
    {
        if names[place] == wanted {
            return Some(place);
        }
        place += 1;
    }
    None
}

/// The name of the trait that carries `manage` and `get` for the hosts of
/// the capability trait `capability`.
pub open spec fn provider_trait_text(capability: Seq<char>) -> Seq<char> {
    capability + "AutoProvider"@
}

/// The name of the trait that carries `manage` and `get` for the hosts of
/// the capability trait called `capability`.
pub fn provider_trait_name(capability: &str) -> (name: String)
    ensures
        name@ == provider_trait_text(capability@),
{
    let mut name = String::from_str(capability);
    name.append("AutoProvider");
    name
}

/// What kind of item a host is.
#[derive(Clone, Copy, Debug, PartialEq, Eq, Structural)]
pub enum HostShape {
    /// A structure whose fields have names.
    NamedStruct,
    /// A structure whose fields are numbered.
    TupleStruct,
    /// A structure without fields.
    UnitStruct,
    /// An enumeration.
    Enum,
    /// A union.
    Union,
}

/// What is done to the fields of a host that can be wired.
#[derive(Clone, Copy, Debug, PartialEq, Eq, Structural)]
pub enum FieldPlan {
    /// The provider is added as one more named field.
    AddProviderField,
    /// The fields stay as they are.
    KeepFields,
}

/// What is done to the fields of a host of the shape `shape`; `None` where
/// such a host cannot be wired at all. Only structures can, and of them only
/// one with named fields gets the provider as a field.
pub fn field_plan(shape: HostShape) -> (plan: Option<FieldPlan>)
    ensures
        plan == match shape {
            HostShape::NamedStruct => Some(FieldPlan::AddProviderField),
            HostShape::TupleStruct | HostShape::UnitStruct => Some(FieldPlan::KeepFields),
            HostShape::Enum | HostShape::Union => None::<FieldPlan>,
        },
{
    match shape {
        HostShape::NamedStruct => Some(FieldPlan::AddProviderField),
        HostShape::TupleStruct => Some(FieldPlan::KeepFields),
        HostShape::UnitStruct => Some(FieldPlan::KeepFields),
        HostShape::Enum => None,
        HostShape::Union => None,
    }
}

} // verus!
