//! The declarations of a metamodel document, and how each is read from its
//! JSON form.
//!
//! A field that is absent or `null` reads as "not given" where the
//! declaration makes it optional; every other field must be present with
//! the right JSON kind, and keys that a declaration does not name are
//! ignored.
use vstd::prelude::*;

use crate::json::{get_member, member, opt_json, Json};

verus! {

/// The value kinds a property declaration can have.
#[derive(Clone, Copy, Debug, PartialEq, Eq, Structural)]
pub enum PropertyKind {
    String,
    Boolean,
    Integer,
    Double,
    Object,
    /// A property tag that the validator has no leaf rule for.
    Unsupported,
}

/// A reference to a declared type: a name and, optionally, its namespace.
#[derive(Debug)]
pub struct TypeRef {
    pub class: String,
    pub name: String,
    pub namespace: Option<String>,
}

/// A regular-expression constraint on a string property.
#[derive(Debug)]
pub struct StringValidator {
    pub class: String,
    pub pattern: String,
    pub flags: String,
}

/// One named, typed property of a declaration.
#[derive(Debug)]
pub struct Property {
    pub kind: PropertyKind,
    pub name: String,
    pub is_array: bool,
    pub is_optional: bool,
    pub type_ref: Option<TypeRef>,
    pub validator: Option<StringValidator>,
}

/// One type declaration of a metamodel document.
#[derive(Debug)]
pub struct ConceptDeclaration {
    pub class: String,
    pub is_abstract: bool,
    pub properties: Vec<Property>,
    pub name: String,
    pub super_type: Option<TypeRef>,
}

pub struct TypeRefView {
    pub class: Seq<char>,
    pub name: Seq<char>,
    pub namespace: Option<Seq<char>>,
}

pub struct StringValidatorView {
    pub class: Seq<char>,
    pub pattern: Seq<char>,
    pub flags: Seq<char>,
}

pub struct PropertyView {
    pub kind: PropertyKind,
    pub name: Seq<char>,
    pub is_array: bool,
    pub is_optional: bool,
    pub type_ref: Option<TypeRefView>,
    pub validator: Option<StringValidatorView>,
}

pub struct DeclarationView {
    pub class: Seq<char>,
    pub is_abstract: bool,
    pub properties: Seq<PropertyView>,
    pub name: Seq<char>,
    pub super_type: Option<TypeRefView>,
}

impl View for TypeRef {
    type V = TypeRefView;

    open spec fn view(&self) -> TypeRefView {
        TypeRefView {
            class: self.class@,
            name: self.name@,
            namespace: match self.namespace {
                Some(ns) => Some(ns@),
                None => None,
            },
        }
    }
}

impl View for StringValidator {
    type V = StringValidatorView;

    open spec fn view(&self) -> StringValidatorView {
        StringValidatorView { class: self.class@, pattern: self.pattern@, flags: self.flags@ }
    }
}

pub open spec fn type_ref_view(t: Option<TypeRef>) -> Option<TypeRefView> {
    match t {
        Some(t) => Some(t@),
        None => None,
    }
}

impl View for Property {
    type V = PropertyView;

    open spec fn view(&self) -> PropertyView {
        PropertyView {
            kind: self.kind,
            name: self.name@,
            is_array: self.is_array,
            is_optional: self.is_optional,
            type_ref: type_ref_view(self.type_ref),
            validator: match self.validator {
                Some(v) => Some(v@),
                None => None,
            },
        }
    }
}

impl View for ConceptDeclaration {
    type V = DeclarationView;

    open spec fn view(&self) -> DeclarationView {
        DeclarationView {
            class: self.class@,
            is_abstract: self.is_abstract,
            properties: Seq::new(self.properties@.len(), |k: int| self.properties@[k]@),
            name: self.name@,
            super_type: type_ref_view(self.super_type),
        }
    }
}

/// The text of a member whose value is a string.
pub open spec fn str_member(members: Seq<(String, Json)>, key: Seq<char>) -> Option<Seq<char>> {
    match member(members, key) {
        Some(Json::Str(s)) => Some(s@),
        _ => None,
    }
}

/// The value of a member whose value is a boolean.
pub open spec fn bool_member(members: Seq<(String, Json)>, key: Seq<char>) -> Option<bool> {
    match member(members, key) {
        Some(Json::Bool(b)) => Some(b),
        _ => None,
    }
}

/// An optional string member: `Some(None)` when absent or `null`, `None`
/// when present with another kind.
pub open spec fn opt_str_member(members: Seq<(String, Json)>, key: Seq<char>) -> Option<
    Option<Seq<char>>,
> {
    match member(members, key) {
        None => Some(None),
        Some(Json::Null) => Some(None),
        Some(Json::Str(s)) => Some(Some(s@)),
        _ => None,
    }
}

/// The kind that a property tag names.
pub open spec fn kind_of_tag(tag: Seq<char>) -> PropertyKind {
    if tag == "concerto.metamodel@1.0.0.StringProperty"@ {
        PropertyKind::String
    } else if tag == "concerto.metamodel@1.0.0.BooleanProperty"@ {
        PropertyKind::Boolean
    } else if tag == "concerto.metamodel@1.0.0.IntegerProperty"@ {
        PropertyKind::Integer
    } else if tag == "concerto.metamodel@1.0.0.DoubleProperty"@ {
        PropertyKind::Double
    } else if tag == "concerto.metamodel@1.0.0.ObjectProperty"@ {
        PropertyKind::Object
    } else {
        PropertyKind::Unsupported
    }
}

/// A type reference read from JSON.
pub open spec fn decode_type_ref(j: Json) -> Option<TypeRefView> {
    match j {
        Json::Object(m) => match (str_member(m@, "$class"@), str_member(m@, "name"@), opt_str_member(m@, "namespace"@)) {
            (Some(class), Some(name), Some(namespace)) => Some(
                TypeRefView { class, name, namespace },
            ),
            _ => None,
        },
        _ => None,
    }
}

/// An optional type reference: absent or `null` reads as `Some(None)`.
pub open spec fn decode_opt_type_ref(j: Option<Json>) -> Option<Option<TypeRefView>> {
    match j {
        None => Some(None),
        Some(Json::Null) => Some(None),
        Some(v) => match decode_type_ref(v) {
            Some(t) => Some(Some(t)),
            None => None,
        },
    }
}

/// A string validator read from JSON.
pub open spec fn decode_validator(j: Json) -> Option<StringValidatorView> {
    match j {
        Json::Object(m) => match (str_member(m@, "$class"@), str_member(m@, "pattern"@), str_member(m@, "flags"@)) {
            (Some(class), Some(pattern), Some(flags)) => Some(
                StringValidatorView { class, pattern, flags },
            ),
            _ => None,
        },
        _ => None,
    }
}

pub open spec fn decode_opt_validator(j: Option<Json>) -> Option<Option<StringValidatorView>> {
    match j {
        None => Some(None),
        Some(Json::Null) => Some(None),
        Some(v) => match decode_validator(v) {
            Some(t) => Some(Some(t)),
            None => None,
        },
    }
}

/// A property declaration read from JSON.
pub open spec fn decode_property(j: Json) -> Option<PropertyView> {
    match j {
        Json::Object(m) => match (
            str_member(m@, "$class"@),
            str_member(m@, "name"@),
            bool_member(m@, "isArray"@),
            bool_member(m@, "isOptional"@),
            decode_opt_type_ref(member(m@, "type"@)),
            decode_opt_validator(member(m@, "validator"@)),
        ) {
            (Some(class), Some(name), Some(is_array), Some(is_optional), Some(type_ref), Some(validator)) => Some(
                PropertyView { kind: kind_of_tag(class), name, is_array, is_optional, type_ref, validator },
            ),
            _ => None,
        },
        _ => None,
    }
}

/// Whether every element of a JSON array reads as a property declaration.
pub open spec fn all_properties(items: Seq<Json>) -> bool {
    forall|k: int| 0 <= k < items.len() ==> (#[trigger] decode_property(items[k])) is Some
}

/// A type declaration read from JSON.
pub open spec fn decode_declaration(j: Json) -> Option<DeclarationView> {
    match j {
        Json::Object(m) => match (
            str_member(m@, "$class"@),
            bool_member(m@, "isAbstract"@),
            member(m@, "properties"@),
            str_member(m@, "name"@),
            decode_opt_type_ref(member(m@, "superType"@)),
        ) {
            (Some(class), Some(is_abstract), Some(Json::Array(items)), Some(name), Some(super_type)) => {
                if all_properties(items@) {
                    Some(
                        DeclarationView {
                            class,
                            is_abstract,
                            properties: Seq::new(
                                items@.len(),
                                |k: int| decode_property(items@[k])->Some_0,
                            ),
                            name,
                            super_type,
                        },
                    )
                } else {
                    None
                }
            },
            _ => None,
        },
        _ => None,
    }
}

/// Reads a member whose value must be a string.
pub fn get_str_member(members: &Vec<(String, Json)>, key: &str) -> (r: Option<String>)
    ensures
        match r {
            Some(s) => str_member(members@, key@) == Some(s@),
            None => str_member(members@, key@) is None,
        },
{
    match get_member(members, key) {
        Some(Json::Str(s)) => Some(s.clone()),
        _ => None,
    }
}

/// Reads a member whose value must be a boolean.
pub fn get_bool_member(members: &Vec<(String, Json)>, key: &str) -> (r: Option<bool>)
    ensures
        r == bool_member(members@, key@),
{
    match get_member(members, key) {
        Some(Json::Bool(b)) => Some(*b),
        _ => None,
    }
}

/// Reads an optional string member.
pub fn get_opt_str_member(members: &Vec<(String, Json)>, key: &str) -> (r: Option<Option<String>>)
    ensures
        match r {
            Some(Some(s)) => opt_str_member(members@, key@) == Some(Some(s@)),
            Some(None) => opt_str_member(members@, key@) == Some(None::<Seq<char>>),
            None => opt_str_member(members@, key@) is None,
        },
{
    match get_member(members, key) {
        None => Some(None),
        Some(Json::Null) => Some(None),
        Some(Json::Str(s)) => Some(Some(s.clone())),
        _ => None,
    }
}

fn tag_is(tag: &String, expected: &str) -> (r: bool)
    ensures
        r == (tag@ == expected@),
{
    *tag == String::from_str(expected)
}

/// The kind that a property tag names.
pub fn property_kind(tag: &String) -> (r: PropertyKind)
    ensures
        r == kind_of_tag(tag@),
{
    if tag_is(tag, "concerto.metamodel@1.0.0.StringProperty") {
        PropertyKind::String
    } else if tag_is(tag, "concerto.metamodel@1.0.0.BooleanProperty") {
        PropertyKind::Boolean
    } else if tag_is(tag, "concerto.metamodel@1.0.0.IntegerProperty") {
        PropertyKind::Integer
    } else if tag_is(tag, "concerto.metamodel@1.0.0.DoubleProperty") {
        PropertyKind::Double
    } else if tag_is(tag, "concerto.metamodel@1.0.0.ObjectProperty") {
        PropertyKind::Object
    } else {
        PropertyKind::Unsupported
    }
}

impl TypeRef {
    /// Reads a type reference from JSON.
    pub fn from_json(j: &Json) -> (r: Option<TypeRef>)
        ensures
            match r {
                Some(t) => decode_type_ref(*j) == Some(t@),
                None => decode_type_ref(*j) is None,
            },
    {
        match j {
            Json::Object(m) => {
                let class = get_str_member(m, "$class");
                let name = get_str_member(m, "name");
                let namespace = get_opt_str_member(m, "namespace");
                match (class, name, namespace) {
                    (Some(class), Some(name), Some(namespace)) => Some(
                        TypeRef { class, name, namespace },
                    ),
                    _ => None,
                }
            },
            _ => None,
        }
    }

    fn from_opt_json(j: Option<&Json>) -> (r: Option<Option<TypeRef>>)
        ensures
            match r {
                Some(t) => decode_opt_type_ref(opt_json(j)) == Some(type_ref_view(t)),
                None => decode_opt_type_ref(opt_json(j)) is None,
            },
    {
        match j {
            None => Some(None),
            Some(Json::Null) => Some(None),
            Some(v) => match TypeRef::from_json(v) {
                Some(t) => Some(Some(t)),
                None => None,
            },
        }
    }
}

impl StringValidator {
    /// Reads a string validator from JSON.
    pub fn from_json(j: &Json) -> (r: Option<StringValidator>)
        ensures
            match r {
                Some(v) => decode_validator(*j) == Some(v@),
                None => decode_validator(*j) is None,
            },
    {
        match j {
            Json::Object(m) => {
                let class = get_str_member(m, "$class");
                let pattern = get_str_member(m, "pattern");
                let flags = get_str_member(m, "flags");
                match (class, pattern, flags) {
                    (Some(class), Some(pattern), Some(flags)) => Some(
                        StringValidator { class, pattern, flags },
                    ),
                    _ => None,
                }
            },
            _ => None,
        }
    }

    fn from_opt_json(j: Option<&Json>) -> (r: Option<Option<StringValidator>>)
        ensures
            match r {
                Some(Some(v)) => decode_opt_validator(opt_json(j)) == Some(Some(v@)),
                Some(None) => decode_opt_validator(opt_json(j)) == Some(
                    None::<StringValidatorView>,
                ),
                None => decode_opt_validator(opt_json(j)) is None,
            },
    {
        match j {
            None => Some(None),
            Some(Json::Null) => Some(None),
            Some(v) => match StringValidator::from_json(v) {
                Some(t) => Some(Some(t)),
                None => None,
            },
        }
    }
}

impl Property {
    /// Reads a property declaration from JSON.
    pub fn from_json(j: &Json) -> (r: Option<Property>)
        ensures
            match r {
                Some(p) => decode_property(*j) == Some(p@),
                None => decode_property(*j) is None,
            },
    {
        match j {
            Json::Object(m) => {
                let class = get_str_member(m, "$class");
                let name = get_str_member(m, "name");
                let is_array = get_bool_member(m, "isArray");
                let is_optional = get_bool_member(m, "isOptional");
                let type_ref = TypeRef::from_opt_json(get_member(m, "type"));
                let validator = StringValidator::from_opt_json(get_member(m, "validator"));
                match (class, name, is_array, is_optional, type_ref, validator) {
                    (
                        Some(class),
                        Some(name),
                        Some(is_array),
                        Some(is_optional),
                        Some(type_ref),
                        Some(validator),
                    ) => {
                        let p = Property {
                            kind: property_kind(&class),
                            name,
                            is_array,
                            is_optional,
                            type_ref,
                            validator,
                        };
                        assert(decode_property(*j) == Some(p@));
                        Some(p)
                    },
                    _ => None,
                }
            },
            _ => None,
        }
    }
}

/// Reads every element of a JSON array as a property declaration.
fn properties_from_json(items: &Vec<Json>) -> (r: Option<Vec<Property>>)
    ensures
        r is Some <==> all_properties(items@),
        r matches Some(ps) ==> ps@.len() == items@.len() && forall|k: int|
            0 <= k < items@.len() ==> decode_property(items@[k]) == Some(#[trigger] ps@[k]@),
{
    let mut out: Vec<Property> = Vec::new();
    let mut i: usize = 0;
    while i < items.len()
        invariant
            i <= items@.len(),
            out@.len() == i,
            forall|k: int| 0 <= k < i ==> decode_property(items@[k]) == Some(#[trigger] out@[k]@),
        decreases items.len() - i,
    {
        match Property::from_json(&items[i]) {
            Some(p) => out.push(p),
            None => {
                assert(!all_properties(items@));
                return None;
            },
        }
        i = i + 1;
    }
    assert(all_properties(items@)) by {
        assert forall|k: int| 0 <= k < items@.len() implies (#[trigger] decode_property(
            items@[k],
        )) is Some by {
            assert(decode_property(items@[k]) == Some(out@[k]@));
        }
    }
    Some(out)
}

impl ConceptDeclaration {
    /// Reads a type declaration from JSON.
    pub fn from_json(j: &Json) -> (r: Option<ConceptDeclaration>)
        ensures
            match r {
                Some(d) => decode_declaration(*j) == Some(d@),
                None => decode_declaration(*j) is None,
            },
    {
        match j {
            Json::Object(m) => {
                let class = get_str_member(m, "$class");
                let is_abstract = get_bool_member(m, "isAbstract");
                let properties = match get_member(m, "properties") {
                    Some(Json::Array(items)) => properties_from_json(items),
                    _ => None,
                };
                let name = get_str_member(m, "name");
                let super_type = TypeRef::from_opt_json(get_member(m, "superType"));
                match (class, is_abstract, properties, name, super_type) {
                    (Some(class), Some(is_abstract), Some(properties), Some(name), Some(super_type)) => {
                        let d = ConceptDeclaration { class, is_abstract, properties, name, super_type };
                        proof {
                            let items = member(m@, "properties"@)->Some_0->Array_0;
                            assert(d@.properties =~= Seq::new(
                                items@.len(),
                                |k: int| decode_property(items@[k])->Some_0,
                            ));
                        }
                        Some(d)
                    },
                    _ => None,
                }
            },
            _ => None,
        }
    }
}

} // verus!
