//! The schema-driven validator: a registry and a pattern cache built once
//! from a metamodel document, and a fail-fast, depth-first check of
//! instance values against them.
use vstd::prelude::*;

use crate::ast::{DeclarationView, Property, PropertyKind, PropertyView, TypeRefView};
use crate::error::{outcome, ExpectedKind, Failure, ValidationError};
use crate::json::{get_member, has_key, lemma_member_has_key, member, Json, JsonKind};
use crate::regex_cache::{
    pattern_compiles, pattern_finds, pattern_of, referenced, RegexCache,
};
use crate::registry::{
    lemma_prop_named_in, lemma_type_named_in, prop_named, qualified, qualified_name,
    RegistryView, TypeDefinition, TypeRegistry,
};

verus! {

/// The registry key of a parent type: its own namespace if it names one,
/// else the namespace of the metamodel.
pub open spec fn parent_key(reg: RegistryView, st: TypeRefView) -> Seq<char> {
    qualified(
        match st.namespace {
            Some(ns) => ns,
            None => reg.namespace,
        },
        st.name,
    )
}

/// The parent declaration of a type, one level up; `Ok(None)` when it
/// names none.
pub open spec fn resolve_parent(reg: RegistryView, d: DeclarationView) -> Result<
    Option<DeclarationView>,
    Failure,
> {
    match d.super_type {
        None => Ok(None),
        Some(st) => match reg.get(parent_key(reg, st)) {
            Some(p) => Ok(Some(p)),
            None => Err(Failure::MissingSuperType { name: parent_key(reg, st) }),
        },
    }
}

/// The property that a key names on a type whose parent is `parent`: the
/// type's own property wins over the parent's.
pub open spec fn effective_prop(
    own: Seq<PropertyView>,
    parent: Option<DeclarationView>,
    name: Seq<char>,
) -> Option<PropertyView> {
    match prop_named(own, name) {
        Some(p) => Some(p),
        None => match parent {
            Some(d) => prop_named(d.properties, name),
            None => None,
        },
    }
}

/// The first key, from member `i` on, other than `$class`, that the type
/// does not declare.
pub open spec fn first_unknown_from(
    members: Seq<(String, Json)>,
    own: Seq<PropertyView>,
    parent: Option<DeclarationView>,
    i: int,
) -> Option<Seq<char>>
    decreases members.len() - i,
{
    if i < 0 || i >= members.len() {
        None
    } else if members[i].0@ != "$class"@ && effective_prop(own, parent, members[i].0@) is None {
        Some(members[i].0@)
    } else {
        first_unknown_from(members, own, parent, i + 1)
    }
}

/// The name of the first non-optional property, from `props[i]` on, that
/// the object lacks.
pub open spec fn first_missing_from(
    props: Seq<PropertyView>,
    members: Seq<(String, Json)>,
    i: int,
) -> Option<Seq<char>>
    decreases props.len() - i,
{
    if i < 0 || i >= props.len() {
        None
    } else if !props[i].is_optional && !has_key(members, props[i].name) {
        Some(props[i].name)
    } else {
        first_missing_from(props, members, i + 1)
    }
}

/// The required property that the object lacks, if any: the type's own
/// required properties in declaration order, then its parent's.
pub open spec fn missing_required(
    own: Seq<PropertyView>,
    parent: Option<DeclarationView>,
    members: Seq<(String, Json)>,
) -> Option<Seq<char>> {
    match first_missing_from(own, members, 0) {
        Some(n) => Some(n),
        None => match parent {
            Some(d) => first_missing_from(d.properties, members, 0),
            None => None,
        },
    }
}

/// The outcome of validating a value as a resource: an object whose
/// `$class` names a type of the registry, checked against that type.
pub open spec fn value_result(reg: RegistryView, j: Json) -> Result<(), Failure>
    decreases j, 3int, 0int,
{
    match j {
        Json::Object(members) => match member(members@, "$class"@) {
            None => Err(Failure::MissingRequiredProperty { property: "$class"@ }),
            Some(Json::Str(c)) => match reg.get(c@) {
                None => Err(Failure::UnknownClass { class_name: c@ }),
                Some(d) => match resolve_parent(reg, d) {
                    Err(f) => Err(f),
                    Ok(parent) => match first_unknown_from(members@, d.properties, parent, 0) {
                        Some(k) => Err(Failure::UnknownProperty { property_name: k, class_name: c@ }),
                        None => match missing_required(d.properties, parent, members@) {
                            Some(n) => Err(Failure::MissingRequiredProperty { property: n }),
                            None => members_result(reg, j, d.properties, parent, 0),
                        },
                    },
                },
            },
            Some(other) => Err(
                Failure::TypeMismatch { expected: ExpectedKind::String, found: other.spec_kind() },
            ),
        },
        _ => Err(Failure::TypeMismatch { expected: ExpectedKind::Object, found: j.spec_kind() }),
    }
}

/// The outcome of checking the members of an object, from member `i` on,
/// in order, stopping at the first failure.
pub open spec fn members_result(
    reg: RegistryView,
    j: Json,
    own: Seq<PropertyView>,
    parent: Option<DeclarationView>,
    i: int,
) -> Result<(), Failure>
    decreases j, 2int, j->Object_0@.len() - i,
{
    match j {
        Json::Object(members) => if i < 0 || i >= members@.len() {
            Ok(())
        } else {
            let r = if members@[i].0@ == "$class"@ {
                Ok(())
            } else {
                match effective_prop(own, parent, members@[i].0@) {
                    Some(p) => property_result(reg, p, members@[i].1),
                    None => Ok(()),
                }
            };
            match r {
                Err(f) => Err(f),
                Ok(()) => members_result(reg, j, own, parent, i + 1),
            }
        },
        _ => Ok(()),
    }
}

/// The outcome of checking one member's value against its property: an
/// array property takes an array whose elements each pass the leaf rule; a
/// scalar property takes a value that passes it.
pub open spec fn property_result(reg: RegistryView, p: PropertyView, v: Json) -> Result<
    (),
    Failure,
>
    decreases v, 5int, 0int,
{
    if p.is_array {
        match v {
            Json::Array(items) => elements_result(reg, p, v, 0),
            _ => Err(Failure::TypeMismatch { expected: ExpectedKind::Array, found: v.spec_kind() }),
        }
    } else {
        leaf_result(reg, p, v)
    }
}

/// The outcome of the leaf rule on the elements of an array, from element
/// `k` on, stopping at the first failure.
pub open spec fn elements_result(reg: RegistryView, p: PropertyView, v: Json, k: int) -> Result<
    (),
    Failure,
>
    decreases v, 4int, v->Array_0@.len() - k,
{
    match v {
        Json::Array(items) => if k < 0 || k >= items@.len() {
            Ok(())
        } else {
            match leaf_result(reg, p, items@[k]) {
                Err(f) => Err(f),
                Ok(()) => elements_result(reg, p, v, k + 1),
            }
        },
        _ => Ok(()),
    }
}

/// The leaf rule of a property's kind.
pub open spec fn leaf_result(reg: RegistryView, p: PropertyView, v: Json) -> Result<(), Failure>
    decreases v, 4int, 0int,
{
    match p.kind {
        PropertyKind::String => match v {
            Json::Str(s) => match p.validator {
                None => Ok(()),
                Some(val) => if pattern_compiles(val.pattern) && pattern_finds(val.pattern, s@) {
                    Ok(())
                } else {
                    Err(Failure::StringValidation { pattern: val.pattern, value: s@ })
                },
            },
            _ => Err(Failure::TypeMismatch { expected: ExpectedKind::String, found: v.spec_kind() }),
        },
        PropertyKind::Boolean => match v {
            Json::Bool(_) => Ok(()),
            _ => Err(Failure::TypeMismatch { expected: ExpectedKind::Boolean, found: v.spec_kind() }),
        },
        PropertyKind::Integer => match v {
            Json::Number(n) => if n.spec_as_i64() is Some {
                Ok(())
            } else {
                Err(Failure::TypeMismatch { expected: ExpectedKind::Integer, found: JsonKind::Number })
            },
            _ => Err(Failure::TypeMismatch { expected: ExpectedKind::Integer, found: v.spec_kind() }),
        },
        PropertyKind::Double => match v {
            Json::Number(_) => Ok(()),
            _ => Err(Failure::TypeMismatch { expected: ExpectedKind::Double, found: v.spec_kind() }),
        },
        PropertyKind::Object => value_result(reg, v),
        PropertyKind::Unsupported => Err(Failure::UnsupportedPropertyKind { property: p.name }),
    }
}

/// Whether a property is declared by some type of the registry.
pub open spec fn registered(reg: RegistryView, p: PropertyView) -> bool {
    exists|i: int, k: int|
        0 <= i < reg.types.len() && 0 <= k < reg.types[i].1.properties.len()
            && #[trigger] reg.types[i].1.properties[k] == p
}

/// Every property of a registered declaration is registered.
proof fn lemma_registered(reg: RegistryView, d: DeclarationView, name: Seq<char>)
    requires
        exists|i: int| 0 <= i < reg.types.len() && reg.types[i].1 == d,
        prop_named(d.properties, name) is Some,
    ensures
        registered(reg, prop_named(d.properties, name)->Some_0),
{
    let i = choose|i: int| 0 <= i < reg.types.len() && reg.types[i].1 == d;
    lemma_prop_named_in(d.properties, name, d.properties.len() as int);
    let k = choose|k: int|
        0 <= k < d.properties.len() && d.properties[k] == prop_named(d.properties, name)->Some_0
            && d.properties[k].name == name;
    assert(reg.types[i].1.properties[k] == prop_named(d.properties, name)->Some_0);
}

/// Loads a metamodel and validates resources against it.
pub struct ModelManager {
    /// Qualified type name to type definition.
    type_registry: TypeRegistry,
    /// The compiled form of every string-validator pattern of the registry.
    regex_cache: RegexCache,
}

impl View for ModelManager {
    type V = RegistryView;

    closed spec fn view(&self) -> RegistryView {
        self.type_registry@
    }
}

impl ModelManager {
    #[verifier::type_invariant]
    closed spec fn inv(&self) -> bool {
        &&& self.regex_cache.wf()
        &&& forall|p: Seq<char>|
            referenced(self.type_registry@, p) ==> (#[trigger] self.regex_cache.holds(p)
                <==> pattern_compiles(p))
    }

    /// Builds the registry and the pattern cache of a metamodel document.
    pub fn new(metamodel: &Json) -> (r: Result<ModelManager, ValidationError>)
        ensures
            match r {
                Ok(m) => crate::registry::metamodel_registry(*metamodel) == Ok::<
                    RegistryView,
                    crate::error::MetamodelFault,
                >(m@),
                Err(e) => crate::registry::metamodel_registry(*metamodel) matches Err(fault) && e
                    == (ValidationError::MetamodelError { fault }),
            },
    {
        let type_registry = TypeRegistry::from_metamodel(metamodel)?;
        let regex_cache = RegexCache::from_registry(&type_registry);
        Ok(ModelManager { type_registry, regex_cache })
    }

    /// Validates a value as a resource of the registry.
    pub fn validate_metamodel(&self, thing: &Json) -> (r: Result<(), ValidationError>)
        ensures
            outcome(r) == value_result(self@, *thing),
    {
        self.validate_resource(thing)
    }

    /// The definition registered under a qualified name.
    pub fn get_type_definition(&self, full_name: &String) -> (r: Option<&TypeDefinition>)
        ensures
            match r {
                Some(t) => self@.get(full_name@) == Some(t@),
                None => self@.get(full_name@) is None,
            },
    {
        self.type_registry.get(full_name)
    }

    /// The parent definition of a type, one level up.
    fn get_supertype_definition(&self, t: &TypeDefinition) -> (r: Result<
        Option<&TypeDefinition>,
        ValidationError,
    >)
        ensures
            match r {
                Ok(Some(p)) => resolve_parent(self@, t@) == Ok::<
                    Option<DeclarationView>,
                    Failure,
                >(Some(p@)),
                Ok(None) => resolve_parent(self@, t@) == Ok::<Option<DeclarationView>, Failure>(
                    None,
                ),
                Err(e) => resolve_parent(self@, t@) == Err::<Option<DeclarationView>, Failure>(
                    e@,
                ),
            },
    {
        match t.get_supertype() {
            None => Ok(None),
            Some(st) => {
                let key = match &st.namespace {
                    Some(ns) => qualified_name(ns.as_str(), st.name.as_str()),
                    None => qualified_name(self.type_registry.namespace().as_str(), st.name.as_str()),
                };
                match self.type_registry.get(&key) {
                    Some(p) => Ok(Some(p)),
                    None => Err(ValidationError::MissingSuperTypeDefinition { name: key }),
                }
            },
        }
    }

    /// The property that a key names on a type, the type's own winning
    /// over its parent's.
    fn effective_property<'a>(
        own: &'a TypeDefinition,
        parent: Option<&'a TypeDefinition>,
        name: &String,
    ) -> (r: Option<&'a Property>)
        ensures
            match r {
                Some(p) => effective_prop(own@.properties, parent_view(parent), name@) == Some(p@),
                None => effective_prop(own@.properties, parent_view(parent), name@) is None,
            },
    {
        match own.expected_property(name) {
            Some(p) => Some(p),
            None => match parent {
                Some(d) => d.expected_property(name),
                None => None,
            },
        }
    }

    /// Checks that every key but `$class` is declared.
    fn validate_expected_properties(
        members: &Vec<(String, Json)>,
        own: &TypeDefinition,
        parent: Option<&TypeDefinition>,
        class_name: &String,
    ) -> (r: Result<(), ValidationError>)
        ensures
            match first_unknown_from(members@, own@.properties, parent_view(parent), 0) {
                Some(k) => outcome(r) == Err::<(), Failure>(
                    Failure::UnknownProperty { property_name: k, class_name: class_name@ },
                ),
                None => r is Ok,
            },
    {
        let class_key = String::from_str("$class");
        let mut i: usize = 0;
        while i < members.len()
            invariant
                i <= members@.len(),
                class_key@ == "$class"@,
                first_unknown_from(members@, own@.properties, parent_view(parent), 0)
                    == first_unknown_from(members@, own@.properties, parent_view(parent), i as int),
            decreases members.len() - i,
        {
            let key = &members[i].0;
            if !(*key == class_key) && Self::effective_property(own, parent, key).is_none() {
                return Err(
                    ValidationError::UnknownProperty {
                        property_name: key.clone(),
                        class_name: class_name.clone(),
                    },
                );
            }
            i = i + 1;
        }
        Ok(())
    }

    /// The first non-optional property of `props` that the object lacks.
    fn first_missing(props: &Vec<Property>, members: &Vec<(String, Json)>) -> (r: Option<String>)
        ensures
            match r {
                Some(n) => first_missing_from(
                    Seq::new(props@.len(), |k: int| props@[k]@),
                    members@,
                    0,
                ) == Some(n@),
                None => first_missing_from(
                    Seq::new(props@.len(), |k: int| props@[k]@),
                    members@,
                    0,
                ) is None,
            },
    {
        let ghost views = Seq::new(props@.len(), |k: int| props@[k]@);
        let mut i: usize = 0;
        while i < props.len()
            invariant
                i <= props@.len(),
                views == Seq::new(props@.len(), |k: int| props@[k]@),
                first_missing_from(views, members@, 0) == first_missing_from(
                    views,
                    members@,
                    i as int,
                ),
            decreases props.len() - i,
        {
            let p = &props[i];
            proof {
                lemma_member_has_key(members@, p.name@);
            }
            if !p.is_optional && get_member(members, p.name.as_str()).is_none() {
                return Some(p.name.clone());
            }
            i = i + 1;
        }
        None
    }

    /// Checks that every required property, the type's own and then its
    /// parent's, is present.
    fn validate_required_properties(
        members: &Vec<(String, Json)>,
        own: &TypeDefinition,
        parent: Option<&TypeDefinition>,
    ) -> (r: Result<(), ValidationError>)
        ensures
            match missing_required(own@.properties, parent_view(parent), members@) {
                Some(n) => outcome(r) == Err::<(), Failure>(
                    Failure::MissingRequiredProperty { property: n },
                ),
                None => r is Ok,
            },
    {
        let own_props = own.expected_properties();
        assert(Seq::new(own_props@.len(), |k: int| own_props@[k]@) =~= own@.properties);
        let missing = match Self::first_missing(own_props, members) {
            Some(n) => Some(n),
            None => match parent {
                Some(d) => {
                    let parent_props = d.expected_properties();
                    assert(Seq::new(parent_props@.len(), |k: int| parent_props@[k]@)
                        =~= d@.properties);
                    Self::first_missing(parent_props, members)
                },
                None => None,
            },
        };
        match missing {
            Some(n) => Err(ValidationError::MissingRequiredProperty { property: n }),
            None => Ok(()),
        }
    }

    /// Validates a value as a resource: an object whose `$class` names a
    /// type of the registry, checked against that type and its parent.
    pub fn validate_resource(&self, j: &Json) -> (r: Result<(), ValidationError>)
        ensures
            outcome(r) == value_result(self@, *j),
        decreases *j, 3int, 0int,
    {
        proof {
            use_type_invariant(self);
        }
        let members = match j {
            Json::Object(members) => members,
            _ => {
                return Err(
                    ValidationError::TypeMismatch { expected: ExpectedKind::Object, found: j.kind() },
                );
            },
        };
        let class_name = match get_member(members, "$class") {
            None => {
                return Err(
                    ValidationError::MissingRequiredProperty { property: String::from_str("$class") },
                );
            },
            Some(Json::Str(c)) => c,
            Some(other) => {
                return Err(
                    ValidationError::TypeMismatch {
                        expected: ExpectedKind::String,
                        found: other.kind(),
                    },
                );
            },
        };
        let t = match self.type_registry.get(class_name) {
            None => {
                return Err(ValidationError::UnknownClass { class_name: class_name.clone() });
            },
            Some(t) => t,
        };
        let parent = self.get_supertype_definition(t)?;
        proof {
            lemma_type_named_in(self@.types, class_name@, self@.types.len() as int);
            if let Some(d) = parent {
                let st = t@.super_type->Some_0;
                lemma_type_named_in(self@.types, parent_key(self@, st), self@.types.len() as int);
            }
        }
        Self::validate_expected_properties(members, t, parent, class_name)?;
        Self::validate_required_properties(members, t, parent)?;
        let ghost own = t@.properties;
        let ghost pv = parent_view(parent);
        let class_key = String::from_str("$class");
        let mut i: usize = 0;
        while i < members.len()
            invariant
                i <= members@.len(),
                class_key@ == "$class"@,
                *j == Json::Object(*members),
                own == t@.properties,
                pv == parent_view(parent),
                exists|n: int| 0 <= n < self@.types.len() && self@.types[n].1 == t@,
                parent matches Some(d) ==> exists|n: int|
                    0 <= n < self@.types.len() && self@.types[n].1 == d@,
                value_result(self@, *j) == members_result(self@, *j, own, pv, i as int),
            decreases members.len() - i,
        {
            let key = &members[i].0;
            if !(*key == class_key) {
                match Self::effective_property(t, parent, key) {
                    Some(p) => {
                        proof {
                            if prop_named(own, key@) is Some {
                                lemma_registered(self@, t@, key@);
                            } else {
                                lemma_registered(self@, parent->Some_0@, key@);
                            }
                        }
                        self.validate_property(p, &members[i].1)?;
                    },
                    None => {},
                }
            }
            i = i + 1;
        }
        Ok(())
    }

    /// Checks one member's value against its property.
    fn validate_property(&self, p: &Property, v: &Json) -> (r: Result<(), ValidationError>)
        requires
            registered(self@, p@),
        ensures
            outcome(r) == property_result(self@, p@, *v),
        decreases *v, 5int, 0int,
    {
        if p.is_array {
            match v {
                Json::Array(items) => {
                    let mut k: usize = 0;
                    while k < items.len()
                        invariant
                            k <= items@.len(),
                            *v == Json::Array(*items),
                            registered(self@, p@),
                            property_result(self@, p@, *v) == elements_result(
                                self@,
                                p@,
                                *v,
                                k as int,
                            ),
                        decreases items.len() - k,
                    {
                        self.validate_leaf(p, &items[k])?;
                        k = k + 1;
                    }
                    Ok(())
                },
                _ => Err(
                    ValidationError::TypeMismatch { expected: ExpectedKind::Array, found: v.kind() },
                ),
            }
        } else {
            self.validate_leaf(p, v)
        }
    }

    /// Applies the leaf rule of a property's kind to a value.
    fn validate_leaf(&self, p: &Property, v: &Json) -> (r: Result<(), ValidationError>)
        requires
            registered(self@, p@),
        ensures
            outcome(r) == leaf_result(self@, p@, *v),
        decreases *v, 4int, 0int,
    {
        proof {
            use_type_invariant(self);
        }
        match p.kind {
            PropertyKind::String => match v {
                Json::Str(s) => match &p.validator {
                    None => Ok(()),
                    Some(val) => {
                        proof {
                            let (i, k) = choose|i: int, k: int|
                                0 <= i < self@.types.len() && 0 <= k
                                    < self@.types[i].1.properties.len()
                                    && #[trigger] self@.types[i].1.properties[k] == p@;
                            assert(pattern_of(self@.types[i].1.properties[k]) == Some(val.pattern@));
                            assert(referenced(self@, val.pattern@));
                        }
                        match self.regex_cache.find(&val.pattern, s.as_str()) {
                            Some(true) => Ok(()),
                            _ => Err(
                                ValidationError::StringValidationError {
                                    pattern: val.pattern.clone(),
                                    value: s.clone(),
                                },
                            ),
                        }
                    },
                },
                _ => Err(
                    ValidationError::TypeMismatch { expected: ExpectedKind::String, found: v.kind() },
                ),
            },
            PropertyKind::Boolean => match v {
                Json::Bool(_) => Ok(()),
                _ => Err(
                    ValidationError::TypeMismatch { expected: ExpectedKind::Boolean, found: v.kind() },
                ),
            },
            PropertyKind::Integer => match v {
                Json::Number(n) => if n.as_i64().is_some() {
                    Ok(())
                } else {
                    Err(
                        ValidationError::TypeMismatch {
                            expected: ExpectedKind::Integer,
                            found: JsonKind::Number,
                        },
                    )
                },
                _ => Err(
                    ValidationError::TypeMismatch { expected: ExpectedKind::Integer, found: v.kind() },
                ),
            },
            PropertyKind::Double => match v {
                Json::Number(_) => Ok(()),
                _ => Err(
                    ValidationError::TypeMismatch { expected: ExpectedKind::Double, found: v.kind() },
                ),
            },
            PropertyKind::Object => self.validate_resource(v),
            PropertyKind::Unsupported => Err(
                ValidationError::UnsupportedPropertyKind { property: p.name.clone() },
            ),
        }
    }
}

/// The declaration of an optional parent definition.
pub open spec fn parent_view(parent: Option<&TypeDefinition>) -> Option<DeclarationView> {
    match parent {
        Some(d) => Some(d@),
        None => None,
    }
}

} // verus!
