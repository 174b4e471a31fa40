//! Type definitions and the registry that maps qualified type names to
//! them.
use vstd::prelude::*;

use crate::ast::{
    decode_declaration, str_member, ConceptDeclaration, DeclarationView, Property, PropertyView,
    TypeRef,
};
use crate::error::{MetamodelFault, ValidationError};
use crate::regex_cache::pattern_of;
use crate::json::{get_member, member, Json};

verus! {

/// The registry key of a type: `namespace.name`.
pub open spec fn qualified(namespace: Seq<char>, name: Seq<char>) -> Seq<char> {
    namespace + "."@ + name
}

/// The last property in `props[0..k]` with the given name.
pub open spec fn prop_named_upto(props: Seq<PropertyView>, name: Seq<char>, k: int) -> Option<
    PropertyView,
>
    decreases k,
{
    if k <= 0 || k > props.len() {
        None
    } else if props[k - 1].name == name {
        Some(props[k - 1])
    } else {
        prop_named_upto(props, name, k - 1)
    }
}

/// The property that a declaration's own property map holds under a name:
/// of several with that name, the last one.
pub open spec fn prop_named(props: Seq<PropertyView>, name: Seq<char>) -> Option<PropertyView> {
    prop_named_upto(props, name, props.len() as int)
}

pub proof fn lemma_prop_named_in(props: Seq<PropertyView>, name: Seq<char>, k: int)
    requires
        prop_named_upto(props, name, k) is Some,
    ensures
        exists|i: int|
            0 <= i < props.len() && props[i] == prop_named_upto(props, name, k)->Some_0
                && props[i].name == name,
    decreases k,
{
    if props[k - 1].name != name {
        lemma_prop_named_in(props, name, k - 1);
    }
}

/// The patterns that the properties of `props` carry, in order, one per
/// property with a validator.
pub open spec fn validator_patterns(props: Seq<PropertyView>) -> Seq<Seq<char>> {
    props.filter_map(|p: PropertyView| pattern_of(p))
}

/// The non-optional properties of `props`, in order.
pub open spec fn required_of(props: Seq<PropertyView>) -> Seq<PropertyView> {
    props.filter(|p: PropertyView| !p.is_optional)
}

/// Whether some property of `props` carries the pattern.
pub open spec fn carries(props: Seq<PropertyView>, pattern: Seq<char>) -> bool {
    exists|j: int| 0 <= j < props.len() && #[trigger] pattern_of(props[j]) == Some(pattern)
}

/// Whether a list of patterns holds the pattern.
pub open spec fn listed(patterns: Seq<&String>, pattern: Seq<char>) -> bool {
    exists|k: int| 0 <= k < patterns.len() && (#[trigger] patterns[k])@ == pattern
}

/// One declaration of the registry, with read-only views of its properties.
#[derive(Debug)]
pub struct TypeDefinition {
    pub inner: ConceptDeclaration,
}

impl View for TypeDefinition {
    type V = DeclarationView;

    open spec fn view(&self) -> DeclarationView {
        self.inner@
    }
}

impl TypeDefinition {
    pub fn new(concept_declaration: ConceptDeclaration) -> (r: TypeDefinition)
        ensures
            r@ == concept_declaration@,
    {
        TypeDefinition { inner: concept_declaration }
    }

    /// The declaration's own properties, in declaration order.
    pub fn expected_properties(&self) -> (r: &Vec<Property>)
        ensures
            r@.len() == self@.properties.len(),
            forall|k: int| 0 <= k < r@.len() ==> #[trigger] r@[k]@ == self@.properties[k],
    {
        &self.inner.properties
    }

    /// The declaration's own property of a given name (the last one, where
    /// several share it).
    pub fn expected_property(&self, name: &String) -> (r: Option<&Property>)
        ensures
            match r {
                Some(p) => prop_named(self@.properties, name@) == Some(p@),
                None => prop_named(self@.properties, name@) is None,
            },
    {
        let props = &self.inner.properties;
        let mut k: usize = props.len();
        while k > 0
            invariant
                k <= props@.len(),
                props@.len() == self@.properties.len(),
                forall|i: int| 0 <= i < props@.len() ==> #[trigger] props@[i]@ == self@.properties[i],
                prop_named(self@.properties, name@) == prop_named_upto(
                    self@.properties,
                    name@,
                    k as int,
                ),
            decreases k,
        {
            assert(self@.properties[k - 1] == props@[k - 1]@);
            if props[k - 1].name == *name {
                return Some(&props[k - 1]);
            }
            k = k - 1;
        }
        None
    }

    /// The declaration's own non-optional properties, in declaration order.
    pub fn required_properties(&self) -> (r: Vec<&Property>)
        ensures
            Seq::new(r@.len(), |k: int| r@[k]@) == required_of(self@.properties),
            forall|k: int| 0 <= k < r@.len() ==> !(#[trigger] r@[k]@).is_optional,
            forall|k: int| 0 <= k < r@.len() ==> self@.properties.contains(#[trigger] r@[k]@),
            forall|i: int|
                0 <= i < self@.properties.len() && !(#[trigger] self@.properties[i]).is_optional
                    ==> exists|k: int| 0 <= k < r@.len() && r@[k]@ == self@.properties[i],
    {
        let props = &self.inner.properties;
        let mut out: Vec<&Property> = Vec::new();
        let mut i: usize = 0;
        while i < props.len()
            invariant
                i <= props@.len(),
                props@.len() == self@.properties.len(),
                forall|j: int| 0 <= j < props@.len() ==> #[trigger] props@[j]@ == self@.properties[j],
                Seq::new(out@.len(), |k: int| out@[k]@) == required_of(
                    self@.properties.subrange(0, i as int),
                ),
                forall|k: int| 0 <= k < out@.len() ==> !(#[trigger] out@[k]@).is_optional,
                forall|k: int| 0 <= k < out@.len() ==> self@.properties.contains(#[trigger] out@[k]@),
                forall|j: int|
                    0 <= j < i && !(#[trigger] self@.properties[j]).is_optional ==> exists|k: int|
                        0 <= k < out@.len() && out@[k]@ == self@.properties[j],
            decreases props.len() - i,
        {
            assert(self@.properties[i as int] == props@[i as int]@);
            proof {
                let pre = self@.properties.subrange(0, i as int + 1);
                assert(pre.drop_last() =~= self@.properties.subrange(0, i as int));
                reveal(Seq::filter);
            }
            let ghost before_views = Seq::new(out@.len(), |k: int| out@[k]@);
            if !props[i].is_optional {
                let ghost before = out@;
                out.push(&props[i]);
                assert(out@[out@.len() - 1]@ == self@.properties[i as int]);
                assert forall|j: int|
                    0 <= j < i + 1 && !(#[trigger] self@.properties[j]).is_optional implies exists|
                        k: int,
                    | 0 <= k < out@.len() && out@[k]@ == self@.properties[j] by {
                    if j < i {
                        let k = choose|k: int| 0 <= k < before.len() && before[k]@ == self@.properties[j];
                        assert(out@[k] == before[k]);
                    } else {
                        assert(out@[out@.len() - 1]@ == self@.properties[j]);
                    }
                }
                assert(Seq::new(out@.len(), |k: int| out@[k]@) =~= before_views.push(
                    self@.properties[i as int],
                ));
            }
            i = i + 1;
        }
        assert(self@.properties.subrange(0, props@.len() as int) =~= self@.properties);
        out
    }

    /// Every regular-expression pattern that the declaration's own
    /// properties carry, in declaration order.
    pub fn get_string_validator_patterns(&self) -> (r: Vec<&String>)
        ensures
            Seq::new(r@.len(), |k: int| r@[k]@) == validator_patterns(self@.properties),
            forall|k: int| 0 <= k < r@.len() ==> carries(self@.properties, (#[trigger] r@[k])@),
            forall|j: int|
                0 <= j < self@.properties.len() && (#[trigger] pattern_of(self@.properties[j])) is Some
                    ==> listed(r@, pattern_of(self@.properties[j])->Some_0),
    {
        let props = &self.inner.properties;
        let mut out: Vec<&String> = Vec::new();
        let mut i: usize = 0;
        while i < props.len()
            invariant
                i <= props@.len(),
                props@.len() == self@.properties.len(),
                forall|j: int| 0 <= j < props@.len() ==> #[trigger] props@[j]@ == self@.properties[j],
                Seq::new(out@.len(), |k: int| out@[k]@) == validator_patterns(
                    self@.properties.subrange(0, i as int),
                ),
                forall|k: int|
                    0 <= k < out@.len() ==> carries(self@.properties, (#[trigger] out@[k])@),
                forall|j: int|
                    0 <= j < i && (#[trigger] pattern_of(self@.properties[j])) is Some ==> listed(
                        out@,
                        pattern_of(self@.properties[j])->Some_0,
                    ),
            decreases props.len() - i,
        {
            assert(self@.properties[i as int] == props@[i as int]@);
            proof {
                let pre = self@.properties.subrange(0, i as int + 1);
                assert(pre.drop_last() =~= self@.properties.subrange(0, i as int));
            }
            let ghost before_views = Seq::new(out@.len(), |k: int| out@[k]@);
            match &props[i].validator {
                Some(v) => {
                    let ghost before = out@;
                    out.push(&v.pattern);
                    assert(out@[out@.len() - 1]@ == v.pattern@);
                    assert(pattern_of(self@.properties[i as int]) == Some(v.pattern@));
                    assert(carries(self@.properties, v.pattern@));
                    assert forall|k: int| 0 <= k < out@.len() implies carries(
                        self@.properties,
                        (#[trigger] out@[k])@,
                    ) by {
                        if k < before.len() {
                            assert(out@[k] == before[k]);
                        }
                    }
                    assert forall|j: int|
                        0 <= j < i + 1 && (#[trigger] pattern_of(self@.properties[j])) is Some implies listed(
                            out@,
                            pattern_of(self@.properties[j])->Some_0,
                        ) by {
                        if j < i {
                            let k = choose|k: int|
                                0 <= k < before.len() && (#[trigger] before[k])@ == pattern_of(
                                    self@.properties[j],
                                )->Some_0;
                            assert(out@[k] == before[k]);
                        } else {
                            assert(out@[out@.len() - 1]@ == pattern_of(self@.properties[j])->Some_0);
                        }
                    }
                    assert(Seq::new(out@.len(), |k: int| out@[k]@) =~= before_views + seq![
                        v.pattern@,
                    ]);
                },
                None => {},
            }
            i = i + 1;
        }
        assert(self@.properties.subrange(0, props@.len() as int) =~= self@.properties);
        out
    }

    /// Whether the declaration names a parent type.
    pub fn has_supertype(&self) -> (r: bool)
        ensures
            r == self@.super_type is Some,
    {
        self.inner.super_type.is_some()
    }

    /// The declaration's parent type reference, if any.
    pub fn get_supertype(&self) -> (r: Option<&TypeRef>)
        ensures
            match r {
                Some(t) => self@.super_type == Some(t@),
                None => self@.super_type is None,
            },
    {
        match &self.inner.super_type {
            Some(inner) => Some(inner),
            None => None,
        }
    }
}

/// The content of a registry: the namespace of its metamodel and its
/// entries in declaration order.
pub struct RegistryView {
    pub namespace: Seq<char>,
    pub types: Seq<(Seq<char>, DeclarationView)>,
}

/// The last entry of `types[0..k]` with the given key.
pub open spec fn type_named_upto(types: Seq<(Seq<char>, DeclarationView)>, name: Seq<char>, k: int) -> Option<
    DeclarationView,
>
    decreases k,
{
    if k <= 0 || k > types.len() {
        None
    } else if types[k - 1].0 == name {
        Some(types[k - 1].1)
    } else {
        type_named_upto(types, name, k - 1)
    }
}

pub proof fn lemma_type_named_in(types: Seq<(Seq<char>, DeclarationView)>, name: Seq<char>, k: int)
    requires
        type_named_upto(types, name, k) is Some,
    ensures
        exists|i: int|
            0 <= i < types.len() && types[i].1 == type_named_upto(types, name, k)->Some_0,
    decreases k,
{
    if types[k - 1].0 != name {
        lemma_type_named_in(types, name, k - 1);
    }
}

impl RegistryView {
    /// The declaration registered under a qualified name: a later
    /// declaration with the same qualified name replaces an earlier one.
    pub open spec fn get(self, name: Seq<char>) -> Option<DeclarationView> {
        type_named_upto(self.types, name, self.types.len() as int)
    }
}

/// Whether no two entries share a key.
pub open spec fn unique_keys(types: Seq<(Seq<char>, DeclarationView)>) -> bool {
    forall|i: int, j: int|
        0 <= i < types.len() && 0 <= j < types.len() && i != j ==> #[trigger] types[i].0
            != #[trigger] types[j].0
}

/// The entries after registering `d` under `key`: it takes the place of the
/// entry with that key, if there is one, and is appended otherwise.
pub open spec fn upsert(
    types: Seq<(Seq<char>, DeclarationView)>,
    key: Seq<char>,
    d: DeclarationView,
) -> Seq<(Seq<char>, DeclarationView)> {
    if exists|i: int| 0 <= i < types.len() && #[trigger] types[i].0 == key {
        let i = choose|i: int| 0 <= i < types.len() && #[trigger] types[i].0 == key;
        types.update(i, (key, d))
    } else {
        types.push((key, d))
    }
}

/// The entries of a registry that registers `decls` in order: one entry per
/// qualified name, holding the last declaration of that name.
pub open spec fn registry_entries(namespace: Seq<char>, decls: Seq<DeclarationView>) -> Seq<
    (Seq<char>, DeclarationView),
>
    decreases decls.len(),
{
    if decls.len() == 0 {
        Seq::empty()
    } else {
        upsert(
            registry_entries(namespace, decls.drop_last()),
            qualified(namespace, decls.last().name),
            decls.last(),
        )
    }
}

proof fn lemma_upsert_unique(
    types: Seq<(Seq<char>, DeclarationView)>,
    key: Seq<char>,
    d: DeclarationView,
)
    requires
        unique_keys(types),
    ensures
        unique_keys(upsert(types, key, d)),
{
    let u = upsert(types, key, d);
    if exists|i: int| 0 <= i < types.len() && #[trigger] types[i].0 == key {
        let c = choose|i: int| 0 <= i < types.len() && #[trigger] types[i].0 == key;
        assert forall|i: int, j: int|
            0 <= i < u.len() && 0 <= j < u.len() && i != j implies #[trigger] u[i].0
            != #[trigger] u[j].0 by {
            if i != c && j != c {
                assert(u[i] == types[i] && u[j] == types[j]);
            } else if i == c {
                assert(u[j] == types[j]);
                assert(types[c].0 != types[j].0);
            } else {
                assert(u[i] == types[i]);
                assert(types[c].0 != types[i].0);
            }
        }
    } else {
        assert forall|i: int, j: int|
            0 <= i < u.len() && 0 <= j < u.len() && i != j implies #[trigger] u[i].0
            != #[trigger] u[j].0 by {
            if i < types.len() && j < types.len() {
                assert(u[i] == types[i] && u[j] == types[j]);
            } else if i < types.len() {
                assert(u[i] == types[i]);
            } else {
                assert(u[j] == types[j]);
            }
        }
    }
}

/// A registry built from declarations has one entry per qualified name.
pub proof fn lemma_registry_entries_unique(namespace: Seq<char>, decls: Seq<DeclarationView>)
    ensures
        unique_keys(registry_entries(namespace, decls)),
    decreases decls.len(),
{
    if decls.len() > 0 {
        lemma_registry_entries_unique(namespace, decls.drop_last());
        lemma_upsert_unique(
            registry_entries(namespace, decls.drop_last()),
            qualified(namespace, decls.last().name),
            decls.last(),
        );
    }
}

/// The declarations of a metamodel document's `declarations` array, read
/// from JSON.
pub open spec fn decoded_declarations(items: Seq<Json>) -> Seq<DeclarationView> {
    Seq::new(items.len(), |k: int| decode_declaration(items[k])->Some_0)
}

/// The registry that a metamodel document compiles to, or why it does not.
pub open spec fn metamodel_registry(meta: Json) -> Result<RegistryView, MetamodelFault> {
    match meta {
        Json::Object(m) => match member(m@, "declarations"@) {
            Some(Json::Array(items)) => match str_member(m@, "namespace"@) {
                Some(ns) => if forall|k: int|
                    0 <= k < items@.len() ==> (#[trigger] decode_declaration(items@[k])) is Some {
                    Ok(
                        RegistryView {
                            namespace: ns,
                            types: registry_entries(ns, decoded_declarations(items@)),
                        },
                    )
                } else {
                    Err(MetamodelFault::MalformedDeclaration)
                },
                None => Err(MetamodelFault::MissingNamespace),
            },
            _ => Err(MetamodelFault::MissingDeclarations),
        },
        _ => Err(MetamodelFault::MissingDeclarations),
    }
}

/// The entries of a registry, seen through their views.
pub open spec fn entries_view(types: Seq<(String, TypeDefinition)>) -> Seq<
    (Seq<char>, DeclarationView),
> {
    Seq::new(types.len(), |k: int| (types[k].0@, types[k].1@))
}

/// The position of the entry with the given key, if there is one.
fn key_position(types: &Vec<(String, TypeDefinition)>, key: &String) -> (r: Option<usize>)
    ensures
        match r {
            Some(j) => j < types@.len() && entries_view(types@)[j as int].0 == key@,
            None => forall|c: int|
                0 <= c < types@.len() ==> #[trigger] entries_view(types@)[c].0 != key@,
        },
{
    let mut j: usize = 0;
    while j < types.len()
        invariant
            j <= types@.len(),
            forall|c: int| 0 <= c < j ==> #[trigger] entries_view(types@)[c].0 != key@,
        decreases types.len() - j,
    {
        if types[j].0 == *key {
            return Some(j);
        }
        j = j + 1;
    }
    None
}

/// The type registry: qualified name to type definition, one entry per
/// name.
#[derive(Debug)]
pub struct TypeRegistry {
    namespace: String,
    types: Vec<(String, TypeDefinition)>,
}

impl View for TypeRegistry {
    type V = RegistryView;

    closed spec fn view(&self) -> RegistryView {
        RegistryView {
            namespace: self.namespace@,
            types: entries_view(self.types@),
        }
    }
}

pub fn qualified_name(namespace: &str, name: &str) -> (r: String)
    ensures
        r@ == qualified(namespace@, name@),
{
    let mut q = String::from_str(namespace);
    q.append(".");
    q.append(name);
    q
}

impl TypeRegistry {
    /// Compiles a metamodel document into a registry. A declaration whose
    /// qualified name repeats an earlier one takes its place.
    pub fn from_metamodel(meta: &Json) -> (r: Result<TypeRegistry, ValidationError>)
        ensures
            match r {
                Ok(reg) => metamodel_registry(*meta) == Ok::<RegistryView, MetamodelFault>(reg@)
                    && unique_keys(reg@.types),
                Err(e) => metamodel_registry(*meta) matches Err(fault) && e
                    == (ValidationError::MetamodelError { fault }),
            },
    {
        let m = match meta {
            Json::Object(m) => m,
            _ => {
                return Err(
                    ValidationError::MetamodelError { fault: MetamodelFault::MissingDeclarations },
                );
            },
        };
        let items = match get_member(m, "declarations") {
            Some(Json::Array(items)) => items,
            _ => {
                return Err(
                    ValidationError::MetamodelError { fault: MetamodelFault::MissingDeclarations },
                );
            },
        };
        let namespace = match get_member(m, "namespace") {
            Some(Json::Str(ns)) => ns,
            _ => {
                return Err(
                    ValidationError::MetamodelError { fault: MetamodelFault::MissingNamespace },
                );
            },
        };
        let ghost decls = decoded_declarations(items@);
        let mut types: Vec<(String, TypeDefinition)> = Vec::new();
        let mut i: usize = 0;
        assert(str_member(m@, "namespace"@) == Some(namespace@));
        assert(decls.subrange(0, 0) =~= Seq::<DeclarationView>::empty());
        while i < items.len()
            invariant
                *meta == Json::Object(*m),
                member(m@, "declarations"@) == Some(Json::Array(*items)),
                str_member(m@, "namespace"@) == Some(namespace@),
                decls == decoded_declarations(items@),
                i <= items@.len(),
                forall|k: int| 0 <= k < i ==> (#[trigger] decode_declaration(items@[k])) is Some,
                entries_view(types@) == registry_entries(namespace@, decls.subrange(0, i as int)),
                unique_keys(entries_view(types@)),
            decreases items.len() - i,
        {
            match ConceptDeclaration::from_json(&items[i]) {
                Some(d) => {
                    let ghost before = entries_view(types@);
                    let ghost dv = d@;
                    let key = qualified_name(namespace.as_str(), d.name.as_str());
                    proof {
                        let pre = decls.subrange(0, i as int + 1);
                        assert(pre.drop_last() =~= decls.subrange(0, i as int));
                        assert(pre.last() == dv);
                    }
                    match key_position(&types, &key) {
                        Some(j) => {
                            types.set(j, (key, TypeDefinition::new(d)));
                            proof {
                                let c = choose|c: int|
                                    0 <= c < before.len() && #[trigger] before[c].0 == key@;
                                assert(before[j as int].0 == key@);
                                assert(c == j);
                                assert(entries_view(types@) =~= before.update(j as int, (key@, dv)));
                            }
                        },
                        None => {
                            types.push((key, TypeDefinition::new(d)));
                            proof {
                                assert(!exists|c: int| 0 <= c < before.len() && #[trigger] before[c].0 == key@);
                                assert(entries_view(types@) =~= before.push((key@, dv)));
                            }
                        },
                    }
                    proof {
                        lemma_upsert_unique(before, key@, dv);
                    }
                },
                None => {
                    assert(!(decode_declaration(items@[i as int]) is Some));
                    return Err(
                        ValidationError::MetamodelError {
                            fault: MetamodelFault::MalformedDeclaration,
                        },
                    );
                },
            }
            i = i + 1;
        }
        let reg = TypeRegistry { namespace: namespace.clone(), types };
        proof {
            assert(decls.subrange(0, items@.len() as int) =~= decls);
        }
        Ok(reg)
    }

    /// The namespace of the metamodel the registry was compiled from.
    pub fn namespace(&self) -> (r: &String)
        ensures
            r@ == self@.namespace,
    {
        &self.namespace
    }

    /// The number of types registered: one per distinct qualified name.
    pub fn len(&self) -> (r: usize)
        ensures
            r == self@.types.len(),
    {
        self.types.len()
    }

    /// The definition at a position of the registry.
    pub fn definition_at(&self, k: usize) -> (r: &TypeDefinition)
        requires
            k < self@.types.len(),
        ensures
            r@ == self@.types[k as int].1,
    {
        &self.types[k].1
    }

    /// The type definition registered under a qualified name.
    pub fn get(&self, name: &String) -> (r: Option<&TypeDefinition>)
        ensures
            match r {
                Some(t) => self@.get(name@) == Some(t@),
                None => self@.get(name@) is None,
            },
    {
        let mut k: usize = self.types.len();
        while k > 0
            invariant
                k <= self.types@.len(),
                self@.get(name@) == type_named_upto(self@.types, name@, k as int),
            decreases k,
        {
            if self.types[k - 1].0 == *name {
                return Some(&self.types[k - 1].1);
            }
            k = k - 1;
        }
        None
    }
}

} // verus!
