//! Laws of validation, proved over the spec of [`crate::model_manager`].
//!
//! Each law speaks of `value_result(reg, ..)` for an arbitrary registry
//! `reg`. `ModelManager::validate_resource`, `ModelManager::validate_metamodel`
//! and `Validator::validate_value` each return exactly `value_result(m@, ..)`
//! for their manager `m`, so every law holds of what those functions return.
use vstd::prelude::*;

use crate::ast::{DeclarationView, PropertyKind, PropertyView};
use crate::error::{ExpectedKind, Failure};
use crate::json::{has_key, lemma_member_has_key, member, member_from, Json};
use crate::model_manager::{
    effective_prop, elements_result, first_missing_from, first_unknown_from, leaf_result,
    members_result, missing_required, property_result, resolve_parent, value_result,
};
use crate::regex_cache::{pattern_compiles, pattern_finds};
use crate::registry::RegistryView;

verus! {

/// The property that a key names on the type of an instance, as the
/// instance's `$class` resolves it in the registry.
pub open spec fn instance_property(
    reg: RegistryView,
    members: Seq<(String, Json)>,
    key: Seq<char>,
) -> Option<PropertyView> {
    match member(members, "$class"@) {
        Some(Json::Str(c)) => match reg.get(c@) {
            Some(d) => match resolve_parent(reg, d) {
                Ok(parent) => effective_prop(d.properties, parent, key),
                Err(_) => None,
            },
            None => None,
        },
        _ => None,
    }
}

/// The check that `members_result` makes of member `i`.
pub open spec fn member_result(
    reg: RegistryView,
    members: Seq<(String, Json)>,
    own: Seq<PropertyView>,
    parent: Option<DeclarationView>,
    i: int,
) -> Result<(), Failure> {
    if members[i].0@ == "$class"@ {
        Ok(())
    } else {
        match effective_prop(own, parent, members[i].0@) {
            Some(p) => property_result(reg, p, members[i].1),
            None => Ok(()),
        }
    }
}

proof fn lemma_members_ok(
    reg: RegistryView,
    m: Vec<(String, Json)>,
    own: Seq<PropertyView>,
    parent: Option<DeclarationView>,
    i: int,
)
    requires
        0 <= i,
        members_result(reg, Json::Object(m), own, parent, i) is Ok,
    ensures
        forall|t: int|
            i <= t < m@.len() ==> (#[trigger] member_result(reg, m@, own, parent, t)) is Ok,
    decreases m@.len() - i,
{
    if i < m@.len() {
        lemma_members_ok(reg, m, own, parent, i + 1);
    }
}

proof fn lemma_members_all_ok(
    reg: RegistryView,
    m: Vec<(String, Json)>,
    own: Seq<PropertyView>,
    parent: Option<DeclarationView>,
    i: int,
)
    requires
        0 <= i,
        forall|t: int|
            i <= t < m@.len() ==> (#[trigger] member_result(reg, m@, own, parent, t)) is Ok,
    ensures
        members_result(reg, Json::Object(m), own, parent, i) == Ok::<(), Failure>(()),
    decreases m@.len() - i,
{
    if i < m@.len() {
        lemma_members_all_ok(reg, m, own, parent, i + 1);
        assert(member_result(reg, m@, own, parent, i) is Ok);
        let j = Json::Object(m);
        assert(j->Object_0 == m);
        assert(members_result(reg, j, own, parent, i) == match member_result(reg, m@, own, parent, i) {
            Err(f) => Err(f),
            Ok(()) => members_result(reg, j, own, parent, i + 1),
        });
    }
}

/// When every member before `pos` passes, the outcome is that of member
/// `pos`, then of the rest.
proof fn lemma_members_reach(
    reg: RegistryView,
    m: Vec<(String, Json)>,
    own: Seq<PropertyView>,
    parent: Option<DeclarationView>,
    i: int,
    pos: int,
)
    requires
        0 <= i <= pos < m@.len(),
        forall|t: int| i <= t < pos ==> (#[trigger] member_result(reg, m@, own, parent, t)) is Ok,
    ensures
        members_result(reg, Json::Object(m), own, parent, i) == match member_result(
            reg,
            m@,
            own,
            parent,
            pos,
        ) {
            Err(f) => Err(f),
            Ok(()) => members_result(reg, Json::Object(m), own, parent, pos + 1),
        },
    decreases pos - i,
{
    let j = Json::Object(m);
    assert(j->Object_0 == m);
    assert(members_result(reg, j, own, parent, i) == match member_result(reg, m@, own, parent, i) {
        Err(f) => Err(f),
        Ok(()) => members_result(reg, j, own, parent, i + 1),
    });
    if i < pos {
        lemma_members_reach(reg, m, own, parent, i + 1, pos);
    }
}

/// Two objects with the same keys, and the same value under `key`, agree
/// on the lookup of `key`.
proof fn lemma_member_same(a: Seq<(String, Json)>, b: Seq<(String, Json)>, key: Seq<char>, t: int)
    requires
        a.len() == b.len(),
        forall|i: int| 0 <= i < a.len() ==> (#[trigger] a[i]).0@ == b[i].0@,
        forall|i: int| 0 <= i < a.len() && (#[trigger] a[i]).0@ == key ==> a[i].1 == b[i].1,
    ensures
        member_from(a, key, t) == member_from(b, key, t),
    decreases a.len() - t,
{
    if 0 <= t < a.len() {
        lemma_member_same(a, b, key, t + 1);
    }
}

proof fn lemma_unknown_same(
    a: Seq<(String, Json)>,
    b: Seq<(String, Json)>,
    own: Seq<PropertyView>,
    parent: Option<DeclarationView>,
    t: int,
)
    requires
        a.len() == b.len(),
        forall|i: int| 0 <= i < a.len() ==> (#[trigger] a[i]).0@ == b[i].0@,
    ensures
        first_unknown_from(a, own, parent, t) == first_unknown_from(b, own, parent, t),
    decreases a.len() - t,
{
    if 0 <= t < a.len() {
        assert(a[t].0@ == b[t].0@);
        lemma_unknown_same(a, b, own, parent, t + 1);
    }
}

proof fn lemma_missing_same(
    props: Seq<PropertyView>,
    a: Seq<(String, Json)>,
    b: Seq<(String, Json)>,
    t: int,
)
    requires
        forall|n: Seq<char>| has_key(a, n) == #[trigger] has_key(b, n),
    ensures
        first_missing_from(props, a, t) == first_missing_from(props, b, t),
    decreases props.len() - t,
{
    if 0 <= t < props.len() {
        assert(has_key(a, props[t].name) == has_key(b, props[t].name));
        lemma_missing_same(props, a, b, t + 1);
    }
}

proof fn lemma_has_key_same(a: Seq<(String, Json)>, b: Seq<(String, Json)>)
    requires
        a.len() == b.len(),
        forall|i: int| 0 <= i < a.len() ==> (#[trigger] a[i]).0@ == b[i].0@,
    ensures
        forall|n: Seq<char>| has_key(a, n) == #[trigger] has_key(b, n),
{
    assert forall|n: Seq<char>| has_key(a, n) == #[trigger] has_key(b, n) by {
        if has_key(a, n) {
            let i = choose|i: int| 0 <= i < a.len() && #[trigger] a[i].0@ == n;
            assert(b[i].0@ == n);
        }
        if has_key(b, n) {
            let i = choose|i: int| 0 <= i < b.len() && #[trigger] b[i].0@ == n;
            assert(a[i].0@ == n);
        }
    }
}

proof fn lemma_unknown_none(
    m: Seq<(String, Json)>,
    own: Seq<PropertyView>,
    parent: Option<DeclarationView>,
    t: int,
)
    requires
        0 <= t,
    ensures
        first_unknown_from(m, own, parent, t) is None <==> forall|j: int|
            t <= j < m.len() ==> (#[trigger] m[j]).0@ == "$class"@ || effective_prop(
                own,
                parent,
                m[j].0@,
            ) is Some,
    decreases m.len() - t,
{
    if t < m.len() {
        lemma_unknown_none(m, own, parent, t + 1);
    }
}

/// Changing the value of one member of a valid instance, under a key other
/// than `$class`, leaves exactly the check of that member's new value.
pub proof fn lemma_substitute_member(
    reg: RegistryView,
    base: Vec<(String, Json)>,
    changed: Vec<(String, Json)>,
    pos: int,
)
    requires
        value_result(reg, Json::Object(base)) is Ok,
        0 <= pos < base@.len(),
        changed@.len() == base@.len(),
        forall|i: int| 0 <= i < base@.len() && i != pos ==> #[trigger] changed@[i] == base@[i],
        changed@[pos].0@ == base@[pos].0@,
        base@[pos].0@ != "$class"@,
    ensures
        instance_property(reg, base@, base@[pos].0@) is Some,
        value_result(reg, Json::Object(changed)) == property_result(
            reg,
            instance_property(reg, base@, base@[pos].0@)->Some_0,
            changed@[pos].1,
        ),
{
    let a = base@;
    let b = changed@;
    assert forall|i: int| 0 <= i < a.len() implies (#[trigger] a[i]).0@ == b[i].0@ by {
        if i != pos {
            assert(b[i] == a[i]);
        }
    }
    assert forall|i: int| 0 <= i < a.len() && (#[trigger] a[i]).0@ == "$class"@ implies a[i].1
        == b[i].1 by {
        if i != pos {
            assert(b[i] == a[i]);
        }
    }
    lemma_member_same(a, b, "$class"@, 0);
    lemma_has_key_same(a, b);
    let c = member(a, "$class"@)->Some_0->Str_0;
    let d = reg.get(c@)->Some_0;
    let parent = resolve_parent(reg, d)->Ok_0;
    let own = d.properties;
    lemma_unknown_same(a, b, own, parent, 0);
    lemma_missing_same(own, a, b, 0);
    if let Some(pd) = parent {
        lemma_missing_same(pd.properties, a, b, 0);
    }
    lemma_unknown_none(a, own, parent, 0);
    assert(a[pos].0@ == "$class"@ || effective_prop(own, parent, a[pos].0@) is Some);
    lemma_members_ok(reg, base, own, parent, 0);
    assert forall|t: int| 0 <= t < pos implies (#[trigger] member_result(
        reg,
        b,
        own,
        parent,
        t,
    )) is Ok by {
        assert(b[t] == a[t]);
        assert(member_result(reg, a, own, parent, t) is Ok);
    }
    assert forall|t: int| pos + 1 <= t < b.len() implies (#[trigger] member_result(
        reg,
        b,
        own,
        parent,
        t,
    )) is Ok by {
        assert(b[t] == a[t]);
        assert(member_result(reg, a, own, parent, t) is Ok);
    }
    lemma_members_all_ok(reg, changed, own, parent, pos + 1);
    lemma_members_reach(reg, changed, own, parent, 0, pos);
    assert(missing_required(own, parent, a) == missing_required(own, parent, b));
    assert(value_result(reg, Json::Object(changed)) == members_result(
        reg,
        Json::Object(changed),
        own,
        parent,
        0,
    ));
    let p = effective_prop(own, parent, a[pos].0@)->Some_0;
    assert(member_result(reg, b, own, parent, pos) == property_result(reg, p, b[pos].1));
    let rest = members_result(reg, Json::Object(changed), own, parent, pos + 1);
    assert(rest == Ok::<(), Failure>(()));
    assert(instance_property(reg, a, a[pos].0@) == Some(p));
    let pr = property_result(reg, p, b[pos].1);
    let total = members_result(reg, Json::Object(changed), own, parent, 0);
    assert(total == match pr {
        Err(f) => Err(f),
        Ok(()) => rest,
    });
    match pr {
        Ok(u) => {
            assert(u == ());
            assert(total == pr);
        },
        Err(f) => {
            assert(total == pr);
        },
    }
}

/// An instance whose `$class` names no type of the registry fails with an
/// unknown-class error, whatever its other members are.
pub proof fn law_unknown_class(reg: RegistryView, members: Vec<(String, Json)>, class_name: String)
    requires
        member(members@, "$class"@) == Some(Json::Str(class_name)),
        reg.get(class_name@) is None,
    ensures
        value_result(reg, Json::Object(members)) == Err::<(), Failure>(
            Failure::UnknownClass { class_name: class_name@ },
        ),
{
}

/// For a property declared array-valued, in an otherwise valid instance: a
/// bare, non-array value under its key fails with a type mismatch that
/// expects an array, and the same value wrapped in a one-element array
/// passes, provided the value itself passes the property's leaf rule.
pub proof fn law_array_scalar(
    reg: RegistryView,
    base: Vec<(String, Json)>,
    bare: Vec<(String, Json)>,
    wrapped: Vec<(String, Json)>,
    pos: int,
    value: Json,
    single: Vec<Json>,
)
    requires
        value_result(reg, Json::Object(base)) is Ok,
        0 <= pos < base@.len(),
        base@[pos].0@ != "$class"@,
        instance_property(reg, base@, base@[pos].0@) is Some,
        instance_property(reg, base@, base@[pos].0@)->Some_0.is_array,
        !(value is Array),
        leaf_result(reg, instance_property(reg, base@, base@[pos].0@)->Some_0, value) is Ok,
        single@ == seq![value],
        bare@ == base@.update(pos, (base@[pos].0, value)),
        wrapped@ == base@.update(pos, (base@[pos].0, Json::Array(single))),
    ensures
        value_result(reg, Json::Object(bare)) == Err::<(), Failure>(
            Failure::TypeMismatch { expected: ExpectedKind::Array, found: value.spec_kind() },
        ),
        value_result(reg, Json::Object(wrapped)) == Ok::<(), Failure>(()),
{
    let p = instance_property(reg, base@, base@[pos].0@)->Some_0;
    assert forall|i: int| 0 <= i < base@.len() && i != pos implies #[trigger] bare@[i]
        == base@[i] by {}
    assert forall|i: int| 0 <= i < base@.len() && i != pos implies #[trigger] wrapped@[i]
        == base@[i] by {}
    lemma_substitute_member(reg, base, bare, pos);
    lemma_substitute_member(reg, base, wrapped, pos);
    let arr = Json::Array(single);
    assert(arr->Array_0 == single);
    assert(elements_result(reg, p, arr, 1) == Ok::<(), Failure>(()));
    assert(elements_result(reg, p, arr, 0) == match leaf_result(reg, p, single@[0]) {
        Err(f) => Err(f),
        Ok(()) => elements_result(reg, p, arr, 1),
    });
    match leaf_result(reg, p, value) {
        Ok(u) => {
            assert(u == ());
        },
        Err(f) => {},
    }
}

/// For a scalar string property with pattern `P`, in an otherwise valid
/// instance: a string value under its key passes exactly when `P` matches
/// it, and otherwise fails with a string-validation error naming `P` and
/// the value.
pub proof fn law_regex(
    reg: RegistryView,
    base: Vec<(String, Json)>,
    changed: Vec<(String, Json)>,
    pos: int,
    text: String,
)
    requires
        value_result(reg, Json::Object(base)) is Ok,
        0 <= pos < base@.len(),
        base@[pos].0@ != "$class"@,
        instance_property(reg, base@, base@[pos].0@) is Some,
        instance_property(reg, base@, base@[pos].0@)->Some_0.kind == PropertyKind::String,
        !instance_property(reg, base@, base@[pos].0@)->Some_0.is_array,
        instance_property(reg, base@, base@[pos].0@)->Some_0.validator is Some,
        changed@ == base@.update(pos, (base@[pos].0, Json::Str(text))),
    ensures
        ({
            let pattern = instance_property(reg, base@, base@[pos].0@)->Some_0.validator->Some_0.pattern;
            &&& value_result(reg, Json::Object(changed)) is Ok <==> pattern_finds(pattern, text@)
            &&& !pattern_finds(pattern, text@) ==> value_result(reg, Json::Object(changed))
                == Err::<(), Failure>(Failure::StringValidation { pattern, value: text@ })
        }),
{
    let p = instance_property(reg, base@, base@[pos].0@)->Some_0;
    let pattern = p.validator->Some_0.pattern;
    assert forall|i: int| 0 <= i < base@.len() && i != pos implies #[trigger] changed@[i]
        == base@[i] by {}
    lemma_substitute_member(reg, base, base, pos);
    lemma_substitute_member(reg, base, changed, pos);
    assert(pattern_compiles(pattern));
}

proof fn lemma_member_shift(
    without: Seq<(String, Json)>,
    with: Seq<(String, Json)>,
    pos: int,
    x: (String, Json),
    key: Seq<char>,
    t: int,
)
    requires
        0 <= pos <= t,
        pos <= without.len(),
        with == without.insert(pos, x),
    ensures
        member_from(with, key, t + 1) == member_from(without, key, t),
    decreases without.len() - t,
{
    if t < without.len() {
        assert(with[t + 1] == without[t]);
        lemma_member_shift(without, with, pos, x, key, t + 1);
    }
}

proof fn lemma_member_insert(
    without: Seq<(String, Json)>,
    with: Seq<(String, Json)>,
    pos: int,
    x: (String, Json),
    key: Seq<char>,
    t: int,
)
    requires
        0 <= t <= pos <= without.len(),
        with == without.insert(pos, x),
        x.0@ != key,
    ensures
        member_from(with, key, t) == member_from(without, key, t),
    decreases pos - t,
{
    if t < pos {
        assert(with[t] == without[t]);
        lemma_member_insert(without, with, pos, x, key, t + 1);
    } else {
        assert(with[pos] == x);
        lemma_member_shift(without, with, pos, x, key, t);
    }
}

proof fn lemma_unknown_insert(
    without: Seq<(String, Json)>,
    with: Seq<(String, Json)>,
    pos: int,
    x: (String, Json),
    own: Seq<PropertyView>,
    parent: Option<DeclarationView>,
    t: int,
)
    requires
        0 <= t <= pos <= without.len(),
        with == without.insert(pos, x),
        x.0@ != "$class"@,
        effective_prop(own, parent, x.0@) is None,
        forall|j: int|
            0 <= j < without.len() ==> (#[trigger] without[j]).0@ == "$class"@ || effective_prop(
                own,
                parent,
                without[j].0@,
            ) is Some,
    ensures
        first_unknown_from(with, own, parent, t) == Some(x.0@),
    decreases pos - t,
{
    if t < pos {
        assert(with[t] == without[t]);
        lemma_unknown_insert(without, with, pos, x, own, parent, t + 1);
    } else {
        assert(with[pos] == x);
    }
}

/// The name of a non-optional property among `props`.
pub open spec fn required_by(props: Seq<PropertyView>, name: Seq<char>) -> bool {
    exists|k: int| 0 <= k < props.len() && #[trigger] props[k].name == name && !props[k].is_optional
}

/// Whether the type of an instance, with its parent, requires a property
/// of the given name.
pub open spec fn instance_requires(
    reg: RegistryView,
    members: Seq<(String, Json)>,
    name: Seq<char>,
) -> bool {
    match member(members, "$class"@) {
        Some(Json::Str(c)) => match reg.get(c@) {
            Some(d) => match resolve_parent(reg, d) {
                Ok(parent) => required_by(d.properties, name) || match parent {
                    Some(pd) => required_by(pd.properties, name),
                    None => false,
                },
                Err(_) => false,
            },
            None => false,
        },
        _ => false,
    }
}

proof fn lemma_missing_none(props: Seq<PropertyView>, m: Seq<(String, Json)>, t: int)
    requires
        0 <= t,
    ensures
        first_missing_from(props, m, t) is None <==> forall|k: int|
            t <= k < props.len() ==> (#[trigger] props[k]).is_optional || has_key(m, props[k].name),
    decreases props.len() - t,
{
    if t < props.len() {
        lemma_missing_none(props, m, t + 1);
    }
}

proof fn lemma_missing_some(props: Seq<PropertyView>, m: Seq<(String, Json)>, t: int)
    requires
        0 <= t,
        first_missing_from(props, m, t) is Some,
    ensures
        exists|k: int|
            t <= k < props.len() && !(#[trigger] props[k]).is_optional && !has_key(m, props[k].name)
                && props[k].name == first_missing_from(props, m, t)->Some_0,
    decreases props.len() - t,
{
    if t < props.len() {
        if props[t].is_optional || has_key(m, props[t].name) {
            lemma_missing_some(props, m, t + 1);
        }
    }
}

proof fn lemma_has_key_remove(with: Seq<(String, Json)>, pos: int, n: Seq<char>)
    requires
        0 <= pos < with.len(),
        with[pos].0@ != n,
        has_key(with, n),
    ensures
        has_key(with.remove(pos), n),
{
    let without = with.remove(pos);
    let i = choose|i: int| 0 <= i < with.len() && #[trigger] with[i].0@ == n;
    if i < pos {
        assert(without[i] == with[i]);
    } else {
        assert(without[i - 1] == with[i]);
    }
}

/// After removing the only member named `name`, the first required property
/// missing among `props` is `name` if `props` requires it, and none
/// otherwise.
proof fn lemma_missing_after_remove(
    props: Seq<PropertyView>,
    with: Seq<(String, Json)>,
    pos: int,
)
    requires
        0 <= pos < with.len(),
        first_missing_from(props, with, 0) is None,
        !has_key(with.remove(pos), with[pos].0@),
    ensures
        first_missing_from(props, with.remove(pos), 0) == if required_by(props, with[pos].0@) {
            Some(with[pos].0@)
        } else {
            None
        },
{
    let name = with[pos].0@;
    let without = with.remove(pos);
    lemma_missing_none(props, with, 0);
    lemma_missing_none(props, without, 0);
    if first_missing_from(props, without, 0) is Some {
        lemma_missing_some(props, without, 0);
        let k = choose|k: int|
            0 <= k < props.len() && !(#[trigger] props[k]).is_optional && !has_key(
                without,
                props[k].name,
            ) && props[k].name == first_missing_from(props, without, 0)->Some_0;
        if props[k].name != name {
            lemma_has_key_remove(with, pos, props[k].name);
        }
        assert(required_by(props, name));
    } else if required_by(props, name) {
        let k = choose|k: int|
            0 <= k < props.len() && #[trigger] props[k].name == name && !props[k].is_optional;
        assert(!(props[k].is_optional || has_key(without, props[k].name)));
    }
}

/// Adding to a valid instance a member whose key is not `$class` and not
/// declared on the instance's type makes it fail with an unknown-property
/// error naming that key; taking the member away gives back the valid
/// instance.
pub proof fn law_unknown_property(
    reg: RegistryView,
    without: Vec<(String, Json)>,
    with: Vec<(String, Json)>,
    pos: int,
    key: String,
    value: Json,
)
    requires
        value_result(reg, Json::Object(without)) is Ok,
        0 <= pos <= without@.len(),
        with@ == without@.insert(pos, (key, value)),
        key@ != "$class"@,
        instance_property(reg, without@, key@) is None,
    ensures
        value_result(reg, Json::Object(with)) == Err::<(), Failure>(
            Failure::UnknownProperty {
                property_name: key@,
                class_name: member(without@, "$class"@)->Some_0->Str_0@,
            },
        ),
        with@.remove(pos) == without@,
{
    let x = (key, value);
    lemma_member_insert(without@, with@, pos, x, "$class"@, 0);
    let c = member(without@, "$class"@)->Some_0->Str_0;
    let d = reg.get(c@)->Some_0;
    let parent = resolve_parent(reg, d)->Ok_0;
    lemma_unknown_none(without@, d.properties, parent, 0);
    lemma_unknown_insert(without@, with@, pos, x, d.properties, parent, 0);
    assert(with@.remove(pos) =~= without@);
}

/// Removing from a valid instance the only member named after a required
/// property of its type makes it fail with a missing-required-property
/// error naming that property; putting the member back gives the valid
/// instance again.
pub proof fn law_required_property(
    reg: RegistryView,
    with: Vec<(String, Json)>,
    without: Vec<(String, Json)>,
    pos: int,
)
    requires
        value_result(reg, Json::Object(with)) is Ok,
        0 <= pos < with@.len(),
        without@ == with@.remove(pos),
        !has_key(without@, with@[pos].0@),
        instance_requires(reg, with@, with@[pos].0@),
    ensures
        value_result(reg, Json::Object(without)) == Err::<(), Failure>(
            Failure::MissingRequiredProperty { property: with@[pos].0@ },
        ),
        without@.insert(pos, with@[pos]) == with@,
{
    let name = with@[pos].0@;
    let x = with@[pos];
    assert(without@.insert(pos, x) =~= with@);
    if name == "$class"@ {
        lemma_member_has_key(without@, name);
    } else {
        lemma_member_insert(without@, with@, pos, x, "$class"@, 0);
        let c = member(with@, "$class"@)->Some_0->Str_0;
        let d = reg.get(c@)->Some_0;
        let parent = resolve_parent(reg, d)->Ok_0;
        lemma_unknown_none(with@, d.properties, parent, 0);
        lemma_unknown_none(without@, d.properties, parent, 0);
        assert forall|j: int| 0 <= j < without@.len() implies (#[trigger] without@[j]).0@ == "$class"@
            || effective_prop(d.properties, parent, without@[j].0@) is Some by {
            if j < pos {
                assert(without@[j] == with@[j]);
            } else {
                assert(without@[j] == with@[j + 1]);
            }
        }
        lemma_missing_after_remove(d.properties, with@, pos);
        if let Some(pd) = parent {
            lemma_missing_after_remove(pd.properties, with@, pos);
        }
    }
}

} // verus!
