//! The cache of compiled string-validator patterns.
//!
//! Every pattern that a registry's string properties carry is compiled
//! once, when the cache is built; a pattern that does not compile is left
//! out, so that a value checked against it fails.
use vstd::prelude::*;

use crate::ast::{DeclarationView, PropertyView};
use crate::registry::{carries, RegistryView, TypeDefinition, TypeRegistry};

verus! {

#[verifier::external_type_specification]
#[verifier::external_body]
pub struct ExRegex(regex::Regex);

/// Whether the regex crate accepts a pattern's text.
pub uninterp spec fn pattern_compiles(pattern: Seq<char>) -> bool;

/// Whether a compiled pattern matches somewhere in a text.
pub uninterp spec fn pattern_finds(pattern: Seq<char>, text: Seq<char>) -> bool;

/// A pattern together with the matcher compiled from it. Only
/// `compile_pattern` builds one, so the matcher is always that of `source`.
pub struct CompiledPattern {
    source: String,
    regex: regex::Regex,
}

impl View for CompiledPattern {
    type V = Seq<char>;

    closed spec fn view(&self) -> Seq<char> {
        self.source@
    }
}

/// Relies on `regex::Regex::new`: it compiles a pattern or refuses it, and
/// which of the two depends on the pattern's text alone.
#[verifier::external_body]
fn compile_pattern(pattern: &String) -> (r: Option<CompiledPattern>)
    ensures
        r is Some <==> pattern_compiles(pattern@),
        r matches Some(c) ==> c@ == pattern@,
{
    match regex::Regex::new(pattern) {
        Ok(regex) => Some(CompiledPattern { source: pattern.clone(), regex }),
        Err(_) => None,
    }
}

/// Relies on `regex::Regex::is_match`: whether the pattern matches some
/// part of the text, which depends on the two texts alone.
#[verifier::external_body]
fn pattern_is_match(c: &CompiledPattern, text: &str) -> (r: bool)
    ensures
        r == pattern_finds(c@, text@),
{
    c.regex.is_match(text)
}

/// The pattern that a property's validator carries, if it has one.
pub open spec fn pattern_of(p: PropertyView) -> Option<Seq<char>> {
    match p.validator {
        Some(v) => Some(v.pattern),
        None => None,
    }
}

/// Whether some string property of a registry carries the pattern.
pub open spec fn referenced(reg: RegistryView, pattern: Seq<char>) -> bool {
    exists|i: int, k: int|
        0 <= i < reg.types.len() && 0 <= k < reg.types[i].1.properties.len() && pattern_of(
            #[trigger] reg.types[i].1.properties[k],
        ) == Some(pattern)
}

/// Compiled patterns, keyed by their text, and the texts that were tried
/// and did not compile.
pub struct RegexCache {
    patterns: Vec<CompiledPattern>,
    refused: Vec<String>,
}

impl RegexCache {
    /// Whether the cache holds a compiled form of the pattern.
    pub closed spec fn holds(&self, pattern: Seq<char>) -> bool {
        exists|i: int| 0 <= i < self.patterns@.len() && #[trigger] self.patterns@[i]@ == pattern
    }

    /// Every pattern held compiles, and no pattern tried in vain does.
    pub closed spec fn wf(&self) -> bool {
        &&& forall|i: int|
            0 <= i < self.patterns@.len() ==> pattern_compiles(#[trigger] self.patterns@[i]@)
        &&& forall|i: int| 0 <= i < self.refused@.len() ==> !pattern_compiles(#[trigger] self.refused@[i]@)
    }

    /// Whether the cache holds exactly the compiling patterns among those
    /// of a type definition.
    pub open spec fn covers(&self, t: DeclarationView) -> bool {
        forall|k: int|
            0 <= k < t.properties.len() && pattern_of(#[trigger] t.properties[k]) is Some ==> (
            self.holds(pattern_of(t.properties[k])->Some_0) <==> pattern_compiles(
                pattern_of(t.properties[k])->Some_0,
            ))
    }

    pub fn new() -> (r: RegexCache)
        ensures
            r.wf(),
            forall|p: Seq<char>| !r.holds(p),
    {
        RegexCache { patterns: Vec::new(), refused: Vec::new() }
    }

    /// The position of a pattern in the cache, if it is held.
    fn position(&self, pattern: &String) -> (r: Option<usize>)
        ensures
            r is Some <==> self.holds(pattern@),
            r matches Some(i) ==> i < self.patterns@.len() && self.patterns@[i as int]@ == pattern@,
    {
        let mut i: usize = 0;
        while i < self.patterns.len()
            invariant
                i <= self.patterns@.len(),
                forall|j: int| 0 <= j < i ==> #[trigger] self.patterns@[j]@ != pattern@,
            decreases self.patterns.len() - i,
        {
            if self.patterns[i].source == *pattern {
                assert(self.patterns@[i as int]@ == pattern@);
                return Some(i);
            }
            i = i + 1;
        }
        None
    }

    /// Whether the pattern was tried before and did not compile.
    fn was_refused(&self, pattern: &String) -> (r: bool)
        requires
            self.wf(),
        ensures
            r ==> !pattern_compiles(pattern@),
    {
        let mut i: usize = 0;
        while i < self.refused.len()
            invariant
                self.wf(),
                i <= self.refused@.len(),
            decreases self.refused.len() - i,
        {
            if self.refused[i] == *pattern {
                assert(!pattern_compiles(self.refused@[i as int]@));
                return true;
            }
            i = i + 1;
        }
        false
    }

    /// Compiles a pattern into the cache, unless it was tried before or
    /// does not compile.
    pub fn insert(&mut self, pattern: &String)
        requires
            old(self).wf(),
        ensures
            final(self).wf(),
            forall|p: Seq<char>|
                #[trigger] final(self).holds(p) <==> (old(self).holds(p) || (p == pattern@
                    && pattern_compiles(p))),
    {
        if self.position(pattern).is_some() || self.was_refused(pattern) {
            return;
        }
        match compile_pattern(pattern) {
            Some(c) => {
                let ghost before = self.patterns@;
                self.patterns.push(c);
                assert forall|p: Seq<char>|
                    #[trigger] self.holds(p) <==> (old(self).holds(p) || (p == pattern@
                        && pattern_compiles(p))) by {
                    if old(self).holds(p) {
                        let i = choose|i: int| 0 <= i < before.len() && #[trigger] before[i]@ == p;
                        assert(self.patterns@[i] == before[i]);
                    }
                    if self.holds(p) {
                        let i = choose|i: int|
                            0 <= i < self.patterns@.len() && #[trigger] self.patterns@[i]@ == p;
                        if i < before.len() {
                            assert(self.patterns@[i] == before[i]);
                        }
                    }
                    if p == pattern@ {
                        assert(self.patterns@[before.len() as int]@ == p);
                    }
                }
            },
            None => {
                self.refused.push(pattern.clone());
            },
        }
    }

    /// Adds the patterns of one type definition.
    fn insert_all(&mut self, t: &TypeDefinition)
        requires
            old(self).wf(),
        ensures
            final(self).wf(),
            final(self).covers(t@),
            forall|p: Seq<char>| old(self).holds(p) ==> #[trigger] final(self).holds(p),
            forall|p: Seq<char>|
                #[trigger] final(self).holds(p) ==> old(self).holds(p) || carries(
                    t@.properties,
                    p,
                ),
    {
        let patterns = t.get_string_validator_patterns();
        let mut k: usize = 0;
        while k < patterns.len()
            invariant
                self.wf(),
                k <= patterns@.len(),
                forall|i: int|
                    0 <= i < k ==> (self.holds((#[trigger] patterns@[i])@) <==> pattern_compiles(
                        patterns@[i]@,
                    )),
                forall|p: Seq<char>| old(self).holds(p) ==> #[trigger] self.holds(p),
                forall|p: Seq<char>|
                    #[trigger] self.holds(p) ==> old(self).holds(p) || carries(t@.properties, p),
                forall|i: int| 0 <= i < patterns@.len() ==> carries(t@.properties, (#[trigger] patterns@[i])@),
            decreases patterns.len() - k,
        {
            self.insert(patterns[k]);
            k = k + 1;
        }
        assert forall|j: int|
            0 <= j < t@.properties.len() && pattern_of(#[trigger] t@.properties[j]) is Some implies (
            self.holds(pattern_of(t@.properties[j])->Some_0) <==> pattern_compiles(
                pattern_of(t@.properties[j])->Some_0,
            )) by {
            let i = choose|i: int|
                0 <= i < patterns@.len() && (#[trigger] patterns@[i])@ == pattern_of(
                    t@.properties[j],
                )->Some_0;
        }
    }

    /// Compiles every pattern that the registry's string properties carry.
    pub fn from_registry(reg: &TypeRegistry) -> (r: RegexCache)
        ensures
            r.wf(),
            forall|p: Seq<char>| referenced(reg@, p) ==> (r.holds(p) <==> pattern_compiles(p)),
            forall|p: Seq<char>| #[trigger] r.holds(p) ==> referenced(reg@, p),
    {
        let mut cache = RegexCache::new();
        let mut i: usize = 0;
        while i < reg.len()
            invariant
                cache.wf(),
                i <= reg@.types.len(),
                forall|j: int| 0 <= j < i ==> cache.covers(#[trigger] reg@.types[j].1),
                forall|p: Seq<char>|
                    #[trigger] cache.holds(p) ==> exists|j: int|
                        0 <= j < i && carries(reg@.types[j].1.properties, p),
            decreases reg@.types.len() - i,
        {
            let ghost before = cache;
            cache.insert_all(reg.definition_at(i));
            assert forall|p: Seq<char>| #[trigger] cache.holds(p) implies exists|j: int|
                0 <= j < i + 1 && carries(reg@.types[j].1.properties, p) by {
                if before.holds(p) {
                    let j = choose|j: int| 0 <= j < i && carries(reg@.types[j].1.properties, p);
                } else {
                    assert(carries(reg@.types[i as int].1.properties, p));
                }
            }
            assert forall|j: int| 0 <= j < i + 1 implies cache.covers(#[trigger] reg@.types[j].1) by {
                if j < i {
                    assert(before.covers(reg@.types[j].1));
                    assert forall|k: int|
                        0 <= k < reg@.types[j].1.properties.len() && pattern_of(
                            #[trigger] reg@.types[j].1.properties[k],
                        ) is Some implies (cache.holds(
                        pattern_of(reg@.types[j].1.properties[k])->Some_0,
                    ) <==> pattern_compiles(pattern_of(reg@.types[j].1.properties[k])->Some_0)) by {
                        let v = pattern_of(reg@.types[j].1.properties[k])->Some_0;
                        assert(before.holds(v) <==> pattern_compiles(v));
                    }
                }
            }
            i = i + 1;
        }
        assert forall|p: Seq<char>| referenced(reg@, p) implies (cache.holds(p) <==> pattern_compiles(p)) by {
            let (i, k) = choose|i: int, k: int|
                0 <= i < reg@.types.len() && 0 <= k < reg@.types[i].1.properties.len()
                    && pattern_of(#[trigger] reg@.types[i].1.properties[k]) == Some(p);
            assert(cache.covers(reg@.types[i].1));
        }
        assert forall|p: Seq<char>| #[trigger] cache.holds(p) implies referenced(reg@, p) by {
            let j = choose|j: int| 0 <= j < reg@.types.len() && carries(reg@.types[j].1.properties, p);
            let k = choose|k: int|
                0 <= k < reg@.types[j].1.properties.len() && #[trigger] pattern_of(
                    reg@.types[j].1.properties[k],
                ) == Some(p);
            assert(pattern_of(reg@.types[j].1.properties[k]) == Some(p));
        }
        cache
    }

    /// Checks a text against a held pattern: `None` when the cache does
    /// not hold the pattern.
    pub fn find(&self, pattern: &String, text: &str) -> (r: Option<bool>)
        requires
            self.wf(),
        ensures
            r is Some <==> self.holds(pattern@),
            r is Some ==> pattern_compiles(pattern@),
            r matches Some(b) ==> b == pattern_finds(pattern@, text@),
    {
        match self.position(pattern) {
            Some(i) => Some(pattern_is_match(&self.patterns[i], text)),
            None => None,
        }
    }
}

} // verus!
