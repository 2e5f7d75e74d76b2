//! The global, namespaced registry of named patterns and native functions.
//!
//! A world is populated once by packages at build time and then treated as
//! read-only: lookups are pure, and a reload produces a whole new world
//! rather than mutating one in place, so in-flight evaluations keep a
//! consistent view.

use vstd::prelude::*;

use crate::function::FunctionValue;
use crate::lang::CombKind;
use crate::pattern::{Pattern, SpecPattern};

verus! {

/// A dotted namespace prefix under which a package registers its entries.
#[derive(Debug, PartialEq, Eq)]
pub struct PackagePath {
    pub path: String,
}

impl PackagePath {
    /// A path of a single segment.
    pub fn from_part(part: &str) -> (r: PackagePath)
        ensures
            r.path@ == part@,
    {
        PackagePath { path: part.to_owned() }
    }
}

/// A named pattern definition: its declared parameter names and its body.
#[derive(Debug, PartialEq, Eq)]
pub struct PatternDef {
    pub params: Vec<String>,
    pub body: Pattern,
}

/// What a fully-qualified path resolves to.
#[derive(Debug, PartialEq, Eq)]
pub enum Entry {
    /// A named pattern, possibly parameterized.
    Pattern(PatternDef),
    /// A native function.
    Function(FunctionValue),
    /// A combinator of the pattern language itself, instantiated with the
    /// arguments of the referencing call.
    Combinator(CombKind),
}

/// The mathematical model of an [`Entry`].
pub enum SpecEntry {
    Pattern { params: Seq<Seq<char>>, body: SpecPattern },
    Function(FunctionValue),
    Combinator(CombKind),
}

/// The models of a sequence of parameter names.
pub open spec fn model_names(s: Seq<String>) -> Seq<Seq<char>>
    decreases s,
{
    if s.len() == 0 {
        Seq::empty()
    } else {
        seq![s[0]@] + model_names(s.drop_first())
    }
}

/// The models of a sequence of parameter names, element by element.
pub proof fn lemma_model_names(s: Seq<String>)
    ensures
        model_names(s).len() == s.len(),
        forall|i: int| 0 <= i < s.len() ==> #[trigger] model_names(s)[i] == s[i]@,
    decreases s.len(),
{
    if s.len() > 0 {
        lemma_model_names(s.drop_first());
    }
}

impl Entry {
    /// The model of this entry.
    pub open spec fn model(self) -> SpecEntry {
        match self {
            Entry::Pattern(def) => SpecEntry::Pattern {
                params: model_names(def.params@),
                body: def.body.model(),
            },
            Entry::Function(f) => SpecEntry::Function(f),
            Entry::Combinator(c) => SpecEntry::Combinator(c),
        }
    }
}

/// One path/entry registration.
#[derive(Debug, PartialEq, Eq)]
pub struct Registration {
    pub path: String,
    pub entry: Entry,
}

/// The mathematical model of a registry: path/entry pairs in registration
/// order.
pub type SpecWorld = Seq<(Seq<char>, SpecEntry)>;

/// The models of a sequence of registrations.
pub open spec fn model_registrations(s: Seq<Registration>) -> SpecWorld
    decreases s,
{
    if s.len() == 0 {
        Seq::empty()
    } else {
        seq![(s[0].path@, s[0].entry.model())] + model_registrations(s.drop_first())
    }
}

/// The models of a sequence of registrations, entry by entry.
pub proof fn lemma_model_registrations(s: Seq<Registration>)
    ensures
        model_registrations(s).len() == s.len(),
        forall|i: int|
            0 <= i < s.len() ==> #[trigger] model_registrations(s)[i] == (
                s[i].path@,
                s[i].entry.model(),
            ),
    decreases s.len(),
{
    if s.len() > 0 {
        lemma_model_registrations(s.drop_first());
    }
}

/// Appending one registration appends one modelled entry.
proof fn lemma_model_registrations_push(s: Seq<Registration>, r: Registration)
    ensures
        model_registrations(s.push(r)) == model_registrations(s) + seq![
            (r.path@, r.entry.model()),
        ],
    decreases s.len(),
{
    if s.len() == 0 {
        reveal_with_fuel(model_registrations, 3);
        assert(s.push(r).drop_first() =~= Seq::empty());
        assert(model_registrations(s.push(r)) =~= model_registrations(s) + seq![
            (r.path@, r.entry.model()),
        ]);
    } else {
        lemma_model_registrations_push(s.drop_first(), r);
        assert(s.push(r).drop_first() =~= s.drop_first().push(r));
        assert(model_registrations(s.push(r)) =~= model_registrations(s) + seq![
            (r.path@, r.entry.model()),
        ]);
    }
}

/// What a path resolves to in a modelled registry: the first registration
/// with that path wins.
pub open spec fn spec_world_get(w: SpecWorld, path: Seq<char>) -> Option<SpecEntry>
    decreases w,
{
    if w.len() == 0 {
        None
    } else if w[0].0 == path {
        Some(w[0].1)
    } else {
        spec_world_get(w.drop_first(), path)
    }
}

/// Whether resolution of `path` is still open after the first `from`
/// registrations: it equals resolution restricted to the tail.
pub open spec fn spec_world_get_from(w: SpecWorld, path: Seq<char>, from: int) -> bool {
    spec_world_get(w, path) == spec_world_get(w.skip(from), path)
}

/// While no registration before `i` matched, resolution equals resolution
/// from `i`.
proof fn lemma_world_get_skip(w: SpecWorld, path: Seq<char>, i: int)
    requires
        0 <= i < w.len(),
        w[i].0 != path,
        spec_world_get_from(w, path, i),
    ensures
        spec_world_get_from(w, path, i + 1),
{
    assert(w.skip(i).drop_first() =~= w.skip(i + 1));
    assert(w.skip(i).len() > 0);
    assert(w.skip(i)[0] == w[i]);
}

/// When registration `i` matches and the search reached it, it is the
/// resolution.
proof fn lemma_world_get_found(w: SpecWorld, path: Seq<char>, i: int)
    requires
        0 <= i < w.len(),
        w[i].0 == path,
        spec_world_get_from(w, path, i),
    ensures
        spec_world_get(w, path) == Some(w[i].1),
{
    assert(w.skip(i).len() > 0);
    assert(w.skip(i)[0] == w[i]);
}

/// When the search ran past the end, the path resolves to nothing.
proof fn lemma_world_get_missing(w: SpecWorld, path: Seq<char>)
    requires
        spec_world_get_from(w, path, w.len() as int),
    ensures
        spec_world_get(w, path) is None,
{
    assert(w.skip(w.len() as int) =~= Seq::<(Seq<char>, SpecEntry)>::empty());
}

/// A package: a batch of registrations under one namespace, with optional
/// package documentation, to be folded into a world.
#[derive(Debug, PartialEq, Eq)]
pub struct Package {
    base: PackagePath,
    docs: Option<String>,
    regs: Vec<Registration>,
}

impl Package {
    /// The model of this package: its registrations in order.
    pub closed spec fn model(self) -> SpecWorld {
        model_registrations(self.regs@)
    }

    /// The namespace prefix of this package.
    pub closed spec fn spec_base(self) -> Seq<char> {
        self.base.path@
    }

    /// The documentation of this package, for tooling.
    pub closed spec fn spec_documentation(self) -> Option<Seq<char>> {
        match self.docs {
            Some(d) => Some(d@),
            None => None,
        }
    }

    /// An empty, undocumented package under the given namespace.
    pub fn new(base: PackagePath) -> (r: Package)
        ensures
            r.model() == Seq::<(Seq<char>, SpecEntry)>::empty(),
            r.spec_base() == base.path@,
            r.spec_documentation() is None,
    {
        let r = Package { base, docs: None, regs: Vec::new() };
        proof {
            assert(r.model() =~= Seq::<(Seq<char>, SpecEntry)>::empty());
        }
        r
    }

    /// The same package, carrying the given documentation.
    pub fn with_documentation(self, documentation: String) -> (r: Package)
        ensures
            r.model() == self.model(),
            r.spec_base() == self.spec_base(),
            r.spec_documentation() == Some(documentation@),
    {
        Package { base: self.base, docs: Some(documentation), regs: self.regs }
    }

    /// The documentation of this package, for tooling.
    pub fn documentation(&self) -> (r: Option<&String>)
        ensures
            match r {
                Some(d) => self.spec_documentation() == Some(d@),
                None => self.spec_documentation() is None,
            },
    {
        self.docs.as_ref()
    }

    /// The full path of a name inside this package's namespace.
    fn qualify(&self, name: &str) -> (r: String)
        ensures
            r@ == self.spec_base() + "::"@ + name@,
    {
        self.base.path.clone().concat("::").concat(name)
    }

    /// Registers an entry under a name inside this package's namespace.
    pub fn register(&mut self, name: &str, entry: Entry)
        ensures
            final(self).model() == old(self).model() + seq![
                (old(self).spec_base() + "::"@ + name@, entry.model()),
            ],
            final(self).spec_base() == old(self).spec_base(),
            final(self).spec_documentation() == old(self).spec_documentation(),
    {
        let path = self.qualify(name);
        let ghost before = self.regs@;
        let ghost ent = entry.model();
        self.regs.push(Registration { path, entry });
        proof {
            lemma_model_registrations_push(before, self.regs@[before.len() as int]);
        }
    }

    /// Registers a native function under a name inside this package's
    /// namespace.
    pub fn register_function(&mut self, name: &str, f: FunctionValue)
        ensures
            final(self).model() == old(self).model() + seq![
                (old(self).spec_base() + "::"@ + name@, SpecEntry::Function(f)),
            ],
            final(self).spec_base() == old(self).spec_base(),
            final(self).spec_documentation() == old(self).spec_documentation(),
    {
        self.register(name, Entry::Function(f));
    }

    /// The registrations of this package, consumed when it is folded into
    /// a world.
    fn into_registrations(self) -> (r: Vec<Registration>)
        ensures
            model_registrations(r@) == self.model(),
    {
        let Package { base: _, docs: _, regs } = self;
        regs
    }
}

/// The global registry: the immutable snapshot every evaluation resolves
/// nominal references through.
#[derive(Debug, PartialEq, Eq)]
pub struct World {
    regs: Vec<Registration>,
}

impl World {
    /// The model of this world.
    pub closed spec fn model(self) -> SpecWorld {
        model_registrations(self.regs@)
    }

    /// An empty world.
    pub fn new() -> (r: World)
        ensures
            r.model() == Seq::<(Seq<char>, SpecEntry)>::empty(),
    {
        let r = World { regs: Vec::new() };
        proof {
            assert(r.model() =~= Seq::<(Seq<char>, SpecEntry)>::empty());
        }
        r
    }

    /// Registers an entry under a fully-qualified path.
    pub fn register(&mut self, path: String, entry: Entry)
        ensures
            final(self).model() == old(self).model() + seq![(path@, entry.model())],
    {
        let ghost before = self.regs@;
        self.regs.push(Registration { path, entry });
        proof {
            lemma_model_registrations_push(before, self.regs@[before.len() as int]);
        }
    }

    /// Folds a package's registrations into this world, in order.
    pub fn add_package(&mut self, pkg: Package)
        ensures
            final(self).model() == old(self).model() + pkg.model(),
    {
        let ghost before = self.regs@;
        let mut regs = pkg.into_registrations();
        let ghost added = regs@;
        self.regs.append(&mut regs);
        proof {
            lemma_model_registrations_concat(before, added);
        }
    }

    /// Resolves a fully-qualified path; a missing path yields nothing, and
    /// the engine reports it as a lookup error rather than treating it as
    /// non-satisfaction.
    pub fn resolve(&self, path: &str) -> (r: Option<&Entry>)
        ensures
            match r {
                Some(e) => spec_world_get(self.model(), path@) == Some(e.model()),
                None => spec_world_get(self.model(), path@) is None,
            },
    {
        let key = path.to_owned();
        let mut i: usize = 0;
        proof {
            lemma_model_registrations(self.regs@);
            assert(self.model().skip(0) =~= self.model());
        }
        while i < self.regs.len()
            invariant
                i <= self.regs.len(),
                key@ == path@,
                model_registrations(self.regs@).len() == self.regs@.len(),
                forall|j: int|
                    0 <= j < self.regs@.len() ==> #[trigger] model_registrations(self.regs@)[j]
                        == (self.regs@[j].path@, self.regs@[j].entry.model()),
                spec_world_get_from(self.model(), path@, i as int),
            decreases self.regs.len() - i,
        {
            if self.regs[i].path == key {
                proof {
                    lemma_world_get_found(self.model(), path@, i as int);
                }
                return Some(&self.regs[i].entry);
            }
            proof {
                lemma_world_get_skip(self.model(), path@, i as int);
            }
            i = i + 1;
        }
        proof {
            lemma_world_get_missing(self.model(), path@);
        }
        None
    }
}

/// Concatenating registrations concatenates their models.
proof fn lemma_model_registrations_concat(a: Seq<Registration>, b: Seq<Registration>)
    ensures
        model_registrations(a + b) == model_registrations(a) + model_registrations(b),
    decreases a.len(),
{
    if a.len() == 0 {
        assert(a + b =~= b);
        assert(model_registrations(a + b) =~= model_registrations(a) + model_registrations(b));
    } else {
        lemma_model_registrations_concat(a.drop_first(), b);
        assert((a + b).drop_first() =~= a.drop_first() + b);
        assert((a + b)[0] == a[0]);
        assert(model_registrations(a + b) =~= model_registrations(a) + model_registrations(b));
    }
}

} // verus!
