//! The combinators of the pattern language itself, registered as named
//! entries so that policies can instantiate them by path.

use vstd::prelude::*;

use crate::world::{Entry, Package, PackagePath, SpecEntry};

verus! {

/// Which combinator a registry entry stands for. A call of such an entry
/// combines the call's argument patterns.
#[derive(Clone, Copy, Debug, PartialEq, Eq, Structural)]
pub enum CombKind {
    /// Satisfied when every argument is satisfied.
    And,
    /// Satisfied when at least one argument is satisfied.
    Or,
    /// Filters the first argument's outcome through the second.
    Refine,
}

/// The lang package: the three combinators, under the `lang` namespace.
pub fn package() -> (r: Package)
    ensures
        r.model() == seq![
            ("lang::And"@, SpecEntry::Combinator(CombKind::And)),
            ("lang::Or"@, SpecEntry::Combinator(CombKind::Or)),
            ("lang::Refine"@, SpecEntry::Combinator(CombKind::Refine)),
        ],
{
    let mut pkg = Package::new(PackagePath::from_part("lang"));
    pkg.register("And", Entry::Combinator(CombKind::And));
    pkg.register("Or", Entry::Combinator(CombKind::Or));
    pkg.register("Refine", Entry::Combinator(CombKind::Refine));
    proof {
        reveal_strlit("lang");
        reveal_strlit("::");
        reveal_strlit("And");
        reveal_strlit("Or");
        reveal_strlit("Refine");
        reveal_strlit("lang::And");
        reveal_strlit("lang::Or");
        reveal_strlit("lang::Refine");
        assert("lang"@ + "::"@ + "And"@ =~= "lang::And"@);
        assert("lang"@ + "::"@ + "Or"@ =~= "lang::Or"@);
        assert("lang"@ + "::"@ + "Refine"@ =~= "lang::Refine"@);
        assert(pkg.model() =~= seq![
            ("lang::And"@, SpecEntry::Combinator(CombKind::And)),
            ("lang::Or"@, SpecEntry::Combinator(CombKind::Or)),
            ("lang::Refine"@, SpecEntry::Combinator(CombKind::Refine)),
        ]);
    }
    pkg
}

} // verus!
