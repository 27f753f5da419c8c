//! Modifiers: the words that TypeScript allows before a declaration or a
//! parameter, and the check of a modifier list against what a position
//! permits.

use vstd::prelude::*;
use crate::span::Span;
use crate::token::Kind;

verus! {

#[derive(Clone, Copy, Debug, PartialEq, Eq, Structural)]
pub enum ModifierKind {
    Abstract,
    Async,
    Declare,
    Override,
    Private,
    Protected,
    Public,
    Readonly,
    Static,
}

#[derive(Clone, Copy, Debug, PartialEq, Eq, Structural)]
pub enum Accessibility {
    Private,
    Protected,
    Public,
}

impl ModifierKind {
    /// The modifier that a token spells, if it spells one.
    pub open spec fn spec_from_token(kind: Kind) -> Option<ModifierKind> {
        match kind {
            Kind::Abstract => Some(ModifierKind::Abstract),
            Kind::Async => Some(ModifierKind::Async),
            Kind::Declare => Some(ModifierKind::Declare),
            Kind::Override => Some(ModifierKind::Override),
            Kind::Private => Some(ModifierKind::Private),
            Kind::Protected => Some(ModifierKind::Protected),
            Kind::Public => Some(ModifierKind::Public),
            Kind::Readonly => Some(ModifierKind::Readonly),
            Kind::Static => Some(ModifierKind::Static),
            _ => None,
        }
    }

    pub fn from_token(kind: Kind) -> (m: Option<ModifierKind>)
        ensures
            m == ModifierKind::spec_from_token(kind),
            m is Some <==> kind.spec_is_modifier_kind(),
    {
        match kind {
            Kind::Abstract => Some(ModifierKind::Abstract),
            Kind::Async => Some(ModifierKind::Async),
            Kind::Declare => Some(ModifierKind::Declare),
            Kind::Override => Some(ModifierKind::Override),
            Kind::Private => Some(ModifierKind::Private),
            Kind::Protected => Some(ModifierKind::Protected),
            Kind::Public => Some(ModifierKind::Public),
            Kind::Readonly => Some(ModifierKind::Readonly),
            Kind::Static => Some(ModifierKind::Static),
            _ => None,
        }
    }

    /// The accessibility that the modifier states, if it states one.
    pub open spec fn spec_accessibility(self) -> Option<Accessibility> {
        match self {
            ModifierKind::Private => Some(Accessibility::Private),
            ModifierKind::Protected => Some(Accessibility::Protected),
            ModifierKind::Public => Some(Accessibility::Public),
            _ => None,
        }
    }

    pub fn to_accessibility(self) -> (a: Option<Accessibility>)
        ensures
            a == self.spec_accessibility(),
    {
        match self {
            ModifierKind::Private => Some(Accessibility::Private),
            ModifierKind::Protected => Some(Accessibility::Protected),
            ModifierKind::Public => Some(Accessibility::Public),
            _ => None,
        }
    }
}

/// A set of modifier kinds: the mask that a syntactic position permits.
#[derive(Clone, Copy, Debug, PartialEq, Eq, Structural)]
pub struct ModifierFlags {
    pub has_abstract: bool,
    pub has_async: bool,
    pub has_declare: bool,
    pub has_override: bool,
    pub has_private: bool,
    pub has_protected: bool,
    pub has_public: bool,
    pub has_readonly: bool,
    pub has_static: bool,
}

impl ModifierFlags {
    pub open spec fn spec_empty() -> ModifierFlags {
        ModifierFlags {
            has_abstract: false,
            has_async: false,
            has_declare: false,
            has_override: false,
            has_private: false,
            has_protected: false,
            has_public: false,
            has_readonly: false,
            has_static: false,
        }
    }

    pub open spec fn spec_contains(self, kind: ModifierKind) -> bool {
        match kind {
            ModifierKind::Abstract => self.has_abstract,
            ModifierKind::Async => self.has_async,
            ModifierKind::Declare => self.has_declare,
            ModifierKind::Override => self.has_override,
            ModifierKind::Private => self.has_private,
            ModifierKind::Protected => self.has_protected,
            ModifierKind::Public => self.has_public,
            ModifierKind::Readonly => self.has_readonly,
            ModifierKind::Static => self.has_static,
        }
    }

    pub open spec fn spec_union(self, other: ModifierFlags) -> ModifierFlags {
        ModifierFlags {
            has_abstract: self.has_abstract || other.has_abstract,
            has_async: self.has_async || other.has_async,
            has_declare: self.has_declare || other.has_declare,
            has_override: self.has_override || other.has_override,
            has_private: self.has_private || other.has_private,
            has_protected: self.has_protected || other.has_protected,
            has_public: self.has_public || other.has_public,
            has_readonly: self.has_readonly || other.has_readonly,
            has_static: self.has_static || other.has_static,
        }
    }

    /// The set that holds exactly `kind`.
    pub open spec fn spec_only(kind: ModifierKind) -> ModifierFlags {
        ModifierFlags {
            has_abstract: kind == ModifierKind::Abstract,
            has_async: kind == ModifierKind::Async,
            has_declare: kind == ModifierKind::Declare,
            has_override: kind == ModifierKind::Override,
            has_private: kind == ModifierKind::Private,
            has_protected: kind == ModifierKind::Protected,
            has_public: kind == ModifierKind::Public,
            has_readonly: kind == ModifierKind::Readonly,
            has_static: kind == ModifierKind::Static,
        }
    }

    /// `public`, `private` and `protected`.
    pub open spec fn spec_accessibility() -> ModifierFlags {
        ModifierFlags::spec_only(ModifierKind::Public).spec_union(
            ModifierFlags::spec_only(ModifierKind::Private),
        ).spec_union(ModifierFlags::spec_only(ModifierKind::Protected))
    }

    /// What a parameter permits: an accessibility, `readonly`, `override`.
    pub open spec fn spec_parameter_mask() -> ModifierFlags {
        ModifierFlags::spec_accessibility().spec_union(
            ModifierFlags::spec_only(ModifierKind::Readonly),
        ).spec_union(ModifierFlags::spec_only(ModifierKind::Override))
    }

    /// What a function permits: `declare` and `async`.
    pub open spec fn spec_function_mask() -> ModifierFlags {
        ModifierFlags::spec_only(ModifierKind::Declare).spec_union(
            ModifierFlags::spec_only(ModifierKind::Async),
        )
    }

    pub fn empty() -> (f: ModifierFlags)
        ensures
            f == ModifierFlags::spec_empty(),
    {
        ModifierFlags {
            has_abstract: false,
            has_async: false,
            has_declare: false,
            has_override: false,
            has_private: false,
            has_protected: false,
            has_public: false,
            has_readonly: false,
            has_static: false,
        }
    }

    pub fn only(kind: ModifierKind) -> (f: ModifierFlags)
        ensures
            f == ModifierFlags::spec_only(kind),
    {
        ModifierFlags {
            has_abstract: kind == ModifierKind::Abstract,
            has_async: kind == ModifierKind::Async,
            has_declare: kind == ModifierKind::Declare,
            has_override: kind == ModifierKind::Override,
            has_private: kind == ModifierKind::Private,
            has_protected: kind == ModifierKind::Protected,
            has_public: kind == ModifierKind::Public,
            has_readonly: kind == ModifierKind::Readonly,
            has_static: kind == ModifierKind::Static,
        }
    }

    pub fn contains(self, kind: ModifierKind) -> (b: bool)
        ensures
            b == self.spec_contains(kind),
    {
        match kind {
            ModifierKind::Abstract => self.has_abstract,
            ModifierKind::Async => self.has_async,
            ModifierKind::Declare => self.has_declare,
            ModifierKind::Override => self.has_override,
            ModifierKind::Private => self.has_private,
            ModifierKind::Protected => self.has_protected,
            ModifierKind::Public => self.has_public,
            ModifierKind::Readonly => self.has_readonly,
            ModifierKind::Static => self.has_static,
        }
    }

    pub fn union(self, other: ModifierFlags) -> (f: ModifierFlags)
        ensures
            f == self.spec_union(other),
            forall|k: ModifierKind|
                f.spec_contains(k) == (self.spec_contains(k) || other.spec_contains(k)),
    {
        ModifierFlags {
            has_abstract: self.has_abstract || other.has_abstract,
            has_async: self.has_async || other.has_async,
            has_declare: self.has_declare || other.has_declare,
            has_override: self.has_override || other.has_override,
            has_private: self.has_private || other.has_private,
            has_protected: self.has_protected || other.has_protected,
            has_public: self.has_public || other.has_public,
            has_readonly: self.has_readonly || other.has_readonly,
            has_static: self.has_static || other.has_static,
        }
    }

    pub fn accessibility() -> (f: ModifierFlags)
        ensures
            f == ModifierFlags::spec_accessibility(),
    {
        ModifierFlags::only(ModifierKind::Public).union(
            ModifierFlags::only(ModifierKind::Private),
        ).union(ModifierFlags::only(ModifierKind::Protected))
    }

    pub fn parameter_mask() -> (f: ModifierFlags)
        ensures
            f == ModifierFlags::spec_parameter_mask(),
    {
        ModifierFlags::accessibility().union(ModifierFlags::only(ModifierKind::Readonly)).union(
            ModifierFlags::only(ModifierKind::Override),
        )
    }

    pub fn function_mask() -> (f: ModifierFlags)
        ensures
            f == ModifierFlags::spec_function_mask(),
    {
        ModifierFlags::only(ModifierKind::Declare).union(ModifierFlags::only(ModifierKind::Async))
    }
}

/// One modifier as written: its kind and where it stands.
#[derive(Clone, Copy, Debug, PartialEq, Eq, Structural)]
pub struct Modifier {
    pub span: Span,
    pub kind: ModifierKind,
}

/// Whether some modifier of `list` has the kind `kind`.
pub open spec fn spec_has_kind(list: Seq<Modifier>, kind: ModifierKind) -> bool {
    exists|i: int| 0 <= i < list.len() && (#[trigger] list[i]).kind == kind
}

/// The accessibility of the first modifier of `list` that states one.
pub open spec fn spec_first_accessibility(list: Seq<Modifier>) -> Option<Accessibility>
    decreases list.len(),
{
    if list.len() == 0 {
        None
    } else if list[0].kind.spec_accessibility() is Some {
        list[0].kind.spec_accessibility()
    } else {
        spec_first_accessibility(list.drop_first())
    }
}

/// The modifiers written before one declaration or parameter, in source
/// order. A modifier that its position does not permit stays in the list: it
/// is reported, not removed.
pub struct Modifiers {
    pub list: Vec<Modifier>,
}

impl View for Modifiers {
    type V = Seq<Modifier>;

    open spec fn view(&self) -> Seq<Modifier> {
        self.list@
    }
}

impl Modifiers {
    pub fn empty() -> (m: Modifiers)
        ensures
            m@ == Seq::<Modifier>::empty(),
    {
        Modifiers { list: Vec::new() }
    }

    pub fn new(list: Vec<Modifier>) -> (m: Modifiers)
        ensures
            m@ == list@,
    {
        Modifiers { list }
    }

    pub fn len(&self) -> (n: usize)
        ensures
            n == self@.len(),
    {
        self.list.len()
    }

    pub fn get(&self, i: usize) -> (m: Modifier)
        requires
            i < self@.len(),
        ensures
            m == self@[i as int],
    {
        self.list[i]
    }

    pub fn contains(&self, kind: ModifierKind) -> (b: bool)
        ensures
            b == spec_has_kind(self@, kind),
    {
        let mut i: usize = 0;
        while i < self.list.len()
            invariant
                i <= self.list.len(),
                forall|j: int| 0 <= j < i ==> (#[trigger] self@[j]).kind != kind,
            decreases self.list.len() - i,
        {
            if self.list[i].kind == kind {
                return true;
            }
            i += 1;
        }
        false
    }

    pub fn contains_declare(&self) -> (b: bool)
        ensures
            b == spec_has_kind(self@, ModifierKind::Declare),
    {
        self.contains(ModifierKind::Declare)
    }

    pub fn contains_readonly(&self) -> (b: bool)
        ensures
            b == spec_has_kind(self@, ModifierKind::Readonly),
    {
        self.contains(ModifierKind::Readonly)
    }

    pub fn contains_override(&self) -> (b: bool)
        ensures
            b == spec_has_kind(self@, ModifierKind::Override),
    {
        self.contains(ModifierKind::Override)
    }

    pub fn accessibility(&self) -> (a: Option<Accessibility>)
        ensures
            a == spec_first_accessibility(self@),
    {
        let mut i: usize = 0;
        assert(self@.subrange(0, self@.len() as int) =~= self@);
        while i < self.list.len()
            invariant
                i <= self.list.len(),
                spec_first_accessibility(self@) == spec_first_accessibility(
                    self@.subrange(i as int, self@.len() as int),
                ),
            decreases self.list.len() - i,
        {
            let ghost rest = self@.subrange(i as int, self@.len() as int);
            assert(rest[0] == self@[i as int]);
            assert(rest.drop_first() =~= self@.subrange(i + 1, self@.len() as int));
            let a = self.list[i].kind.to_accessibility();
            if a.is_some() {
                return a;
            }
            i += 1;
        }
        assert(self@.subrange(i as int, self@.len() as int).len() == 0);
        None
    }
}

} // verus!
