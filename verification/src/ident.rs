//! Stable identifiers of definitions and the paths derived from them.
use vstd::prelude::*;

verus! {

/// An interned name, kept as its text.
pub type Symbol = String;

/// A sequence of names: crate first, then one name per name-bearing segment.
pub type Path = Vec<String>;

/// One segment of a definition path.
#[derive(Clone, Debug, PartialEq, Eq)]
pub enum DefPathItem {
    CrateRoot,
    Impl,
    ForeignMod,
    Use,
    GlobalAsm,
    TypeNs(Symbol),
    ValueNs(Symbol),
    MacroNs(Symbol),
    LifetimeNs(Symbol),
    ClosureExpr,
    Ctor,
    AnonConst,
    ImplTrait,
    ImplTraitAssocTy,
}

/// A path segment together with the number that tells it apart from its
/// siblings of the same name.
#[derive(Clone, Debug, PartialEq, Eq)]
pub struct DisambiguatedDefPathItem {
    pub data: DefPathItem,
    pub disambiguator: u32,
}

/// The identifier of a definition: the crate that owns it and the path to it.
#[derive(Clone, Debug, PartialEq, Eq)]
pub struct DefId {
    pub krate: String,
    pub path: Vec<DisambiguatedDefPathItem>,
}

pub type GlobalIdent = DefId;

pub type AdtDef = DefId;

impl DefPathItem {
    /// The name that the segment carries, if it lies in one of the four
    /// name-bearing namespaces.
    pub open spec fn spec_name(self) -> Option<Seq<char>> {
        match self {
            DefPathItem::TypeNs(s) => Some(s@),
            DefPathItem::ValueNs(s) => Some(s@),
            DefPathItem::MacroNs(s) => Some(s@),
            DefPathItem::LifetimeNs(s) => Some(s@),
            _ => None,
        }
    }

    /// Whether two segments are of the same kind and carry the same name.
    pub open spec fn same(self, other: DefPathItem) -> bool {
        match (self, other) {
            (DefPathItem::CrateRoot, DefPathItem::CrateRoot) => true,
            (DefPathItem::Impl, DefPathItem::Impl) => true,
            (DefPathItem::ForeignMod, DefPathItem::ForeignMod) => true,
            (DefPathItem::Use, DefPathItem::Use) => true,
            (DefPathItem::GlobalAsm, DefPathItem::GlobalAsm) => true,
            (DefPathItem::TypeNs(a), DefPathItem::TypeNs(b)) => a@ == b@,
            (DefPathItem::ValueNs(a), DefPathItem::ValueNs(b)) => a@ == b@,
            (DefPathItem::MacroNs(a), DefPathItem::MacroNs(b)) => a@ == b@,
            (DefPathItem::LifetimeNs(a), DefPathItem::LifetimeNs(b)) => a@ == b@,
            (DefPathItem::ClosureExpr, DefPathItem::ClosureExpr) => true,
            (DefPathItem::Ctor, DefPathItem::Ctor) => true,
            (DefPathItem::AnonConst, DefPathItem::AnonConst) => true,
            (DefPathItem::ImplTrait, DefPathItem::ImplTrait) => true,
            (DefPathItem::ImplTraitAssocTy, DefPathItem::ImplTraitAssocTy) => true,
            _ => false,
        }
    }

    /// The name of a name-bearing segment.
    pub fn name(&self) -> (r: Option<String>)
        ensures
            r.is_some() == self.spec_name().is_some(),
            r.is_some() ==> r.unwrap()@ == self.spec_name().unwrap(),
    {
        match self {
            DefPathItem::TypeNs(s) => Some(s.clone()),
            DefPathItem::ValueNs(s) => Some(s.clone()),
            DefPathItem::MacroNs(s) => Some(s.clone()),
            DefPathItem::LifetimeNs(s) => Some(s.clone()),
            _ => None,
        }
    }

    /// Decides `same`.
    pub fn same_as(&self, other: &DefPathItem) -> (r: bool)
        ensures
            r == self.same(*other),
    {
        match (self, other) {
            (DefPathItem::CrateRoot, DefPathItem::CrateRoot) => true,
            (DefPathItem::Impl, DefPathItem::Impl) => true,
            (DefPathItem::ForeignMod, DefPathItem::ForeignMod) => true,
            (DefPathItem::Use, DefPathItem::Use) => true,
            (DefPathItem::GlobalAsm, DefPathItem::GlobalAsm) => true,
            (DefPathItem::TypeNs(a), DefPathItem::TypeNs(b)) => *a == *b,
            (DefPathItem::ValueNs(a), DefPathItem::ValueNs(b)) => *a == *b,
            (DefPathItem::MacroNs(a), DefPathItem::MacroNs(b)) => *a == *b,
            (DefPathItem::LifetimeNs(a), DefPathItem::LifetimeNs(b)) => *a == *b,
            (DefPathItem::ClosureExpr, DefPathItem::ClosureExpr) => true,
            (DefPathItem::Ctor, DefPathItem::Ctor) => true,
            (DefPathItem::AnonConst, DefPathItem::AnonConst) => true,
            (DefPathItem::ImplTrait, DefPathItem::ImplTrait) => true,
            (DefPathItem::ImplTraitAssocTy, DefPathItem::ImplTraitAssocTy) => true,
            _ => false,
        }
    }
}

/// The names of the name-bearing segments among the first `n` of `path`, in
/// order.
pub open spec fn spec_names(path: Seq<DisambiguatedDefPathItem>, n: int) -> Seq<Seq<char>>
    decreases n,
{
    if n <= 0 {
        Seq::empty()
    } else {
        let rest = spec_names(path, n - 1);
        match path[n - 1].data.spec_name() {
            Some(name) => rest.push(name),
            None => rest,
        }
    }
}

/// The views of the strings of a path.
pub open spec fn spec_texts(p: Seq<String>) -> Seq<Seq<char>> {
    Seq::new(p.len(), |i: int| p[i]@)
}

impl DefId {
    /// What identifies a definition: the crate's name, and the segments with
    /// their disambiguators.
    pub open spec fn same(self, other: DefId) -> bool {
        &&& self.krate@ == other.krate@
        &&& self.path@.len() == other.path@.len()
        &&& forall|i: int|
            0 <= i < self.path@.len() ==> {
                &&& (#[trigger] self.path@[i]).data.same(other.path@[i].data)
                &&& self.path@[i].disambiguator == other.path@[i].disambiguator
            }
    }

    /// The display path: the crate's name, then the name of each
    /// name-bearing segment.
    pub open spec fn spec_path(self) -> Seq<Seq<char>> {
        seq![self.krate@] + spec_names(self.path@, self.path@.len() as int)
    }

    /// Builds an identifier from a crate name and the segments of a
    /// definition path.
    pub fn new(krate: String, path: Vec<DisambiguatedDefPathItem>) -> (r: DefId)
        ensures
            r.krate == krate,
            r.path == path,
    {
        DefId { krate, path }
    }

    /// Decides `same`.
    pub fn same_as(&self, other: &DefId) -> (r: bool)
        ensures
            r == self.same(*other),
    {
        if !(self.krate == other.krate) {
            return false;
        }
        if self.path.len() != other.path.len() {
            return false;
        }
        let mut i: usize = 0;
        while i < self.path.len()
            invariant
                i <= self.path@.len(),
                self.path@.len() == other.path@.len(),
                forall|j: int|
                    0 <= j < i ==> {
                        &&& (#[trigger] self.path@[j]).data.same(other.path@[j].data)
                        &&& self.path@[j].disambiguator == other.path@[j].disambiguator
                    },
            decreases self.path@.len() - i,
        {
            if !self.path[i].data.same_as(&other.path[i].data) || self.path[i].disambiguator
                != other.path[i].disambiguator {
                return false;
            }
            i += 1;
        }
        true
    }

    /// The display path of the identifier. Disambiguators and segments
    /// without a name are left out, so two identifiers may share a path.
    pub fn path(&self) -> (r: Path)
        ensures
            spec_texts(r@) == self.spec_path(),
    {
        let mut out: Vec<String> = Vec::new();
        out.push(self.krate.clone());
        let mut i: usize = 0;
        while i < self.path.len()
            invariant
                i <= self.path@.len(),
                spec_texts(out@) == seq![self.krate@] + spec_names(self.path@, i as int),
            decreases self.path@.len() - i,
        {
            let ghost before = out@;
            match self.path[i].data.name() {
                Some(name) => {
                    out.push(name);
                    assert(spec_texts(out@) =~= spec_texts(before).push(name@));
                },
                None => {},
            }
            i += 1;
            assert(spec_texts(out@) =~= seq![self.krate@] + spec_names(self.path@, i as int));
        }
        out
    }

    /// The display path of the identifier, which is given up.
    pub fn into_path(self) -> (r: Path)
        ensures
            spec_texts(r@) == self.spec_path(),
    {
        self.path()
    }

    /// Whether the display path of the identifier ends in `name`.
    pub open spec fn spec_ends_with(self, name: Seq<char>) -> bool {
        self.spec_path().last() == name
    }

    /// The identifier of an item named `name` that `owner_id` owns: the
    /// owner itself when its display path ends in that name, and none
    /// otherwise, as for an item that a macro or the compiler made.
    pub fn def_id_of_item(owner_id: DefId, name: &String) -> (r: Option<DefId>)
        ensures
            r == if owner_id.spec_ends_with(name@) {
                Some(owner_id)
            } else {
                None
            },
    {
        let path = owner_id.path();
        let n = path.len();
        assert(spec_texts(path@).len() == n);
        assert(n >= 1);
        assert(spec_texts(path@)[n - 1] == path@[n - 1]@);
        if path[n - 1] == *name {
            Some(owner_id)
        } else {
            None
        }
    }
}

impl From<DefId> for Vec<String> {
    /// The display path of an identifier.
    fn from(v: DefId) -> (r: Vec<String>)
        ensures
            spec_texts(r@) == v.spec_path(),
    {
        v.into_path()
    }
}

impl vstd::std_specs::convert::FromSpecImpl<DefId> for Vec<String> {
    open spec fn obeys_from_spec() -> bool {
        false
    }

    open spec fn from_spec(v: DefId) -> Vec<String> {
        arbitrary()
    }
}

} // verus!
