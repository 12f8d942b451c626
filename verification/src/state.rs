//! The context that threads through a projection: what is shared by the
//! whole run, and the body and the owner that are current.
use std::collections::HashMap;
use std::collections::HashSet;
use vstd::prelude::*;

verus! {

broadcast use vstd::std_specs::hash::group_hash_axioms;

/// The names of the local variables met so far, by the handle of the
/// variable.
pub struct LocalContextS {
    pub vars: HashMap<usize, String>,
}

/// What a run is asked to do.
#[derive(Clone, Copy, Debug, PartialEq, Eq)]
pub struct Options {
    /// Whether the bodies of functions are inlined where they are used.
    pub inline_macro_calls: bool,
}

/// What all contexts of a run share. The registries only grow.
pub struct Base {
    pub options: Options,
    pub local_ctx: LocalContextS,
    /// The definition that is being exported.
    pub opt_def_id: Option<usize>,
    /// The spans that appear in what was exported.
    pub exported_spans: HashSet<usize>,
    /// The definitions that appear in what was exported.
    pub exported_def_ids: HashSet<usize>,
}

/// A context. Each of `thir`, `mir` and `owner_id` is either absent, which
/// is the type `()`, or present: a function that needs one of them asks for
/// it in its signature.
pub struct State<Thir, Mir, OwnerId> {
    pub base: Base,
    pub thir: Thir,
    pub mir: Mir,
    pub owner_id: OwnerId,
}

impl LocalContextS {
    /// A context in which no variable is known.
    pub fn new() -> (r: LocalContextS)
        ensures
            r.vars@ == Map::<usize, String>::empty(),
    {
        LocalContextS { vars: HashMap::new() }
    }

    /// Records the name of a variable. A variable that is recorded again
    /// takes its latest name.
    pub fn bind(&mut self, var: usize, name: String)
        ensures
            final(self).vars@ == old(self).vars@.insert(var, name),
    {
        self.vars.insert(var, name);
    }

    /// The name under which a variable was recorded.
    pub fn name_of(&self, var: usize) -> (r: Option<String>)
        ensures
            match r {
                Some(name) => self.vars@.contains_key(var) && name == self.vars@[var],
                None => !self.vars@.contains_key(var),
            },
    {
        match self.vars.get(&var) {
            Some(name) => Some(name.clone()),
            None => None,
        }
    }
}

impl Base {
    /// What a run starts from: nothing exported yet, no variable known, no
    /// definition current.
    pub fn new(options: Options) -> (r: Base)
        ensures
            r.options == options,
            r.opt_def_id.is_none(),
            r.local_ctx.vars@ == Map::<usize, String>::empty(),
            r.exported_spans@ == Set::<usize>::empty(),
            r.exported_def_ids@ == Set::<usize>::empty(),
    {
        Base {
            options,
            local_ctx: LocalContextS::new(),
            opt_def_id: None,
            exported_spans: HashSet::new(),
            exported_def_ids: HashSet::new(),
        }
    }

    /// Registers a span as exported. Nothing else changes, and a span that
    /// is registered stays so.
    pub fn export_span(&mut self, span: usize)
        ensures
            final(self).exported_spans@ == old(self).exported_spans@.insert(span),
            final(self).exported_def_ids@ == old(self).exported_def_ids@,
            final(self).local_ctx.vars@ == old(self).local_ctx.vars@,
            final(self).opt_def_id == old(self).opt_def_id,
            final(self).options == old(self).options,
    {
        self.exported_spans.insert(span);
    }

    /// Registers a definition as exported. Nothing else changes, and a
    /// definition that is registered stays so.
    pub fn export_def_id(&mut self, def_id: usize)
        ensures
            final(self).exported_def_ids@ == old(self).exported_def_ids@.insert(def_id),
            final(self).exported_spans@ == old(self).exported_spans@,
            final(self).local_ctx.vars@ == old(self).local_ctx.vars@,
            final(self).opt_def_id == old(self).opt_def_id,
            final(self).options == old(self).options,
    {
        self.exported_def_ids.insert(def_id);
    }
}

/// Registering is idempotent and commutative: what is registered twice is
/// registered once, and the order of two registrations does not matter.
pub proof fn lemma_registry_insert(registry: Set<usize>, a: usize, b: usize)
    ensures
        registry.insert(a).insert(a) == registry.insert(a),
        registry.insert(a).insert(b) == registry.insert(b).insert(a),
        registry.subset_of(registry.insert(a)),
{
    assert(registry.insert(a).insert(a) =~= registry.insert(a));
    assert(registry.insert(a).insert(b) =~= registry.insert(b).insert(a));
}

impl State<(), (), ()> {
    /// The context of a run that has no body and no owner yet.
    pub fn new(options: Options) -> (r: State<(), (), ()>)
        ensures
            r.base.options == options,
            r.base.opt_def_id.is_none(),
            r.base.local_ctx.vars@ == Map::<usize, String>::empty(),
            r.base.exported_spans@ == Set::<usize>::empty(),
            r.base.exported_def_ids@ == Set::<usize>::empty(),
    {
        State { thir: (), mir: (), owner_id: (), base: Base::new(options) }
    }
}

impl<Mir> State<(), Mir, ()> {
    /// The context of a run on the body `mir`, with no owner yet.
    pub fn new_from_mir(options: Options, mir: Mir) -> (r: State<(), Mir, ()>)
        ensures
            r.mir == mir,
            r.base.options == options,
            r.base.opt_def_id.is_none(),
            r.base.local_ctx.vars@ == Map::<usize, String>::empty(),
            r.base.exported_spans@ == Set::<usize>::empty(),
            r.base.exported_def_ids@ == Set::<usize>::empty(),
    {
        State { thir: (), mir, owner_id: (), base: Base::new(options) }
    }
}

/// The context of what lies under the definition `owner_id`: the base, with
/// that definition current, the bodies given, and the owner.
pub fn with_owner_id<Thir, Mir>(base: Base, thir: Thir, mir: Mir, owner_id: usize) -> (r: State<
    Thir,
    Mir,
    usize,
>)
    ensures
        r.thir == thir,
        r.mir == mir,
        r.owner_id == owner_id,
        r.base == (Base { opt_def_id: Some(owner_id), ..base }),
{
    let mut base = base;
    base.opt_def_id = Some(owner_id);
    State { thir, owner_id, base, mir }
}

impl<Thir, Mir, OwnerId> State<Thir, Mir, OwnerId> {
    /// The same context with the body `thir`.
    pub fn with_thir<T>(self, thir: T) -> (r: State<T, Mir, OwnerId>)
        ensures
            r.thir == thir,
            r.base == self.base,
            r.mir == self.mir,
            r.owner_id == self.owner_id,
    {
        State { base: self.base, thir, mir: self.mir, owner_id: self.owner_id }
    }

    /// The same context with the body `mir`.
    pub fn with_mir<M>(self, mir: M) -> (r: State<Thir, M, OwnerId>)
        ensures
            r.mir == mir,
            r.base == self.base,
            r.thir == self.thir,
            r.owner_id == self.owner_id,
    {
        State { base: self.base, thir: self.thir, mir, owner_id: self.owner_id }
    }

    /// The same context with the owner `owner_id`.
    pub fn with_owner<O>(self, owner_id: O) -> (r: State<Thir, Mir, O>)
        ensures
            r.owner_id == owner_id,
            r.base == self.base,
            r.thir == self.thir,
            r.mir == self.mir,
    {
        State { base: self.base, thir: self.thir, mir: self.mir, owner_id }
    }

    /// The same context with the base `base`.
    pub fn with_base(self, base: Base) -> (r: State<Thir, Mir, OwnerId>)
        ensures
            r.base == base,
            r.thir == self.thir,
            r.mir == self.mir,
            r.owner_id == self.owner_id,
    {
        State { base, thir: self.thir, mir: self.mir, owner_id: self.owner_id }
    }
}

/// A context that has a base.
pub trait HasBase {
    spec fn spec_base(&self) -> Base;

    /// What the context shares with the others of its run.
    fn base(&self) -> (r: &Base)
        ensures
            *r == self.spec_base(),
    ;
}

/// A context that stands under an owner.
pub trait HasOwnerId {
    spec fn spec_owner_id(&self) -> usize;

    /// The owner under which the context stands.
    fn owner_id(&self) -> (r: usize)
        ensures
            r == self.spec_owner_id(),
    ;
}

/// A context that has a body in tree form.
pub trait HasThir {
    type Thir;

    spec fn spec_thir(&self) -> Self::Thir;

    /// The body in tree form.
    fn thir(&self) -> (r: &Self::Thir)
        ensures
            *r == self.spec_thir(),
    ;
}

/// A context that has a body in control-flow-graph form.
pub trait HasMir {
    type Mir;

    spec fn spec_mir(&self) -> Self::Mir;

    /// The body in control-flow-graph form.
    fn mir(&self) -> (r: &Self::Mir)
        ensures
            *r == self.spec_mir(),
    ;
}

impl<Thir, Mir, OwnerId> HasBase for State<Thir, Mir, OwnerId> {
    open spec fn spec_base(&self) -> Base {
        self.base
    }

    fn base(&self) -> (r: &Base) {
        &self.base
    }
}

impl<Thir, Mir> HasOwnerId for State<Thir, Mir, usize> {
    open spec fn spec_owner_id(&self) -> usize {
        self.owner_id
    }

    fn owner_id(&self) -> (r: usize) {
        self.owner_id
    }
}

/// A body of a context: any type but `()`, which stands for no body.
pub trait IsBody {

}

impl<KIND> IsBody for crate::mir::body::MirBody<KIND> {

}

impl IsBody for crate::project::RawExpr {

}

impl<T: IsBody, Mir, OwnerId> HasThir for State<T, Mir, OwnerId> {
    type Thir = T;

    open spec fn spec_thir(&self) -> T {
        self.thir
    }

    fn thir(&self) -> (r: &T) {
        &self.thir
    }
}

impl<Thir, M: IsBody, OwnerId> HasMir for State<Thir, M, OwnerId> {
    type Mir = M;

    open spec fn spec_mir(&self) -> M {
        self.mir
    }

    fn mir(&self) -> (r: &M) {
        &self.mir
    }
}

} // verus!
