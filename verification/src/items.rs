//! Items: the bounds written on them, and the impls among what was
//! exported.
use crate::ident::DefId;
use crate::ident::DefPathItem;
use crate::mir::place::TyIndex;
use crate::traits::bounds::ItemTable;
use crate::types::hir::GenericBounds;
use crate::types::ty::PredicateKind;
use vstd::prelude::*;

verus! {

/// What kind of item owns a list of bounds.
#[derive(Clone, Copy, Debug, PartialEq, Eq)]
pub enum OwnerKind {
    /// An associated type declared in a trait.
    TraitItemType,
    /// An opaque type, as `impl Trait` makes one.
    OpaqueTy,
    /// Any other item.
    Other,
}

/// A predicate as it is found on an item: its kind when it binds no
/// variable, and the handle of the span it was written at.
#[derive(Debug, PartialEq, Eq)]
pub struct BoundPredicate {
    pub kind: Option<PredicateKind>,
    pub span: usize,
}

impl OwnerKind {
    /// Whether the bounds of the owner are its item bounds rather than its
    /// predicates: so it is for an associated type and for an opaque type.
    pub open spec fn spec_use_item_bounds(self) -> bool {
        self == OwnerKind::TraitItemType || self == OwnerKind::OpaqueTy
    }

    pub fn use_item_bounds(&self) -> (r: bool)
        ensures
            r == self.spec_use_item_bounds(),
    {
        match self {
            OwnerKind::TraitItemType => true,
            OwnerKind::OpaqueTy => true,
            OwnerKind::Other => false,
        }
    }
}

/// The predicates that stand for the bounds of an owner.
pub open spec fn spec_chosen(
    owner: OwnerKind,
    item_bounds: Seq<BoundPredicate>,
    predicates: Seq<BoundPredicate>,
) -> Seq<BoundPredicate> {
    if owner.spec_use_item_bounds() {
        item_bounds
    } else {
        predicates
    }
}

/// The positions, among the first `k` predicates, of those that bind a
/// variable.
pub open spec fn binding_positions(chosen: Seq<BoundPredicate>, k: int) -> Seq<usize>
    decreases k,
{
    if k <= 0 {
        Seq::empty()
    } else if chosen[k - 1].kind.is_none() {
        binding_positions(chosen, k - 1).push(chosen[k - 1].span)
    } else {
        binding_positions(chosen, k - 1)
    }
}

/// The bounds of an owner. They are its item bounds for an associated type
/// or an opaque type, and its predicates otherwise. A predicate that binds
/// a variable cannot be represented: it is replaced by `Ambiguous`, and the
/// handle of its span is reported, in order, in the second part of the
/// result.
pub fn generic_bounds(
    owner: OwnerKind,
    item_bounds: Vec<BoundPredicate>,
    predicates: Vec<BoundPredicate>,
) -> (r: (GenericBounds, Vec<usize>))
    ensures
        r.0@.len() == spec_chosen(owner, item_bounds@, predicates@).len(),
        forall|i: int|
            0 <= i < r.0@.len() ==> (#[trigger] r.0@[i]) == (match spec_chosen(
                owner,
                item_bounds@,
                predicates@,
            )[i].kind {
                Some(k) => k,
                None => PredicateKind::Ambiguous,
            }),
        r.1@ == binding_positions(
            spec_chosen(owner, item_bounds@, predicates@),
            spec_chosen(owner, item_bounds@, predicates@).len() as int,
        ),
{
    let chosen = if owner.use_item_bounds() {
        item_bounds
    } else {
        predicates
    };
    let n = chosen.len();
    let mut rest = crate::project::reversed(chosen);
    let mut out: Vec<PredicateKind> = Vec::new();
    let mut failed: Vec<usize> = Vec::new();
    while rest.len() > 0
        invariant
            n == chosen@.len(),
            rest@.len() + out@.len() == n,
            forall|i: int| 0 <= i < rest@.len() ==> rest@[i] == chosen@[n - 1 - i],
            forall|i: int|
                0 <= i < out@.len() ==> (#[trigger] out@[i]) == (match chosen@[i].kind {
                    Some(k) => k,
                    None => PredicateKind::Ambiguous,
                }),
            failed@ == binding_positions(chosen@, out@.len() as int),
        decreases rest@.len(),
    {
        let ghost k = out@.len() as int;
        let pred = rest.pop().unwrap();
        assert(pred == chosen@[k]);
        match pred.kind {
            Some(kind) => {
                out.push(kind);
            },
            None => {
                failed.push(pred.span);
                out.push(PredicateKind::Ambiguous);
            },
        }
    }
    (out, failed)
}

impl DefId {
    /// Whether the identifier is that of an impl: the last segment of its
    /// path is `Impl`.
    pub open spec fn spec_is_impl(self) -> bool {
        self.path@.len() > 0 && self.path@[self.path@.len() - 1].data is Impl
    }

    pub fn is_impl(&self) -> (r: bool)
        ensures
            r == self.spec_is_impl(),
    {
        let n = self.path.len();
        if n == 0 {
            return false;
        }
        match self.path[n - 1].data {
            DefPathItem::Impl => true,
            _ => false,
        }
    }
}

/// The item `did` followed by the items that enclose it, from the inside
/// out.
pub open spec fn spec_with_parents(items: ItemTable, did: usize) -> Seq<usize>
    decreases did,
{
    if did >= items.items@.len() {
        seq![did]
    } else {
        match items.items@[did as int].parent {
            Some(p) if p < did => seq![did] + spec_with_parents(items, p),
            _ => seq![did],
        }
    }
}

/// The first `k` exported items, each followed by the items that enclose
/// it.
pub open spec fn spec_all_with_parents(items: ItemTable, exported: Seq<usize>, k: int) -> Seq<
    usize,
>
    decreases k,
{
    if k <= 0 {
        Seq::empty()
    } else {
        spec_all_with_parents(items, exported, k - 1) + spec_with_parents(items, exported[k - 1])
    }
}

/// The first `k` elements of `s` without repetition: each value where it
/// first occurs.
pub open spec fn spec_unique(s: Seq<usize>, k: int) -> Seq<usize>
    decreases k,
{
    if k <= 0 {
        Seq::empty()
    } else {
        let before = spec_unique(s, k - 1);
        if before.contains(s[k - 1]) {
            before
        } else {
            before.push(s[k - 1])
        }
    }
}

/// Those of the first `k` items of `ids` that are impls, in order.
pub open spec fn spec_impls(defs: Seq<DefId>, ids: Seq<usize>, k: int) -> Seq<usize>
    decreases k,
{
    if k <= 0 {
        Seq::empty()
    } else {
        let before = spec_impls(defs, ids, k - 1);
        if ids[k - 1] < defs.len() && defs[ids[k - 1] as int].spec_is_impl() {
            before.push(ids[k - 1])
        } else {
            before
        }
    }
}

/// Whether `x` occurs in `v`.
pub fn contains(v: &Vec<usize>, x: usize) -> (r: bool)
    ensures
        r == v@.contains(x),
{
    let mut i: usize = 0;
    while i < v.len()
        invariant
            i <= v@.len(),
            forall|j: int| 0 <= j < i ==> v@[j] != x,
        decreases v@.len() - i,
    {
        if v[i] == x {
            return true;
        }
        i += 1;
    }
    false
}

/// The elements of `s` without repetition, each where it first occurs.
pub fn unique(s: &Vec<usize>) -> (r: Vec<usize>)
    ensures
        r@ == spec_unique(s@, s@.len() as int),
{
    let mut out: Vec<usize> = Vec::new();
    let mut i: usize = 0;
    while i < s.len()
        invariant
            i <= s@.len(),
            out@ == spec_unique(s@, i as int),
        decreases s@.len() - i,
    {
        if !contains(&out, s[i]) {
            out.push(s[i]);
        }
        i += 1;
    }
    out
}

/// Whether `x` is among the first `k` elements of `s`.
pub open spec fn occurs(s: Seq<usize>, k: int, x: usize) -> bool {
    exists|j: int| 0 <= j < k && #[trigger] s[j] == x
}

/// A sequence without repetition holds each of its values once, and holds
/// exactly the values of the sequence it was made from.
pub proof fn lemma_unique(s: Seq<usize>, k: int)
    requires
        0 <= k <= s.len(),
    ensures
        spec_unique(s, k).no_duplicates(),
        forall|x: usize| spec_unique(s, k).contains(x) <==> occurs(s, k, x),
    decreases k,
{
    if k > 0 {
        lemma_unique(s, k - 1);
        let before = spec_unique(s, k - 1);
        let now = spec_unique(s, k);
        let last = s[k - 1];
        assert forall|x: usize| now.contains(x) <==> occurs(s, k, x) by {
            if now.contains(x) {
                if before.contains(x) {
                    assert(occurs(s, k - 1, x));
                    let j = choose|j: int| 0 <= j < k - 1 && #[trigger] s[j] == x;
                    assert(s[j] == x);
                } else {
                    let i = choose|i: int| 0 <= i < now.len() && now[i] == x;
                    if i < before.len() {
                        assert(before[i] == x);
                    }
                    assert(x == last);
                }
            }
            if occurs(s, k, x) {
                let j = choose|j: int| 0 <= j < k && #[trigger] s[j] == x;
                if j < k - 1 {
                    assert(occurs(s, k - 1, x));
                    assert(before.contains(x));
                    let i = choose|i: int| 0 <= i < before.len() && before[i] == x;
                    assert(now[i] == x);
                } else {
                    if before.contains(last) {
                    } else {
                        assert(now[before.len() as int] == x);
                    }
                }
            }
        }
    }
}

/// The impls among what was exported: every exported definition and every
/// definition that encloses one, taken once, that is an impl. `exported`
/// lists the handles of the exported definitions and `defs` gives the
/// identifier of each definition of the table.
pub fn impl_def_ids(items: &ItemTable, defs: &Vec<DefId>, exported: &Vec<usize>) -> (r: Vec<usize>)
    requires
        items.wf(),
    ensures
        ({
            let all = spec_all_with_parents(*items, exported@, exported@.len() as int);
            let once = spec_unique(all, all.len() as int);
            r@ == spec_impls(defs@, once, once.len() as int)
        }),
{
    let mut all: Vec<usize> = Vec::new();
    let mut i: usize = 0;
    while i < exported.len()
        invariant
            items.wf(),
            i <= exported@.len(),
            all@ == spec_all_with_parents(*items, exported@, i as int),
        decreases exported@.len() - i,
    {
        let ghost before = all@;
        let ghost start = exported@[i as int];
        let mut did = exported[i];
        all.push(did);
        let mut done = false;
        while !done
            invariant
                items.wf(),
                !done ==> all@.subrange(0, all@.len() - 1) + spec_with_parents(*items, did)
                    == before + spec_with_parents(*items, start),
                !done ==> all@.len() > 0 && all@[all@.len() - 1] == did,
                done ==> all@ == before + spec_with_parents(*items, start),
            decreases
                    if done {
                        0
                    } else {
                        did + 1
                    },
        {
            let ghost cur = all@;
            if did >= items.items.len() {
                done = true;
                assert(cur.subrange(0, cur.len() - 1) + seq![did] =~= cur);
            } else {
                match items.items[did].parent {
                    Some(p) => {
                        assert(p < did);
                        all.push(p);
                        assert(all@.subrange(0, all@.len() - 1) =~= cur);
                        assert(cur =~= cur.subrange(0, cur.len() - 1) + seq![did]);
                        assert(cur.subrange(0, cur.len() - 1) + (seq![did] + spec_with_parents(
                            *items,
                            p,
                        )) =~= cur + spec_with_parents(*items, p));
                        did = p;
                    },
                    None => {
                        done = true;
                        assert(cur.subrange(0, cur.len() - 1) + seq![did] =~= cur);
                    },
                }
            }
        }
        i += 1;
    }
    let once = unique(&all);
    let mut out: Vec<usize> = Vec::new();
    let mut k: usize = 0;
    while k < once.len()
        invariant
            k <= once@.len(),
            out@ == spec_impls(defs@, once@, k as int),
        decreases once@.len() - k,
    {
        let did = once[k];
        if did < defs.len() && defs[did].is_impl() {
            out.push(did);
        }
        k += 1;
    }
    out
}

/// An impl among what was exported: its definition, the type that it is
/// written for, and the clauses that bound it.
#[derive(Debug, PartialEq, Eq)]
pub struct ImpledTypeAndBounds {
    pub def_id: usize,
    pub ty: TyIndex,
    pub bounds: Vec<usize>,
}

/// The handles of the first `k` predicates of an item.
pub open spec fn spec_bound_handles(items: ItemTable, did: usize, k: int) -> Seq<usize>
    decreases k,
{
    if k <= 0 {
        Seq::empty()
    } else {
        spec_bound_handles(items, did, k - 1).push(
            items.items@[did as int].predicates@[k - 1].clause,
        )
    }
}

/// Every impl among what was exported, with the type that it is written
/// for and its bounds. The tables `defs` and `types_of` give, for each item
/// of `items`, its identifier and the type it defines.
pub fn impl_def_ids_to_impled_types_and_bounds(
    items: &ItemTable,
    defs: &Vec<DefId>,
    types_of: &Vec<TyIndex>,
    exported: &Vec<usize>,
) -> (r: Vec<ImpledTypeAndBounds>)
    requires
        items.wf(),
        defs@.len() == items.items@.len(),
        types_of@.len() == items.items@.len(),
    ensures
        ({
            let all = spec_all_with_parents(*items, exported@, exported@.len() as int);
            let once = spec_unique(all, all.len() as int);
            let ids = spec_impls(defs@, once, once.len() as int);
            &&& r@.len() == ids.len()
            &&& forall|i: int|
                0 <= i < ids.len() ==> {
                    &&& (#[trigger] r@[i]).def_id == ids[i]
                    &&& ids[i] < items.items@.len()
                    &&& r@[i].ty == types_of@[ids[i] as int]
                    &&& r@[i].bounds@ == spec_bound_handles(
                        *items,
                        ids[i],
                        items.items@[ids[i] as int].predicates@.len() as int,
                    )
                }
        }),
{
    let ids = impl_def_ids(items, defs, exported);
    let ghost all = spec_all_with_parents(*items, exported@, exported@.len() as int);
    let ghost once = spec_unique(all, all.len() as int);
    proof {
        lemma_impls_known(defs@, once, once.len() as int);
    }
    let mut out: Vec<ImpledTypeAndBounds> = Vec::new();
    let mut i: usize = 0;
    while i < ids.len()
        invariant
            i <= ids@.len(),
            out@.len() == i,
            defs@.len() == items.items@.len(),
            types_of@.len() == items.items@.len(),
            forall|j: int| 0 <= j < ids@.len() ==> (#[trigger] ids@[j]) < defs@.len(),
            forall|j: int|
                0 <= j < i ==> {
                    &&& (#[trigger] out@[j]).def_id == ids@[j]
                    &&& out@[j].ty == types_of@[ids@[j] as int]
                    &&& out@[j].bounds@ == spec_bound_handles(
                        *items,
                        ids@[j],
                        items.items@[ids@[j] as int].predicates@.len() as int,
                    )
                },
        decreases ids@.len() - i,
    {
        let did = ids[i];
        let preds = &items.items[did].predicates;
        let mut bounds: Vec<usize> = Vec::new();
        let mut k: usize = 0;
        while k < preds.len()
            invariant
                k <= preds@.len(),
                did < items.items@.len(),
                *preds == items.items@[did as int].predicates,
                bounds@ == spec_bound_handles(*items, did, k as int),
            decreases preds@.len() - k,
        {
            bounds.push(preds[k].clause);
            k += 1;
        }
        out.push(ImpledTypeAndBounds { def_id: did, ty: types_of[did], bounds });
        i += 1;
    }
    out
}

/// Every impl found has an identifier in the table.
pub proof fn lemma_impls_known(defs: Seq<DefId>, ids: Seq<usize>, k: int)
    requires
        0 <= k <= ids.len(),
    ensures
        forall|j: int|
            0 <= j < spec_impls(defs, ids, k).len() ==> (#[trigger] spec_impls(defs, ids, k)[j])
                < defs.len(),
    decreases k,
{
    if k > 0 {
        lemma_impls_known(defs, ids, k - 1);
        let before = spec_impls(defs, ids, k - 1);
        let now = spec_impls(defs, ids, k);
        assert forall|j: int| 0 <= j < now.len() implies (#[trigger] now[j]) < defs.len() by {
            if j < before.len() {
                assert(now[j] == before[j]);
            }
        }
    }
}

/// The name under which a `use` brings its path in: the name of the item
/// that the last segment of the path belongs to, when that item is a `use`
/// and has a name.
pub fn use_rename(is_use_item: bool, item_name: &String) -> (r: Option<String>)
    ensures
        r == if is_use_item && item_name@.len() > 0 {
            Some(*item_name)
        } else {
            None
        },
{
    if is_use_item && item_name.as_str().unicode_len() > 0 {
        Some(item_name.clone())
    } else {
        None
    }
}

} // verus!
