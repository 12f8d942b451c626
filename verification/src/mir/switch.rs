//! Switches on integers and booleans.
use crate::types::ty::IntTy;
use crate::types::ty::Ty;
use crate::types::ty::UintTy;
use vstd::prelude::*;

verus! {

/// Position of a basic block among the blocks of a body.
pub type BasicBlock = usize;

/// An integer type, signed or unsigned. There is no unsuffixed case.
#[derive(Clone, Copy, Debug, PartialEq, Eq)]
pub enum IntUintTy {
    Int(IntTy),
    Uint(UintTy),
}

/// An integer by its bytes.
#[derive(Clone, Copy, Debug, PartialEq, Eq)]
pub struct ScalarInt {
    /// Little-endian representation of the integer.
    pub data_le_bytes: [u8; 16],
    pub int_ty: IntUintTy,
}

/// Where a switch leads.
#[derive(Debug, PartialEq, Eq)]
pub enum SwitchTargets {
    /// The `if` block and the `else` block.
    If(BasicBlock, BasicBlock),
    /// The integer type, the values with the block each leads to, and the
    /// block for every other value. A match on an enumeration switches on
    /// the discriminant, which is an integer.
    SwitchInt(IntUintTy, Vec<(ScalarInt, BasicBlock)>, BasicBlock),
}

/// A switch that cannot be projected.
#[derive(Clone, Copy, Debug, PartialEq, Eq)]
pub enum SwitchFault {
    /// A switch on a boolean that does not test the single value 0.
    MalformedBoolSwitch,
    /// A switch on a value that is neither a boolean nor an integer.
    UnexpectedSwitchTy,
}

/// `v` after `k` bytes have been taken off its low end.
pub open spec fn shifted(v: u128, k: nat) -> u128
    decreases k,
{
    if k == 0 {
        v
    } else {
        shifted(v, (k - 1) as nat) / 256
    }
}

/// The byte of `v` of weight `256^k`.
pub open spec fn le_byte(v: u128, k: nat) -> u8 {
    (shifted(v, k) % 256) as u8
}

/// The sixteen bytes of `v`, lowest first.
pub open spec fn spec_le_bytes(v: u128) -> Seq<u8> {
    Seq::new(16, |k: int| le_byte(v, k as nat))
}

/// The bytes of `v`, lowest first. This reads the bits of `v` as they are:
/// no sign is interpreted.
pub fn le_bytes(v: u128) -> (r: [u8; 16])
    ensures
        r@ == spec_le_bytes(v),
{
    let mut out = [0u8; 16];
    let mut rem: u128 = v;
    let mut k: usize = 0;
    while k < 16
        invariant
            k <= 16,
            rem == shifted(v, k as nat),
            forall|j: int| 0 <= j < k ==> out@[j] == le_byte(v, j as nat),
        decreases 16 - k,
    {
        out[k] = (rem % 256) as u8;
        rem = rem / 256;
        k += 1;
    }
    assert(out@ =~= spec_le_bytes(v));
    out
}

/// The integer type that a type is, if it is one.
pub open spec fn spec_int_ty(ty: Ty) -> Option<IntUintTy> {
    match ty {
        Ty::Int(t) => Some(IntUintTy::Int(t)),
        Ty::Uint(t) => Some(IntUintTy::Uint(t)),
        _ => None,
    }
}

/// The targets of a switch on a value of type `switch_ty`.
/// - On a boolean, the single tested value is 0: its block is the `else`
///   block, and `otherwise` is the `if` block.
/// - On an integer, every tested value is given by its bytes.
pub open spec fn spec_switch_targets(
    switch_ty: Ty,
    targets: Seq<(u128, BasicBlock)>,
    otherwise: BasicBlock,
    r: Result<SwitchTargets, SwitchFault>,
) -> bool {
    match switch_ty {
        Ty::Bool => {
            if targets.len() == 1 && targets[0].0 == 0 {
                r == Ok::<SwitchTargets, SwitchFault>(SwitchTargets::If(otherwise, targets[0].1))
            } else {
                r == Err::<SwitchTargets, SwitchFault>(SwitchFault::MalformedBoolSwitch)
            }
        },
        _ => match spec_int_ty(switch_ty) {
            Some(int_ty) => {
                &&& r matches Ok(SwitchTargets::SwitchInt(t, map, other))
                &&& t == int_ty
                &&& other == otherwise
                &&& map@.len() == targets.len()
                &&& forall|i: int|
                    0 <= i < targets.len() ==> (#[trigger] map@[i]) == (
                        ScalarInt { data_le_bytes: map@[i].0.data_le_bytes, int_ty },
                        targets[i].1,
                    ) && map@[i].0.data_le_bytes@ == spec_le_bytes(targets[i].0)
            },
            None => r == Err::<SwitchTargets, SwitchFault>(SwitchFault::UnexpectedSwitchTy),
        },
    }
}

/// Projects the targets of a switch on a value of type `switch_ty`:
/// `targets` pairs each tested value with its block, and `otherwise` is the
/// block for the rest.
pub fn translate_switch_targets(
    switch_ty: &Ty,
    targets: &Vec<(u128, BasicBlock)>,
    otherwise: BasicBlock,
) -> (r: Result<SwitchTargets, SwitchFault>)
    ensures
        spec_switch_targets(*switch_ty, targets@, otherwise, r),
{
    match switch_ty {
        Ty::Bool => {
            if targets.len() == 1 && targets[0].0 == 0 {
                Ok(SwitchTargets::If(otherwise, targets[0].1))
            } else {
                Err(SwitchFault::MalformedBoolSwitch)
            }
        },
        Ty::Int(_) | Ty::Uint(_) => {
            let int_ty = match switch_ty {
                Ty::Int(t) => IntUintTy::Int(*t),
                Ty::Uint(t) => IntUintTy::Uint(*t),
                _ => {
                    return Err(SwitchFault::UnexpectedSwitchTy);
                },
            };
            let mut map: Vec<(ScalarInt, BasicBlock)> = Vec::new();
            let mut i: usize = 0;
            while i < targets.len()
                invariant
                    i <= targets@.len(),
                    map@.len() == i,
                    forall|j: int|
                        0 <= j < i ==> (#[trigger] map@[j]) == (
                            ScalarInt { data_le_bytes: map@[j].0.data_le_bytes, int_ty },
                            targets@[j].1,
                        ) && map@[j].0.data_le_bytes@ == spec_le_bytes(targets@[j].0),
                decreases targets@.len() - i,
            {
                let v = ScalarInt { data_le_bytes: le_bytes(targets[i].0), int_ty };
                map.push((v, targets[i].1));
                i += 1;
            }
            Ok(SwitchTargets::SwitchInt(int_ty, map, otherwise))
        },
        _ => Err(SwitchFault::UnexpectedSwitchTy),
    }
}

} // verus!
