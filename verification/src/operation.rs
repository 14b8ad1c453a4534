use vstd::prelude::*;

verus! {

/// One arithmetic modifier offered as a candidate path. Applying it changes
/// the player's force; the battle is then resolved against the opposing force.
#[derive(Clone, Copy, Debug, PartialEq, Eq, Structural)]
pub enum Operation {
    Add(i32),
    Subtract(i32),
    Multiply(i32),
    Divide(i32),
}

/// Integer division truncating toward zero, the behaviour of machine
/// division. A zero divisor is mapped to zero to make the function total;
/// every use is guarded by a nonzero divisor.
pub open spec fn div_trunc(x: int, d: int) -> int {
    if d == 0 {
        0
    } else if x >= 0 && d > 0 {
        x / d
    } else if x < 0 && d < 0 {
        (-x) / (-d)
    } else if x < 0 {
        -((-x) / d)
    } else {
        -(x / (-d))
    }
}

/// The force that results from applying `op` to a force of size `own`.
pub open spec fn op_result(op: Operation, own: int) -> int {
    match op {
        Operation::Add(v) => own + v,
        Operation::Subtract(v) => own - v,
        Operation::Multiply(v) => own * v,
        Operation::Divide(v) => div_trunc(own, v as int),
    }
}

/// An operation is winning for the force pair (own, opp) exactly when
/// applying it leaves the player's force strictly above the opposing force.
pub open spec fn wins(op: Operation, own: int, opp: int) -> bool {
    op_result(op, own) > opp
}

/// A Divide operation never carries a zero divisor.
pub open spec fn divisor_nonzero(op: Operation) -> bool {
    op matches Operation::Divide(v) ==> v != 0
}

/// Resolving a battle subtracts the opposing force from the player's force
/// and declares victory exactly when the remainder is positive. An operation
/// classified as winning for (own, opp) therefore always yields victory when
/// applied to those forces, and one classified as losing never does.
pub proof fn lemma_classification_decides_outcome(op: Operation, own: int, opp: int)
    ensures
        wins(op, own, opp) <==> op_result(op, own) - opp > 0,
{
}

/// Dividing by a positive divisor can never lift the player's force past an
/// opposing force that is at least as large, which is why Divide is never
/// offered as a winning path.
pub proof fn lemma_divide_never_wins(v: i32, own: int, opp: int)
    requires
        1 <= own <= opp,
        v >= 1,
    ensures
        !wins(Operation::Divide(v), own, opp),
{
    vstd::arithmetic::div_mod::lemma_div_nonincreasing(own, v as int);
}

} // verus!
