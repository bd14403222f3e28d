//! What holds of every write to a style, and so of every utility method:
//! each of them is specified as one [`written`] step.

use vstd::prelude::*;
use crate::style::{written, Prop, Style, Value};

verus! {

/// A write puts its value on each of its targets and touches nothing else:
/// any other property is set afterwards exactly if it was set before, and to
/// the same value.
pub proof fn lemma_write_is_local(style: Style, targets: Set<Prop>, value: Value, p: Prop)
    ensures
        targets.contains(p) ==> written(style@, targets, value).dom().contains(p) && written(
            style@,
            targets,
            value,
        )[p] == value,
        !targets.contains(p) ==> written(style@, targets, value).dom().contains(p)
            == style@.dom().contains(p),
        !targets.contains(p) && style@.dom().contains(p) ==> written(style@, targets, value)[p]
            == style@[p],
{
}

/// Writing the same value to the same properties twice in a row leaves the
/// style as it is after the first write.
pub proof fn lemma_write_is_idempotent(style: Style, targets: Set<Prop>, value: Value)
    ensures
        written(written(style@, targets, value), targets, value) == written(
            style@,
            targets,
            value,
        ),
{
    assert(written(written(style@, targets, value), targets, value) =~= written(
        style@,
        targets,
        value,
    ));
}

/// Of two writes to the same properties the later one wins: the style is as
/// if the earlier write had never been made.
pub proof fn lemma_last_write_wins(style: Style, targets: Set<Prop>, earlier: Value, later: Value)
    ensures
        written(written(style@, targets, earlier), targets, later) == written(
            style@,
            targets,
            later,
        ),
{
    assert(written(written(style@, targets, earlier), targets, later) =~= written(
        style@,
        targets,
        later,
    ));
}

/// Of two writes whose targets overlap only in part, the later one decides
/// every property it targets, and the earlier one keeps those that only it
/// targets.
pub proof fn lemma_later_write_decides(
    style: Style,
    earlier_targets: Set<Prop>,
    earlier: Value,
    later_targets: Set<Prop>,
    later: Value,
    p: Prop,
)
    ensures
        later_targets.contains(p) ==> written(
            written(style@, earlier_targets, earlier),
            later_targets,
            later,
        )[p] == later,
        earlier_targets.contains(p) && !later_targets.contains(p) ==> written(
            written(style@, earlier_targets, earlier),
            later_targets,
            later,
        )[p] == earlier,
{
}

/// Writes to disjoint sets of properties do not interact: they may be made in
/// either order.
pub proof fn lemma_disjoint_writes_commute(
    style: Style,
    a_targets: Set<Prop>,
    a: Value,
    b_targets: Set<Prop>,
    b: Value,
)
    requires
        a_targets.disjoint(b_targets),
    ensures
        written(written(style@, a_targets, a), b_targets, b) == written(
            written(style@, b_targets, b),
            a_targets,
            a,
        ),
{
    assert(written(written(style@, a_targets, a), b_targets, b) =~= written(
        written(style@, b_targets, b),
        a_targets,
        a,
    ));
}

} // verus!
