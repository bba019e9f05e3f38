use vstd::prelude::*;

use crate::api::{
    applied, apply_all, merge_node_levels, merge_status, read_whole, replace_whole, resource_of,
    Update,
};
use crate::state::{NodeLevels, NodeWeights, RyoState, Status};

verus! {

/// A whole-document read after a whole-document replace by `d` returns `d`,
/// whatever the document held before.
pub proof fn lemma_replace_then_read(s: RyoState, d: RyoState)
    ensures
        read_whole(replace_whole(s, d)) == d,
{
}

/// A node-levels write takes every ingredient id and name from the payload,
/// keeps every fill level, and leaves the other sub-resources as they were.
pub proof fn lemma_node_levels_write_keeps_levels(s: RyoState, l: NodeLevels)
    ensures
        ({
            let t = applied(s, Update::NodeLevels(l));
            &&& t.node_levels.node_a_level == s.node_levels.node_a_level
            &&& t.node_levels.node_b_level == s.node_levels.node_b_level
            &&& t.node_levels.node_c_level == s.node_levels.node_c_level
            &&& t.node_levels.node_d_level == s.node_levels.node_d_level
            &&& t.node_levels.node_a_level_ingredient_id == l.node_a_level_ingredient_id
            &&& t.node_levels.node_a_level_ingredient_name == l.node_a_level_ingredient_name
            &&& t.node_levels.node_b_level_ingredient_id == l.node_b_level_ingredient_id
            &&& t.node_levels.node_b_level_ingredient_name == l.node_b_level_ingredient_name
            &&& t.node_levels.node_c_level_ingredient_id == l.node_c_level_ingredient_id
            &&& t.node_levels.node_c_level_ingredient_name == l.node_c_level_ingredient_name
            &&& t.node_levels.node_d_level_ingredient_id == l.node_d_level_ingredient_id
            &&& t.node_levels.node_d_level_ingredient_name == l.node_d_level_ingredient_name
            &&& t == (RyoState { node_levels: merge_node_levels(s.node_levels, l), ..s })
        }),
{
}

/// A node-weights write replaces all four weights by the payload's, whatever
/// they were before.
pub proof fn lemma_node_weights_write_is_total(s: RyoState, w: NodeWeights)
    ensures
        applied(s, Update::NodeWeights(w)).node_weights == w,
        applied(s, Update::NodeWeights(w)) == (RyoState { node_weights: w, ..s }),
{
}

/// A status write sets the operating mode from the payload and keeps the
/// stored door state, whatever the payload's door state is.
pub proof fn lemma_status_write_keeps_door(s: RyoState, st: Status)
    ensures
        applied(s, Update::Status(st)).status.front_door_status == s.status.front_door_status,
        applied(s, Update::Status(st)).status.system_status == st.system_status,
        applied(s, Update::Status(st)) == (RyoState { status: merge_status(s.status, st), ..s }),
{
}

/// Applying the same update twice is applying it once.
pub proof fn lemma_update_idempotent(s: RyoState, u: Update)
    ensures
        applied(applied(s, u), u) == applied(s, u),
{
}

/// Two updates of different sub-resources give the same document in either order.
pub proof fn lemma_disjoint_updates_commute(s: RyoState, u1: Update, u2: Update)
    requires
        resource_of(u1) != resource_of(u2),
    ensures
        applied(applied(s, u1), u2) == applied(applied(s, u2), u1),
{
}

/// When updates of pairwise different sub-resources are applied one at a time,
/// in whatever order they are serialized, none is lost: the final document
/// already holds the effect of each of them.
pub proof fn lemma_no_update_lost(s: RyoState, us: Seq<Update>, i: int)
    requires
        0 <= i < us.len(),
        forall|j: int, k: int|
            0 <= j < us.len() && 0 <= k < us.len() && j != k ==> resource_of(us[j]) != resource_of(
                us[k],
            ),
    ensures
        applied(apply_all(s, us), us[i]) == apply_all(s, us),
    decreases us.len(),
{
    let n = us.len() - 1;
    let prefix = us.drop_last();
    let base = apply_all(s, prefix);
    if i == n {
        lemma_update_idempotent(base, us[i]);
    } else {
        assert(prefix[i] == us[i]);
        assert forall|j: int, k: int|
            0 <= j < prefix.len() && 0 <= k < prefix.len() && j != k implies resource_of(prefix[j])
            != resource_of(prefix[k]) by {
            assert(prefix[j] == us[j]);
            assert(prefix[k] == us[k]);
        }
        lemma_no_update_lost(s, prefix, i);
        lemma_disjoint_updates_commute(base, us[n], us[i]);
    }
}

} // verus!
