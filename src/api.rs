use vstd::prelude::*;

use crate::state::{
    system_status_of, system_status_token, ApiError, ApiResponse, JobSetupStep, NodeLevels,
    NodeWeights, RyoState, Status, SystemCleaningMaintenance, SystemStatus,
};

verus! {

/// Node levels after a write of `new` onto `cur`: every ingredient id and name
/// is taken from `new`, every fill level is kept from `cur`.
pub open spec fn merge_node_levels(cur: NodeLevels, new: NodeLevels) -> NodeLevels {
    NodeLevels {
        node_a_level: cur.node_a_level,
        node_a_level_ingredient_id: new.node_a_level_ingredient_id,
        node_a_level_ingredient_name: new.node_a_level_ingredient_name,
        node_b_level: cur.node_b_level,
        node_b_level_ingredient_id: new.node_b_level_ingredient_id,
        node_b_level_ingredient_name: new.node_b_level_ingredient_name,
        node_c_level: cur.node_c_level,
        node_c_level_ingredient_id: new.node_c_level_ingredient_id,
        node_c_level_ingredient_name: new.node_c_level_ingredient_name,
        node_d_level: cur.node_d_level,
        node_d_level_ingredient_id: new.node_d_level_ingredient_id,
        node_d_level_ingredient_name: new.node_d_level_ingredient_name,
    }
}

/// Status after a write of `new` onto `cur`: the mode is taken from `new`,
/// the door state is kept from `cur`.
pub open spec fn merge_status(cur: Status, new: Status) -> Status {
    Status { front_door_status: cur.front_door_status, system_status: new.system_status }
}

/// A write scoped to one sub-resource of the state document.
#[derive(Debug, Clone)]
pub enum Update {
    JobQty(usize),
    NodeLevels(NodeLevels),
    NodeWeights(NodeWeights),
    Status(Status),
    SystemCleaningMaintenance(SystemCleaningMaintenance),
    JobSetupStep(JobSetupStep),
}

/// Which sub-resource an update writes.
pub open spec fn resource_of(u: Update) -> int {
    match u {
        Update::JobQty(_) => 0,
        Update::NodeLevels(_) => 1,
        Update::NodeWeights(_) => 2,
        Update::Status(_) => 3,
        Update::SystemCleaningMaintenance(_) => 4,
        Update::JobSetupStep(_) => 5,
    }
}

/// The state document after `u` is applied to `s`: the named sub-resource is
/// replaced or merged by its own policy, everything else stays.
pub open spec fn applied(s: RyoState, u: Update) -> RyoState {
    match u {
        Update::JobQty(q) => RyoState { job_qty: q, ..s },
        Update::NodeLevels(l) => RyoState {
            node_levels: merge_node_levels(s.node_levels, l),
            ..s
        },
        Update::NodeWeights(w) => RyoState { node_weights: w, ..s },
        Update::Status(st) => RyoState { status: merge_status(s.status, st), ..s },
        Update::SystemCleaningMaintenance(c) => RyoState { system_cleaning_maintenance: c, ..s },
        Update::JobSetupStep(j) => RyoState { job_setup_step: j, ..s },
    }
}

/// The state document after the updates of `us` are applied to `s` in order.
pub open spec fn apply_all(s: RyoState, us: Seq<Update>) -> RyoState
    decreases us.len(),
{
    if us.len() == 0 {
        s
    } else {
        applied(apply_all(s, us.drop_last()), us.last())
    }
}

/// What a whole-document read of `s` returns.
pub open spec fn read_whole(s: RyoState) -> RyoState {
    s
}

/// The state document after `s` is replaced by `d`: nothing of `s` is kept.
pub open spec fn replace_whole(s: RyoState, d: RyoState) -> RyoState {
    d
}

/// The whole state document.
pub fn get_state(state: &RyoState) -> (r: RyoState)
    ensures
        r == read_whole(*state),
{
    state.snapshot()
}

/// Replaces the whole state document.
pub fn update_state(state: &mut RyoState, new_state: RyoState) -> (r: Result<ApiResponse, ApiError>)
    ensures
        *final(state) == replace_whole(*old(state), new_state),
        r == Ok::<ApiResponse, ApiError>(ApiResponse::Success),
{
    *state = new_state;
    Ok(ApiResponse::Success)
}

/// The job progress counter.
pub fn get_job_progress(state: &RyoState) -> (r: usize)
    ensures
        r == state.job_progress,
{
    state.job_progress
}

/// Sets the job quantity, leaving the rest of the document as it is.
pub fn update_job_qty(state: &mut RyoState, job_qty: usize) -> (r: Result<ApiResponse, ApiError>)
    ensures
        *final(state) == applied(*old(state), Update::JobQty(job_qty)),
        r == Ok::<ApiResponse, ApiError>(ApiResponse::Success),
{
    state.job_qty = job_qty;
    Ok(ApiResponse::Success)
}

/// The node levels.
pub fn get_node_levels(state: &RyoState) -> (r: NodeLevels)
    ensures
        r == state.node_levels,
{
    state.node_levels.snapshot()
}

/// Writes every ingredient id and name of `new_state` into the node levels;
/// the fill levels are not written here.
pub fn update_node_levels(state: &mut RyoState, new_state: NodeLevels) -> (r: Result<
    ApiResponse,
    ApiError,
>)
    ensures
        *final(state) == applied(*old(state), Update::NodeLevels(new_state)),
        r == Ok::<ApiResponse, ApiError>(ApiResponse::Success),
{
    state.node_levels.node_a_level_ingredient_id = new_state.node_a_level_ingredient_id;
    state.node_levels.node_a_level_ingredient_name = new_state.node_a_level_ingredient_name;
    state.node_levels.node_b_level_ingredient_id = new_state.node_b_level_ingredient_id;
    state.node_levels.node_b_level_ingredient_name = new_state.node_b_level_ingredient_name;
    state.node_levels.node_c_level_ingredient_id = new_state.node_c_level_ingredient_id;
    state.node_levels.node_c_level_ingredient_name = new_state.node_c_level_ingredient_name;
    state.node_levels.node_d_level_ingredient_id = new_state.node_d_level_ingredient_id;
    state.node_levels.node_d_level_ingredient_name = new_state.node_d_level_ingredient_name;
    Ok(ApiResponse::Success)
}

/// The node weights.
pub fn get_node_weights(state: &RyoState) -> (r: NodeWeights)
    ensures
        r == state.node_weights,
{
    state.node_weights
}

/// Replaces all four node weights.
pub fn update_node_weight(state: &mut RyoState, new_weights: NodeWeights) -> (r: Result<
    ApiResponse,
    ApiError,
>)
    ensures
        *final(state) == applied(*old(state), Update::NodeWeights(new_weights)),
        r == Ok::<ApiResponse, ApiError>(ApiResponse::Success),
{
    state.node_weights = new_weights;
    Ok(ApiResponse::Success)
}

/// The status.
pub fn get_status(state: &RyoState) -> (r: Status)
    ensures
        r == state.status,
{
    state.status.snapshot()
}

/// Writes the operating mode of `new_status`; the door state is not written here.
pub fn update_status(state: &mut RyoState, new_status: Status) -> (r: Result<
    ApiResponse,
    ApiError,
>)
    ensures
        *final(state) == applied(*old(state), Update::Status(new_status)),
        r == Ok::<ApiResponse, ApiError>(ApiResponse::Success),
{
    state.status.system_status = new_status.system_status;
    Ok(ApiResponse::Success)
}

/// Decodes a status payload whose mode is given by its wire token, and writes
/// it as `update_status` does. An unknown token is refused as a bad request
/// before the document is touched.
pub fn post_status(state: &mut RyoState, front_door_status: String, system_status: &str) -> (r:
    Result<ApiResponse, ApiError>)
    ensures
        match system_status_of(system_status@) {
            None => {
                &&& r == Err::<ApiResponse, ApiError>(ApiError::BadRequest)
                &&& *final(state) == *old(state)
            },
            Some(m) => {
                &&& r == Ok::<ApiResponse, ApiError>(ApiResponse::Success)
                &&& *final(state) == applied(
                    *old(state),
                    Update::Status(Status { front_door_status, system_status: m }),
                )
            },
        },
        (forall|m: SystemStatus| system_status_token(m) != system_status@) <==> (r
            == Err::<ApiResponse, ApiError>(ApiError::BadRequest)),
{
    match SystemStatus::from_token(system_status) {
        Some(m) => update_status(state, Status { front_door_status, system_status: m }),
        None => Err(ApiError::BadRequest),
    }
}

/// The cleaning and maintenance flags.
pub fn get_sys_clean_maint(state: &RyoState) -> (r: SystemCleaningMaintenance)
    ensures
        r == state.system_cleaning_maintenance,
{
    state.system_cleaning_maintenance.snapshot()
}

/// Replaces all four cleaning and maintenance flags.
pub fn update_sys_cleaning_maintenance(
    state: &mut RyoState,
    new_system_cleaning_maintenance: SystemCleaningMaintenance,
) -> (r: Result<ApiResponse, ApiError>)
    ensures
        *final(state) == applied(
            *old(state),
            Update::SystemCleaningMaintenance(new_system_cleaning_maintenance),
        ),
        r == Ok::<ApiResponse, ApiError>(ApiResponse::Success),
{
    state.system_cleaning_maintenance = new_system_cleaning_maintenance;
    Ok(ApiResponse::Success)
}

/// The setup wizard steps.
pub fn get_job_setup(state: &RyoState) -> (r: JobSetupStep)
    ensures
        r == state.job_setup_step,
{
    state.job_setup_step.snapshot()
}

/// Replaces all six setup wizard steps.
pub fn update_job_setup(state: &mut RyoState, new_job_setup: JobSetupStep) -> (r: Result<
    ApiResponse,
    ApiError,
>)
    ensures
        *final(state) == applied(*old(state), Update::JobSetupStep(new_job_setup)),
        r == Ok::<ApiResponse, ApiError>(ApiResponse::Success),
{
    state.job_setup_step = new_job_setup;
    Ok(ApiResponse::Success)
}

/// Applies one sub-resource update to the document, by that resource's policy.
pub fn mutate(state: &mut RyoState, update: Update) -> (r: Result<ApiResponse, ApiError>)
    ensures
        *final(state) == applied(*old(state), update),
        r == Ok::<ApiResponse, ApiError>(ApiResponse::Success),
{
    match update {
        Update::JobQty(q) => update_job_qty(state, q),
        Update::NodeLevels(l) => update_node_levels(state, l),
        Update::NodeWeights(w) => update_node_weight(state, w),
        Update::Status(st) => update_status(state, st),
        Update::SystemCleaningMaintenance(c) => update_sys_cleaning_maintenance(state, c),
        Update::JobSetupStep(j) => update_job_setup(state, j),
    }
}

} // verus!
