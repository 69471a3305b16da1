//! Lifecycle laws: properties that relate several plan operations, proved
//! over the same transition specifications the operations' contracts use.

use vstd::prelude::*;

use crate::descriptor::TransformDescriptor;
use crate::plan::{
    PlanState, configure_transition, destroy_releases, destroy_transition, exec_permitted,
};
use crate::status::cufftResult_t;

verus! {

/// A successful configuration call on a well-formed descriptor, from any live
/// state, permits every execution of the matching pairing on buffers at least
/// as large as the shape requires — however many times, since execution does
/// not change the state.
pub proof fn lemma_configured_plan_executes(
    s: PlanState,
    desc: TransformDescriptor,
    ilen: int,
    olen: int,
)
    requires
        !(s is Destroyed),
        desc.wf(),
        ilen >= desc.required_input_elems(),
        olen >= desc.required_output_elems(),
    ensures
        configure_transition(s, desc, cufftResult_t::CUFFT_SUCCESS) == PlanState::Configured(desc),
        exec_permitted(
            configure_transition(s, desc, cufftResult_t::CUFFT_SUCCESS),
            desc.kind,
            ilen,
            olen,
        ),
{
}

/// Destruction is idempotent: the first destruction releases the native
/// handle and ends in `Destroyed`; from `Destroyed`, destruction releases
/// nothing, so the handle is never released twice.
pub proof fn lemma_destroy_exactly_once(s: PlanState)
    ensures
        destroy_transition(s) is Destroyed,
        destroy_releases(s) <==> !(s is Destroyed),
        !destroy_releases(destroy_transition(s)),
{
}

/// A rejected configuration attempt leaves a live plan unconfigured, and an
/// unconfigured plan permits no execution of any pairing on any buffers.
pub proof fn lemma_failed_configuration_blocks_execution(
    s: PlanState,
    desc: TransformDescriptor,
    status: cufftResult_t,
)
    requires
        !(s is Destroyed),
        !(status is CUFFT_SUCCESS) || !desc.wf(),
    ensures
        configure_transition(s, desc, status) is Unconfigured,
        forall|k, ilen, olen| !exec_permitted(configure_transition(s, desc, status), k, ilen, olen),
{
}

/// A destroyed plan permits no execution, and stays destroyed under any
/// further configuration attempt.
pub proof fn lemma_destroyed_plan_stays_unusable(
    desc: TransformDescriptor,
    status: cufftResult_t,
)
    ensures
        forall|k, ilen, olen| !exec_permitted(PlanState::Destroyed, k, ilen, olen),
        configure_transition(PlanState::Destroyed, desc, status) is Destroyed,
{
}

} // verus!
