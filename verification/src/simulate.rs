//! Simulated runner: sends what a real run would send, without a process.

use vstd::prelude::*;
use crate::servers::{
    emission_views, exit_emission, Emission, EmissionView, MessageChannel, MessageView,
    ServerLifecycleEvent, ServerMessage, SimulationPlan, SimulationView,
};
use crate::text::{decimal, push_decimal};

verus! {

/// The notice a simulated run sends at `step`, counted from zero.
pub open spec fn dummy_notice(name: Seq<char>, step: nat) -> MessageView {
    MessageView {
        name,
        contents: "Dummy server running... "@ + decimal(step),
        channel: MessageChannel::Notice,
    }
}

/// What a simulated run sends at `step`: a notice while notices are left,
/// the exit event after the last.
pub open spec fn spec_dummy_step(plan: SimulationView, step: nat) -> EmissionView {
    if step < plan.notices {
        EmissionView::Message(dummy_notice(plan.name, step))
    } else {
        exit_emission(plan.name)
    }
}

/// Everything a simulated run sends, in order: its notices, then one exit
/// event.
pub open spec fn dummy_trace(plan: SimulationView) -> Seq<EmissionView> {
    Seq::new(plan.notices + 1, |step: int| spec_dummy_step(plan, step as nat))
}

/// What the simulated runner sends at `step`. After a notice it pauses for
/// the plan's interval and goes on to the next step; the exit event is its
/// last.
pub fn dummy_step(plan: &SimulationPlan, step: u32) -> (emission: Emission)
    ensures
        emission@ == spec_dummy_step(plan@, step as nat),
{
    if step < plan.notices {
        let mut contents = String::from_str("Dummy server running... ");
        push_decimal(&mut contents, step as u64);
        Emission::Message(
            ServerMessage { name: plan.name.clone(), contents, channel: MessageChannel::Notice },
        )
    } else {
        Emission::Lifecycle(ServerLifecycleEvent::Exited { name: plan.name.clone() })
    }
}

/// Runs a simulated run to its end and returns what it sent.
pub fn dummy_run(plan: &SimulationPlan) -> (emissions: Vec<Emission>)
    ensures
        emission_views(emissions@) == dummy_trace(plan@),
{
    let mut emissions: Vec<Emission> = Vec::new();
    let mut step: u32 = 0;
    while step < plan.notices
        invariant
            step <= plan.notices,
            emissions@.len() == step,
            forall|k: int|
                0 <= k < step ==> (#[trigger] emissions@[k])@ == spec_dummy_step(plan@, k as nat),
        decreases plan.notices - step,
    {
        emissions.push(dummy_step(plan, step));
        step += 1;
    }
    emissions.push(dummy_step(plan, step));
    assert(emission_views(emissions@) =~= dummy_trace(plan@));
    emissions
}

/// A simulated run sends exactly as many notices as its plan says, each
/// under the plan's name, and after them exactly one exit event.
pub proof fn lemma_dummy_trace_shape(plan: SimulationView)
    ensures
        dummy_trace(plan).len() == plan.notices + 1,
        forall|step: int|
            0 <= step < plan.notices ==> (#[trigger] dummy_trace(plan)[step]
                matches EmissionView::Message(message) && message.name == plan.name
                && message.channel == MessageChannel::Notice),
        dummy_trace(plan).last() == exit_emission(plan.name),
{
}

} // verus!
