use vstd::prelude::*;

use crate::plan::{lemma_sequenced_plan_runs_every_cycle, runs_cycles_in_order, all_cycles, cycles_actions, horn_actions, sequenced_actions, HornAction};
use crate::request::{
    opt_request_view, request_is_processable, ActivateHornRequest, HornMode, HornModeValue,
};

verus! {

/// Turns horn requests into the commands for the horn actuator.
pub struct HornService {}

impl HornService {
    /// A horn service.
    pub fn new() -> (service: HornService) {
        HornService {}
    }

    /// The actuator commands that carry out a request.
    ///
    /// - If the request is `None`, the horn is switched off.
    /// - Otherwise the mode decides: a sequenced request runs its cycles, a
    ///   continuous one switches the horn on, and the unknown and unspecified
    ///   modes are reported.
    pub fn process_horn_activation_request(&self, request: Option<ActivateHornRequest>) -> (actions: Vec<HornAction>)
        requires
            request_is_processable(opt_request_view(request)),
        ensures
            actions@ == horn_actions(opt_request_view(request)),
            request is None ==> actions@ == seq![HornAction::SetHornActive(false)],
            request matches Some(r) ==> (r.mode == HornModeValue::Known(HornMode::Sequenced)
                ==> runs_cycles_in_order(actions@, r@.command.flatten())),
            request matches Some(r) ==> (r.mode == HornModeValue::Known(HornMode::Continuous)
                ==> actions@ == seq![HornAction::SetHornActive(true)]),
    {
        proof {
            if request is Some && request.unwrap().mode == HornModeValue::Known(HornMode::Sequenced) {
                lemma_sequenced_plan_runs_every_cycle(request.unwrap()@);
            }
        }
        match request {
            None => self.send_deactivate_horn_request(),
            Some(r) => match r.mode {
                HornModeValue::Known(HornMode::Sequenced) => self.send_sequential_horn_request_to_actuator(r),
                HornModeValue::Known(HornMode::Continuous) => self.send_continuous_horn_request_to_actuator(),
                HornModeValue::Known(HornMode::Unknown) => vec![HornAction::ReportMode(HornMode::Unknown)],
                HornModeValue::Known(HornMode::Unspecified) => vec![HornAction::ReportMode(HornMode::Unspecified)],
                HornModeValue::Unrecognized(_) => Vec::new(),
            },
        }
    }

    /// The command that switches the horn off.
    fn send_deactivate_horn_request(&self) -> (actions: Vec<HornAction>)
        ensures
            actions@ == seq![HornAction::SetHornActive(false)],
    {
        vec![HornAction::SetHornActive(false)]
    }

    /// The command that switches the horn on until further notice.
    fn send_continuous_horn_request_to_actuator(&self) -> (actions: Vec<HornAction>)
        ensures
            actions@ == seq![HornAction::SetHornActive(true)],
    {
        vec![HornAction::SetHornActive(true)]
    }

    /// For each sequence in the request, and each cycle in it: on, wait the
    /// on time, off, wait the off time.
    fn send_sequential_horn_request_to_actuator(&self, request: ActivateHornRequest) -> (actions: Vec<HornAction>)
        ensures
            actions@ == cycles_actions(all_cycles(request@.command)),
    {
        sequenced_actions(&request)
    }
}

} // verus!
