use vstd::prelude::*;

use crate::request::{ActivateHornRequest, ActivateHornRequestView, HornCycle, HornMode, HornModeValue};

verus! {

/// One step of carrying out a horn request.
#[derive(Clone, Copy, Debug, PartialEq, Eq, Structural)]
pub enum HornAction {
    /// Switch the horn on (`true`) or off (`false`).
    SetHornActive(bool),
    /// Wait for the given number of milliseconds.
    Sleep(u64),
    /// Report that the request names a mode that sounds nothing.
    ReportMode(HornMode),
}

/// The four steps of one cycle: on, wait the on time, off, wait the off time.
pub open spec fn cycle_actions(c: HornCycle) -> Seq<HornAction> {
    seq![
        HornAction::SetHornActive(true),
        HornAction::Sleep(c.on_time as u64),
        HornAction::SetHornActive(false),
        HornAction::Sleep(c.off_time as u64),
    ]
}

/// The steps of a list of cycles, one cycle after the other.
pub open spec fn cycles_actions(cycles: Seq<HornCycle>) -> Seq<HornAction>
    decreases cycles.len(),
{
    if cycles.len() == 0 {
        seq![]
    } else {
        cycles_actions(cycles.drop_last()) + cycle_actions(cycles.last())
    }
}

/// All cycles of all sequences, in order.
pub open spec fn all_cycles(command: Seq<Seq<HornCycle>>) -> Seq<HornCycle>
    decreases command.len(),
{
    if command.len() == 0 {
        seq![]
    } else {
        all_cycles(command.drop_last()) + command.last()
    }
}

/// The steps that carry out a request.
///
/// No request switches the horn off; a sequenced request runs every cycle of
/// every sequence in order; a continuous request switches the horn on; the
/// unknown and unspecified modes are reported and sound nothing.
pub open spec fn horn_actions(request: Option<ActivateHornRequestView>) -> Seq<HornAction> {
    match request {
        None => seq![HornAction::SetHornActive(false)],
        Some(r) => match r.mode {
            HornModeValue::Known(HornMode::Sequenced) => cycles_actions(all_cycles(r.command)),
            HornModeValue::Known(HornMode::Continuous) => seq![HornAction::SetHornActive(true)],
            HornModeValue::Known(HornMode::Unknown) => seq![HornAction::ReportMode(HornMode::Unknown)],
            HornModeValue::Known(HornMode::Unspecified) => seq![HornAction::ReportMode(HornMode::Unspecified)],
            HornModeValue::Unrecognized(_) => seq![],
        },
    }
}

/// Steps `4k` to `4k + 3` of `actions` are the steps of cycle `c`.
pub open spec fn cycle_at(actions: Seq<HornAction>, k: int, c: HornCycle) -> bool {
    &&& actions[4 * k] == HornAction::SetHornActive(true)
    &&& actions[4 * k + 1] == HornAction::Sleep(c.on_time as u64)
    &&& actions[4 * k + 2] == HornAction::SetHornActive(false)
    &&& actions[4 * k + 3] == HornAction::Sleep(c.off_time as u64)
}

/// How the steps of a list of cycles are laid out: four steps per cycle, and
/// cycle `k` occupies steps `4k` to `4k + 3` as on, wait its on time, off,
/// wait its off time.
pub proof fn lemma_cycles_actions_layout(cycles: Seq<HornCycle>)
    ensures
        cycles_actions(cycles).len() == 4 * cycles.len(),
        forall|k: int|
            0 <= k < cycles.len() ==> cycle_at(cycles_actions(cycles), k, #[trigger] cycles[k]),
    decreases cycles.len(),
{
    if cycles.len() > 0 {
        let init = cycles.drop_last();
        lemma_cycles_actions_layout(init);
        let a = cycles_actions(cycles);
        let b = cycles_actions(init);
        assert(a == b + cycle_actions(cycles.last()));
        assert forall|k: int| 0 <= k < cycles.len() implies cycle_at(a, k, #[trigger] cycles[k]) by {
            if k < init.len() {
                assert(cycles[k] == init[k]);
                assert(cycle_at(b, k, init[k]));
                assert(a[4 * k] == b[4 * k]);
                assert(a[4 * k + 1] == b[4 * k + 1]);
                assert(a[4 * k + 2] == b[4 * k + 2]);
                assert(a[4 * k + 3] == b[4 * k + 3]);
            } else {
                assert(k == init.len());
                assert(cycles[k] == cycles.last());
            }
        }
    }
}

/// `actions` are the steps of `cycles` run one after the other: four steps
/// per cycle, and steps `4k` to `4k + 3` switch the horn on, wait cycle `k`'s
/// on time, switch it off and wait cycle `k`'s off time.
pub open spec fn runs_cycles_in_order(actions: Seq<HornAction>, cycles: Seq<HornCycle>) -> bool {
    &&& actions.len() == 4 * cycles.len()
    &&& forall|k: int| 0 <= k < cycles.len() ==> cycle_at(actions, k, #[trigger] cycles[k])
}

/// The cycles of a command are its sequences joined in order, none left out
/// and none shortened: they are the command's flattening.
pub proof fn lemma_all_cycles_is_flatten(command: Seq<Seq<HornCycle>>)
    ensures
        all_cycles(command) == command.flatten(),
    decreases command.len(),
{
    command.lemma_flatten_and_flatten_alt_are_equivalent();
    lemma_all_cycles_is_flatten_alt(command);
}

proof fn lemma_all_cycles_is_flatten_alt(command: Seq<Seq<HornCycle>>)
    ensures
        all_cycles(command) == command.flatten_alt(),
    decreases command.len(),
{
    if command.len() > 0 {
        lemma_all_cycles_is_flatten_alt(command.drop_last());
    }
}

/// Adding a sequence to a command adds all of its cycles, in order, after
/// the cycles already there.
pub proof fn lemma_all_cycles_push(command: Seq<Seq<HornCycle>>, s: Seq<HornCycle>)
    ensures
        all_cycles(command.push(s)) == all_cycles(command) + s,
        all_cycles(command.push(s)).len() == all_cycles(command).len() + s.len(),
{
    lemma_all_cycles_is_flatten(command.push(s));
    lemma_all_cycles_is_flatten(command);
    command.lemma_flatten_push(s);
}

/// A sequenced request runs every cycle of every sequence, in order: its
/// steps number four times the cycles of the whole command, and block `k`
/// switches the horn on for the `k`-th cycle of the flattened command, then
/// off for its off time.
pub proof fn lemma_sequenced_plan_runs_every_cycle(request: ActivateHornRequestView)
    requires
        request.mode == HornModeValue::Known(HornMode::Sequenced),
    ensures
        horn_actions(Some(request)).len() == 4 * request.command.flatten().len(),
        forall|k: int|
            0 <= k < request.command.flatten().len() ==> cycle_at(
                horn_actions(Some(request)),
                k,
                #[trigger] request.command.flatten()[k],
            ),
{
    lemma_all_cycles_is_flatten(request.command);
    lemma_cycles_actions_layout(request.command.flatten());
}

/// The steps of cycles laid out as [`runs_cycles_in_order`] says.
pub proof fn lemma_cycles_actions_run_in_order(cycles: Seq<HornCycle>)
    ensures
        runs_cycles_in_order(cycles_actions(cycles), cycles),
{
    lemma_cycles_actions_layout(cycles);
}

/// In the steps of a sequenced request the horn is never left sounding: each
/// step that switches it on is followed, two steps later, by one that switches
/// it off, after a wait of the cycle's on time.
pub proof fn lemma_sequenced_activation_is_followed_by_deactivation(request: ActivateHornRequestView)
    requires
        request.mode == HornModeValue::Known(HornMode::Sequenced),
    ensures
        ({
            let a = horn_actions(Some(request));
            forall|i: int|
                0 <= i < a.len() && #[trigger] a[i] == HornAction::SetHornActive(true) ==> {
                    &&& i + 2 < a.len()
                    &&& a[i + 1] is Sleep
                    &&& a[i + 2] == HornAction::SetHornActive(false)
                }
        }),
{
    let cycles = all_cycles(request.command);
    let a = horn_actions(Some(request));
    assert(a == cycles_actions(cycles));
    lemma_cycles_actions_layout(cycles);
    assert forall|i: int|
        0 <= i < a.len() && #[trigger] a[i] == HornAction::SetHornActive(true) implies {
            &&& i + 2 < a.len()
            &&& a[i + 1] is Sleep
            &&& a[i + 2] == HornAction::SetHornActive(false)
        } by {
        let k = i / 4;
        let r = i % 4;
        vstd::arithmetic::div_mod::lemma_fundamental_div_mod(i, 4);
        assert(i == 4 * k + r && 0 <= r < 4);
        assert(0 <= k < cycles.len());
        let c = cycles[k];
        assert(cycle_at(a, k, c));
        if r == 1 {
            assert(a[4 * k + 1] == HornAction::Sleep(c.on_time as u64));
        } else if r == 2 {
            assert(a[4 * k + 2] == HornAction::SetHornActive(false));
        } else if r == 3 {
            assert(a[4 * k + 3] == HornAction::Sleep(c.off_time as u64));
        } else {
            assert(a[4 * k + 1] == HornAction::Sleep(c.on_time as u64));
            assert(a[4 * k + 2] == HornAction::SetHornActive(false));
        }
    }
}

/// The line that reports a mode which sounds nothing.
pub fn mode_report_text(mode: HornMode) -> (text: &'static str)
    ensures
        mode == HornMode::Unknown ==> text@ == "Horn Mode: Unknown"@,
        mode == HornMode::Unspecified ==> text@ == "Horn Mode: Unspecified"@,
        mode == HornMode::Sequenced ==> text@ == "Horn Mode: Sequenced"@,
        mode == HornMode::Continuous ==> text@ == "Horn Mode: Continuous"@,
{
    match mode {
        HornMode::Unknown => "Horn Mode: Unknown",
        HornMode::Unspecified => "Horn Mode: Unspecified",
        HornMode::Sequenced => "Horn Mode: Sequenced",
        HornMode::Continuous => "Horn Mode: Continuous",
    }
}

/// Appends the steps of one cycle.
fn push_cycle(actions: &mut Vec<HornAction>, cycle: HornCycle)
    ensures
        final(actions)@ == old(actions)@ + cycle_actions(cycle),
{
    actions.push(HornAction::SetHornActive(true));
    actions.push(HornAction::Sleep(cycle.on_time as u64));
    actions.push(HornAction::SetHornActive(false));
    actions.push(HornAction::Sleep(cycle.off_time as u64));
    assert(final(actions)@ =~= old(actions)@ + cycle_actions(cycle));
}

/// The steps of a sequenced request: every cycle of every sequence, in order.
pub fn sequenced_actions(request: &ActivateHornRequest) -> (actions: Vec<HornAction>)
    ensures
        actions@ == cycles_actions(all_cycles(request@.command)),
        runs_cycles_in_order(actions@, request@.command.flatten()),
{
    proof {
        lemma_all_cycles_is_flatten(request@.command);
        lemma_cycles_actions_run_in_order(request@.command.flatten());
    }
    let ghost command = request@.command;
    let mut actions: Vec<HornAction> = Vec::new();
    let n = request.command.len();
    let mut i: usize = 0;
    while i < n
        invariant
            n == request.command@.len(),
            command == request@.command,
            i <= n,
            actions@ == cycles_actions(all_cycles(command.take(i as int))),
        decreases n - i,
    {
        let cycles = &request.command[i].horn_cycles;
        let m = cycles.len();
        let mut j: usize = 0;
        assert(command[i as int] == cycles@);
        while j < m
            invariant
                n == request.command@.len(),
                command == request@.command,
                i < n,
                m == cycles@.len(),
                command[i as int] == cycles@,
                j <= m,
                actions@ == cycles_actions(all_cycles(command.take(i as int)) + cycles@.take(j as int)),
            decreases m - j,
        {
            let ghost before = actions@;
            push_cycle(&mut actions, cycles[j]);
            proof {
                let prefix = all_cycles(command.take(i as int));
                assert(cycles@.take(j + 1) =~= cycles@.take(j as int).push(cycles@[j as int]));
                assert((prefix + cycles@.take(j as int)).push(cycles@[j as int])
                    =~= prefix + cycles@.take(j + 1));
                let next = prefix + cycles@.take(j + 1);
                assert(next.drop_last() =~= prefix + cycles@.take(j as int));
                assert(next.last() == cycles@[j as int]);
            }
            j = j + 1;
        }
        proof {
            assert(cycles@.take(m as int) =~= cycles@);
            assert(command.take(i + 1).drop_last() =~= command.take(i as int));
            assert(command.take(i + 1).last() == command[i as int]);
        }
        i = i + 1;
    }
    proof {
        assert(command.take(n as int) =~= command);
    }
    actions
}

} // verus!
