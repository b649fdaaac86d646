use vstd::prelude::*;

verus! {

/// How the horn is to be sounded.
#[derive(Clone, Copy, Debug, PartialEq, Eq, Structural)]
pub enum HornMode {
    Unspecified,
    Sequenced,
    Continuous,
    Unknown,
}

/// The mode field of a request as it arrives on the wire: either a mode that
/// the service knows, or a raw enumeration value that it does not.
#[derive(Clone, Copy, Debug, PartialEq, Eq, Structural)]
pub enum HornModeValue {
    Known(HornMode),
    Unrecognized(i32),
}

/// One on/off cycle of a sequenced horn, both times in milliseconds.
#[derive(Clone, Copy, Debug, PartialEq, Eq, Structural)]
pub struct HornCycle {
    pub on_time: u32,
    pub off_time: u32,
}

/// A sequence of horn cycles.
#[derive(Clone, Debug, PartialEq, Eq)]
pub struct HornSequence {
    pub horn_cycles: Vec<HornCycle>,
}

impl View for HornSequence {
    type V = Seq<HornCycle>;

    open spec fn view(&self) -> Seq<HornCycle> {
        self.horn_cycles@
    }
}

/// A request to sound the horn.
#[derive(Clone, Debug, PartialEq, Eq)]
pub struct ActivateHornRequest {
    pub mode: HornModeValue,
    pub command: Vec<HornSequence>,
}

/// The mathematical content of an [`ActivateHornRequest`].
pub struct ActivateHornRequestView {
    pub mode: HornModeValue,
    pub command: Seq<Seq<HornCycle>>,
}

impl View for ActivateHornRequest {
    type V = ActivateHornRequestView;

    open spec fn view(&self) -> ActivateHornRequestView {
        ActivateHornRequestView {
            mode: self.mode,
            command: self.command@.map_values(|s: HornSequence| s@),
        }
    }
}

/// The view of an optional request; `None` asks for the horn to be switched off.
pub open spec fn opt_request_view(request: Option<ActivateHornRequest>) -> Option<ActivateHornRequestView> {
    match request {
        Some(r) => Some(r@),
        None => None,
    }
}

/// A request can be carried out unless its mode is a value the service does not know.
pub open spec fn request_is_processable(request: Option<ActivateHornRequestView>) -> bool {
    match request {
        Some(r) => r.mode is Known,
        None => true,
    }
}

/// Only a mode value that the service does not know keeps a request from
/// being carried out: no request, and a request in any of the four known
/// modes, whatever its command, can be carried out.
pub proof fn lemma_only_unrecognized_modes_are_refused()
    ensures
        request_is_processable(None),
        forall|mode: HornMode, command: Seq<Seq<HornCycle>>|
            #[trigger] request_is_processable(
                Some(ActivateHornRequestView { mode: HornModeValue::Known(mode), command }),
            ),
        forall|value: i32, command: Seq<Seq<HornCycle>>|
            !#[trigger] request_is_processable(
                Some(ActivateHornRequestView { mode: HornModeValue::Unrecognized(value), command }),
            ),
{
}

/// Whether an optional request can be carried out.
pub fn is_processable(request: &Option<ActivateHornRequest>) -> (b: bool)
    ensures
        b == request_is_processable(opt_request_view(*request)),
        request is None ==> b,
        request matches Some(r) ==> (b <==> r.mode is Known),
{
    match request {
        Some(r) => match r.mode {
            HornModeValue::Known(_) => true,
            HornModeValue::Unrecognized(_) => false,
        },
        None => true,
    }
}

} // verus!
