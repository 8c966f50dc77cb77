//! The course of one authorization attempt.
//!
//! This module verifies no proof and keeps no registry of nullifiers. It
//! says, for each state, what has to be asked of whom, and, for each
//! answer, where the attempt stands next. Whoever drives it does the asking.
//!
//! ```text
//! Received -> WhitelistCheck -> Allowed
//!                            -> Denied
//!                            -> ProofCheck -> Denied
//!                                          -> NullifierCheck -> DeniedReplay
//!                                                            -> RecordNullifier -> Allowed
//! ```

use crate::address::Address;
use crate::error::AccessError;
use crate::helpers::{nullifier, ZkAccessHelper};
use crate::request::AccessRequest;
use crate::storage::Storage;
use crate::whitelist::{authorized, require_whitelisted};
use vstd::prelude::*;

verus! {

/// Where an attempt stands.
#[derive(Clone, Copy, Debug, PartialEq, Eq, Structural)]
pub enum GateState {
    Received,
    WhitelistCheck,
    ProofCheck,
    NullifierCheck,
    RecordNullifier,
    Allowed,
    Denied,
    DeniedReplay,
}

/// The answer of the nullifier registry to one check-and-record call.
#[derive(Clone, Copy, Debug, PartialEq, Eq, Structural)]
pub enum RegistryReply {
    /// The nullifier was new and is now recorded.
    Recorded,
    /// The nullifier had been recorded before.
    AlreadyUsed,
}

/// What moves an attempt from one state to the next.
#[derive(Clone, Copy, Debug, PartialEq, Eq, Structural)]
pub enum GateEvent {
    /// Nothing was asked; the attempt simply goes on.
    Advance,
    /// The allow-list has been consulted.
    WhitelistChecked { authorized: bool, request_supplied: bool },
    /// The proof engine has answered. An engine that fails has answered
    /// `false`.
    ProofVerified { valid: bool },
    /// The registry has answered.
    RegistryAnswered { reply: RegistryReply },
}

/// What a state asks of whoever drives the attempt.
#[derive(Clone, Copy, Debug, PartialEq, Eq, Structural)]
pub enum GateAction {
    /// Go on with `Advance`.
    Proceed,
    /// Consult the allow-list for the caller.
    ConsultWhitelist,
    /// Hand the proof and its public inputs to the proof engine.
    VerifyProof,
    /// Have the registry check the nullifier and record it, in one call.
    CheckAndRecordNullifier,
    /// The attempt is over.
    Finish,
}

/// One step of an attempt: the state it leads to and, where that state is a
/// denial entered by this step, the kind of denial.
#[derive(Clone, Copy, Debug, PartialEq, Eq, Structural)]
pub struct Transition {
    pub next: GateState,
    pub denial: Option<AccessError>,
}

/// Whether an attempt in `state` is over.
pub open spec fn terminal(state: GateState) -> bool {
    state == GateState::Allowed || state == GateState::Denied || state == GateState::DeniedReplay
}

/// What `state` asks for.
pub open spec fn action_of(state: GateState) -> GateAction {
    match state {
        GateState::Received => GateAction::Proceed,
        GateState::WhitelistCheck => GateAction::ConsultWhitelist,
        GateState::ProofCheck => GateAction::VerifyProof,
        GateState::NullifierCheck => GateAction::CheckAndRecordNullifier,
        GateState::RecordNullifier => GateAction::Proceed,
        GateState::Allowed => GateAction::Finish,
        GateState::Denied => GateAction::Finish,
        GateState::DeniedReplay => GateAction::Finish,
    }
}

/// The step that `event` makes in `state`, or `None` where `state` does not
/// await `event`.
pub open spec fn transition(state: GateState, event: GateEvent) -> Option<Transition> {
    match (state, event) {
        (GateState::Received, GateEvent::Advance) => Some(
            Transition { next: GateState::WhitelistCheck, denial: None },
        ),
        (GateState::WhitelistCheck, GateEvent::WhitelistChecked { authorized, request_supplied }) => {
            if authorized {
                Some(Transition { next: GateState::Allowed, denial: None })
            } else if request_supplied {
                Some(Transition { next: GateState::ProofCheck, denial: None })
            } else {
                Some(
                    Transition { next: GateState::Denied, denial: Some(AccessError::Unauthorized) },
                )
            }
        },
        (GateState::ProofCheck, GateEvent::ProofVerified { valid }) => {
            if valid {
                Some(Transition { next: GateState::NullifierCheck, denial: None })
            } else {
                Some(
                    Transition {
                        next: GateState::Denied,
                        denial: Some(AccessError::VerificationFailed),
                    },
                )
            }
        },
        (GateState::NullifierCheck, GateEvent::RegistryAnswered { reply }) => {
            match reply {
                RegistryReply::Recorded => Some(
                    Transition { next: GateState::RecordNullifier, denial: None },
                ),
                RegistryReply::AlreadyUsed => Some(
                    Transition {
                        next: GateState::DeniedReplay,
                        denial: Some(AccessError::ReplayDetected),
                    },
                ),
            }
        },
        (GateState::RecordNullifier, GateEvent::Advance) => Some(
            Transition { next: GateState::Allowed, denial: None },
        ),
        _ => None,
    }
}

/// Where an attempt that starts in `state` stands after `events`, or `None`
/// where one of them comes to a state that does not await it.
pub open spec fn run(state: GateState, events: Seq<GateEvent>) -> Option<GateState>
    decreases events.len(),
{
    if events.len() == 0 {
        Some(state)
    } else {
        match transition(state, events[0]) {
            Some(step) => run(step.next, events.drop_first()),
            None => None,
        }
    }
}

/// The per-call authorization gate.
pub struct AccessGate;

impl AccessGate {
    /// The state in which every attempt begins.
    pub fn start() -> (state: GateState)
        ensures
            state == GateState::Received,
    {
        GateState::Received
    }

    /// Whether an attempt in `state` is over.
    pub fn is_terminal(state: GateState) -> (over: bool)
        ensures
            over == terminal(state),
    {
        match state {
            GateState::Allowed | GateState::Denied | GateState::DeniedReplay => true,
            _ => false,
        }
    }

    /// What has to be done for an attempt in `state` to go on.
    pub fn action(state: GateState) -> (action: GateAction)
        ensures
            action == action_of(state),
    {
        match state {
            GateState::Received | GateState::RecordNullifier => GateAction::Proceed,
            GateState::WhitelistCheck => GateAction::ConsultWhitelist,
            GateState::ProofCheck => GateAction::VerifyProof,
            GateState::NullifierCheck => GateAction::CheckAndRecordNullifier,
            GateState::Allowed | GateState::Denied | GateState::DeniedReplay => GateAction::Finish,
        }
    }

    /// Takes one step. `None` where `state` does not await `event`; the
    /// attempt then stands where it stood.
    pub fn step(state: GateState, event: GateEvent) -> (result: Option<Transition>)
        ensures
            result == transition(state, event),
    {
        match state {
            GateState::Received => match event {
                GateEvent::Advance => Some(
                    Transition { next: GateState::WhitelistCheck, denial: None },
                ),
                _ => None,
            },
            GateState::WhitelistCheck => match event {
                GateEvent::WhitelistChecked { authorized, request_supplied } => {
                    if authorized {
                        Some(Transition { next: GateState::Allowed, denial: None })
                    } else if request_supplied {
                        Some(Transition { next: GateState::ProofCheck, denial: None })
                    } else {
                        Some(
                            Transition {
                                next: GateState::Denied,
                                denial: Some(AccessError::Unauthorized),
                            },
                        )
                    }
                },
                _ => None,
            },
            GateState::ProofCheck => match event {
                GateEvent::ProofVerified { valid } => {
                    if valid {
                        Some(Transition { next: GateState::NullifierCheck, denial: None })
                    } else {
                        Some(
                            Transition {
                                next: GateState::Denied,
                                denial: Some(AccessError::VerificationFailed),
                            },
                        )
                    }
                },
                _ => None,
            },
            GateState::NullifierCheck => match event {
                GateEvent::RegistryAnswered { reply } => match reply {
                    RegistryReply::Recorded => Some(
                        Transition { next: GateState::RecordNullifier, denial: None },
                    ),
                    RegistryReply::AlreadyUsed => Some(
                        Transition {
                            next: GateState::DeniedReplay,
                            denial: Some(AccessError::ReplayDetected),
                        },
                    ),
                },
                _ => None,
            },
            GateState::RecordNullifier => match event {
                GateEvent::Advance => Some(Transition { next: GateState::Allowed, denial: None }),
                _ => None,
            },
            GateState::Allowed | GateState::Denied | GateState::DeniedReplay => None,
        }
    }

    /// Consults the allow-list for `address` and reports what it says,
    /// together with whether the caller has supplied a request.
    pub fn consult_whitelist(
        store: &Storage,
        address: &Address,
        request: &Option<AccessRequest>,
    ) -> (event: GateEvent)
        ensures
            event == (GateEvent::WhitelistChecked {
                authorized: authorized(store@, address@),
                request_supplied: request is Some,
            }),
    {
        GateEvent::WhitelistChecked {
            authorized: require_whitelisted(store, address),
            request_supplied: request.is_some(),
        }
    }

    /// The nullifier that the registry is to check and record for `request`.
    pub fn request_nullifier(request: &AccessRequest) -> (digest: [u8; 32])
        requires
            256 + 32 * request.public_inputs@.len() + request.user@.len() + 32 <= u32::MAX,
        ensures
            digest@ == nullifier(
                request.proof,
                request.public_inputs@,
                request.user@,
                request.resource_id,
            ),
    {
        ZkAccessHelper::compute_nullifier(
            &request.proof,
            &request.public_inputs,
            &request.user,
            &request.resource_id,
        )
    }
}

/// An attempt that is over stays where it is: no event moves it.
pub proof fn lemma_terminal_states_await_nothing(state: GateState, event: GateEvent)
    requires
        terminal(state),
    ensures
        transition(state, event) is None,
{
}

/// A state asks to finish exactly when the attempt is over, and every other
/// state has an event that moves it.
pub proof fn lemma_only_terminal_states_finish(state: GateState)
    ensures
        action_of(state) == GateAction::Finish <==> terminal(state),
        !terminal(state) ==> exists|event: GateEvent| transition(state, event) is Some,
{
    match state {
        GateState::Received => {
            assert(transition(state, GateEvent::Advance) is Some);
        },
        GateState::WhitelistCheck => {
            assert(transition(
                state,
                GateEvent::WhitelistChecked { authorized: true, request_supplied: false },
            ) is Some);
        },
        GateState::ProofCheck => {
            assert(transition(state, GateEvent::ProofVerified { valid: true }) is Some);
        },
        GateState::NullifierCheck => {
            assert(transition(
                state,
                GateEvent::RegistryAnswered { reply: RegistryReply::Recorded },
            ) is Some);
        },
        GateState::RecordNullifier => {
            assert(transition(state, GateEvent::Advance) is Some);
        },
        _ => {},
    }
}

/// A step reports a denial exactly when it ends the attempt with one, and
/// the kind it reports tells the state it came from.
pub proof fn lemma_denials_are_reported(state: GateState, event: GateEvent)
    requires
        transition(state, event) is Some,
    ensures
        ({
            let step = transition(state, event)->Some_0;
            &&& step.denial is Some <==> step.next == GateState::Denied || step.next
                == GateState::DeniedReplay
            &&& step.denial == Some(AccessError::Unauthorized) <==> state
                == GateState::WhitelistCheck && step.next == GateState::Denied
            &&& step.denial == Some(AccessError::VerificationFailed) <==> state
                == GateState::ProofCheck && step.next == GateState::Denied
            &&& step.denial == Some(AccessError::ReplayDetected) <==> step.next
                == GateState::DeniedReplay
        }),
{
}

/// An attempt is allowed by a single step only in two ways: the allow-list
/// authorizes the caller, or the nullifier has just been recorded.
pub proof fn lemma_ways_into_allowed(state: GateState, event: GateEvent)
    requires
        transition(state, event) is Some,
        transition(state, event)->Some_0.next == GateState::Allowed,
    ensures
        (state == GateState::WhitelistCheck && event matches GateEvent::WhitelistChecked {
            authorized: true,
            ..
        }) || (state == GateState::RecordNullifier && event == GateEvent::Advance),
{
}

/// Every attempt that ends allowed was either exempted by the allow-list
/// or presented a proof that the engine accepted and a nullifier that the
/// registry recorded as new. In particular a replayed proof is never
/// allowed.
pub proof fn lemma_allowed_attempts(events: Seq<GateEvent>)
    requires
        run(GateState::Received, events) == Some(GateState::Allowed),
    ensures
        events.len() >= 2,
        events[0] == GateEvent::Advance,
        events[1] matches GateEvent::WhitelistChecked { authorized, request_supplied } && (if authorized {
            events.len() == 2
        } else {
            &&& request_supplied
            &&& events.len() == 5
            &&& events[2] == (GateEvent::ProofVerified { valid: true })
            &&& events[3] == (GateEvent::RegistryAnswered { reply: RegistryReply::Recorded })
            &&& events[4] == GateEvent::Advance
        }),
{
    reveal_with_fuel(run, 7);
}

} // verus!
