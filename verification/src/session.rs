//! Live sessions with remote devices.

use vstd::prelude::*;
use crate::control::{same_tags, AnyInput, BasicInputType, Input, InputValue, LiveInput, ValueInput};
use crate::platform::{declares, distinct_names, position_of, Platform, PlatformDescription};

verus! {

/// Where a session stands in its life.
#[derive(Clone, Copy, Debug, PartialEq, Eq, Structural)]
pub enum SessionState {
    /// No link to the device.
    Disconnected,
    /// The link is being made.
    Connecting,
    /// The link stands, and the live inputs can be reached.
    Connected,
}

/// What can happen to a session's link.
#[derive(Clone, Copy, Debug, PartialEq, Eq, Structural)]
pub enum SessionEvent {
    /// Someone asks for the link to be made.
    Connect,
    /// The link has been made.
    Established,
    /// The link is gone, or is given up.
    Lost,
}

/// The state that follows `state` when `event` happens. An event that does
/// not apply in a state leaves it as it is.
pub open spec fn next_state(state: SessionState, event: SessionEvent) -> SessionState {
    match event {
        SessionEvent::Lost => SessionState::Disconnected,
        SessionEvent::Connect => if state == SessionState::Disconnected {
            SessionState::Connecting
        } else {
            state
        },
        SessionEvent::Established => if state == SessionState::Connecting {
            SessionState::Connected
        } else {
            state
        },
    }
}

/// Whether the live inputs `live` are, place by place, of the shapes that
/// the input types `declared` ask for.
pub open spec fn fits(declared: Seq<BasicInputType>, live: Seq<LiveInput>) -> bool {
    &&& declared.len() == live.len()
    &&& forall|k: int| 0 <= k < live.len() ==> (#[trigger] live[k]).shape() == declared[k].parameters@
}

/// Whether `after` holds the inputs of `before`, each with its default
/// restored.
pub open spec fn all_restored(before: Seq<LiveInput>, after: Seq<LiveInput>) -> bool {
    &&& before.len() == after.len()
    &&& forall|k: int| 0 <= k < after.len() ==> #[trigger] after[k] == before[k].restored()
}

/// Whether each of `live` holds its default.
pub open spec fn all_at_default(live: Seq<LiveInput>) -> bool {
    forall|k: int| 0 <= k < live.len() ==> (#[trigger] live[k]).at_default()
}

/// Inputs whose defaults were restored all hold their defaults.
pub proof fn restored_inputs_hold_defaults(before: Seq<LiveInput>, after: Seq<LiveInput>)
    requires
        all_restored(before, after),
    ensures
        all_at_default(after),
{
    assert forall|k: int| 0 <= k < after.len() implies (#[trigger] after[k]).at_default() by {
        before[k].restored_holds_default();
    }
}

/// Why a typed input could not be had from a session.
#[derive(Clone, Copy, Debug, PartialEq, Eq, Structural)]
pub enum LookupError {
    /// The session reaches no input of that name.
    NotFound,
    /// The input of that name takes values of another type.
    TypeMismatch,
}

/// A link to one remote device, through which its live inputs are found by
/// name.
pub trait RemoteSession {
    /// Whether the session, as it stands, reaches a live input under `name`.
    spec fn reaches(&self, name: Seq<char>) -> bool;

    /// Searches for a live input by name. `None` means that the session
    /// reaches no input of that name.
    fn get_input<'a>(&'a self, name: &str) -> (found: Option<AnyInput<'a>>)
        ensures
            found.is_some() == self.reaches(name@),
    ;
}

/// A session that owns the live inputs of one device of a platform.
#[derive(Debug)]
pub struct DeviceSession {
    platform: Platform,
    state: SessionState,
    inputs: Vec<LiveInput>,
}

/// Whether `live` fits `declared`; see [`fits`].
pub fn inputs_fit(declared: &Vec<BasicInputType>, live: &Vec<LiveInput>) -> (ok: bool)
    ensures
        ok == fits(declared@, live@),
{
    if declared.len() != live.len() {
        return false;
    }
    let mut at: usize = 0;
    while at < live.len()
        invariant
            declared@.len() == live@.len(),
            at <= live@.len(),
            forall|k: int| 0 <= k < at ==> (#[trigger] live@[k]).shape() == declared@[k].parameters@,
        decreases live@.len() - at,
    {
        let tags = live[at].as_any().parameter_tags();
        if !same_tags(&tags, &declared[at].parameters) {
            return false;
        }
        at += 1;
    }
    true
}

/// The inputs of `live`, each with its default restored.
pub fn restore_all(live: &Vec<LiveInput>) -> (restored: Vec<LiveInput>)
    ensures
        all_restored(live@, restored@),
{
    let mut restored: Vec<LiveInput> = Vec::with_capacity(live.len());
    let mut at: usize = 0;
    while at < live.len()
        invariant
            at <= live@.len(),
            restored@.len() == at,
            forall|k: int| 0 <= k < at ==> #[trigger] restored@[k] == live@[k].restored(),
        decreases live@.len() - at,
    {
        let mut input = live[at];
        input.restore_default();
        restored.push(input);
        at += 1;
    }
    restored
}

/// The inputs of `live`, with `input` in place of the one at `place`; a
/// plain copy of `live` where it has no such place.
pub fn replace_at(live: &Vec<LiveInput>, place: usize, input: LiveInput) -> (replaced: Vec<LiveInput>)
    ensures
        replaced@ == if place < live@.len() {
            live@.update(place as int, input)
        } else {
            live@
        },
{
    let mut replaced: Vec<LiveInput> = Vec::with_capacity(live.len());
    let mut at: usize = 0;
    while at < live.len()
        invariant
            at <= live@.len(),
            replaced@.len() == at,
            forall|k: int|
                0 <= k < at ==> #[trigger] replaced@[k] == if k == place {
                    input
                } else {
                    live@[k]
                },
        decreases live@.len() - at,
    {
        if at == place {
            replaced.push(input);
        } else {
            replaced.push(live[at]);
        }
        at += 1;
    }
    proof {
        if place < live@.len() {
            assert(replaced@ =~= live@.update(place as int, input));
        } else {
            assert(replaced@ =~= live@);
        }
    }
    replaced
}

impl DeviceSession {
    #[verifier::type_invariant]
    closed spec fn inputs_fit_platform(&self) -> bool {
        fits(self.platform.inputs(), self.inputs@)
    }

    /// The input types that the session's platform declares.
    pub closed spec fn declared(&self) -> Seq<BasicInputType> {
        self.platform.inputs()
    }

    /// The live inputs, each at the place of its input type.
    pub closed spec fn live(&self) -> Seq<LiveInput> {
        self.inputs@
    }

    /// Where the session stands.
    pub closed spec fn current_state(&self) -> SessionState {
        self.state
    }

    /// The place, among the declared input types and so among the live
    /// inputs, of the one with the primary name `name`. It means something
    /// only where the platform declares that name.
    pub open spec fn place_of(&self, name: Seq<char>) -> int {
        choose|at: int|
            0 <= at < self.declared().len() && (#[trigger] self.declared()[at]).id@.name
                == name
    }

    /// A declared name stands at one place only.
    proof fn place_is_unique(&self, name: Seq<char>, at: int)
        requires
            distinct_names(self.declared()),
            0 <= at < self.declared().len(),
            self.declared()[at].id@.name == name,
        ensures
            self.place_of(name) == at,
    {
        let chosen = self.place_of(name);
        assert(self.declared()[chosen].id@.name == name);
        if chosen < at {
            assert(self.declared()[chosen].id@.name != self.declared()[at].id@.name);
        } else if at < chosen {
            assert(self.declared()[at].id@.name != self.declared()[chosen].id@.name);
        }
    }

    /// A session for one device of `platform`, not yet connected, that owns
    /// `inputs`: one live input for each input type of the platform, in the
    /// platform's order. Gives `None` where `inputs` do not fit the platform.
    pub fn new(platform: Platform, inputs: Vec<LiveInput>) -> (session: Option<DeviceSession>)
        ensures
            session.is_some() == fits(platform.inputs(), inputs@),
            session matches Some(made) ==> {
                &&& made.declared() == platform.inputs()
                &&& made.live() == inputs@
                &&& made.current_state() == SessionState::Disconnected
            },
    {
        if inputs_fit(platform.control_inputs(), &inputs) {
            Some(DeviceSession { platform, state: SessionState::Disconnected, inputs })
        } else {
            None
        }
    }

    /// Where the session stands.
    pub fn state(&self) -> (state: SessionState)
        ensures
            state == self.current_state(),
    {
        self.state
    }

    /// The platform of the session's device. Its input types have pairwise
    /// different names, and the session's live inputs fit them.
    pub fn platform(&self) -> (platform: &Platform)
        ensures
            platform.inputs() == self.declared(),
            distinct_names(self.declared()),
            fits(self.declared(), self.live()),
    {
        proof {
            use_type_invariant(self);
        }
        let _ = self.platform.control_inputs();
        &self.platform
    }

    /// Finds the live input under `name` and hands it out with its value
    /// type: the lookup and the downcast in one step.
    ///
    /// `NotFound` means that the session reaches no input of that name;
    /// `TypeMismatch` that it reaches one, which takes values of a type other
    /// than `U`.
    pub fn get_typed<'a, U: InputValue>(&'a self, name: &str) -> (found: Result<
        &'a ValueInput<U>,
        LookupError,
    >)
        ensures
            match found {
                Ok(input) => self.reaches(name@) && U::held(
                    self.live()[self.place_of(name@)].erased(),
                ) == Some(*input),
                Err(LookupError::NotFound) => !self.reaches(name@),
                Err(LookupError::TypeMismatch) => self.reaches(name@)
                    && self.live()[self.place_of(name@)].shape() != U::shape(),
            },
    {
        match self.get_input(name) {
            None => Err(LookupError::NotFound),
            Some(any) => match any.downcast::<U>() {
                Some(input) => Ok(input),
                None => Err(LookupError::TypeMismatch),
            },
        }
    }

    /// Sets the live input under `name` to `value`. Every other input, the
    /// state and the defaults stay as they are; on an error nothing changes.
    ///
    /// `NotFound` means that the session reaches no input of that name;
    /// `TypeMismatch` that it reaches one, which takes values of a type other
    /// than `U`.
    pub fn set_input<U: InputValue>(&mut self, name: &str, value: U) -> (done: Result<
        (),
        LookupError,
    >)
        ensures
            final(self).current_state() == old(self).current_state(),
            final(self).declared() == old(self).declared(),
            match done {
                Ok(_) => {
                    let place = old(self).place_of(name@);
                    &&& old(self).reaches(name@)
                    &&& U::held(old(self).live()[place].erased()) matches Some(input) && U::held(
                        final(self).live()[place].erased(),
                    ) == Some(input.after_set(value))
                    &&& final(self).live() == old(self).live().update(
                        place,
                        final(self).live()[place],
                    )
                },
                Err(LookupError::NotFound) => !old(self).reaches(name@) && final(self).live()
                    == old(self).live(),
                Err(LookupError::TypeMismatch) => old(self).reaches(name@) && final(self).live()
                    == old(self).live() && old(self).live()[old(self).place_of(name@)].shape()
                    != U::shape(),
            },
    {
        proof {
            use_type_invariant(&*self);
        }
        if self.state != SessionState::Connected {
            return Err(LookupError::NotFound);
        }
        let key = name.to_owned();
        match position_of(self.platform.control_inputs(), &key) {
            None => Err(LookupError::NotFound),
            Some(at) => {
                proof {
                    self.place_is_unique(name@, at as int);
                }
                let any = self.inputs[at].as_any();
                match any.downcast::<U>() {
                    None => Err(LookupError::TypeMismatch),
                    Some(typed) => {
                        let mut input = *typed;
                        input.set(value);
                        let live = U::own(input);
                        proof {
                            U::held_by_shape(live.erased());
                        }
                        self.inputs = replace_at(&self.inputs, at, live);
                        Ok(())
                    },
                }
            },
        }
    }

    /// Takes the session to the state that follows on `event`. Where the
    /// link is lost, every live input goes back to its default, so that no
    /// value outlives its source.
    pub fn handle(&mut self, event: SessionEvent)
        ensures
            final(self).current_state() == next_state(old(self).current_state(), event),
            final(self).declared() == old(self).declared(),
            event == SessionEvent::Lost ==> all_restored(old(self).live(), final(self).live())
                && all_at_default(final(self).live()),
            event != SessionEvent::Lost ==> final(self).live() == old(self).live(),
    {
        proof {
            use_type_invariant(&*self);
        }
        match event {
            SessionEvent::Lost => {
                let restored = restore_all(&self.inputs);
                proof {
                    restored_inputs_hold_defaults(self.inputs@, restored@);
                }
                self.inputs = restored;
                self.state = SessionState::Disconnected;
            },
            SessionEvent::Connect => {
                if self.state == SessionState::Disconnected {
                    self.state = SessionState::Connecting;
                }
            },
            SessionEvent::Established => {
                if self.state == SessionState::Connecting {
                    self.state = SessionState::Connected;
                }
            },
        }
    }
}

impl RemoteSession for DeviceSession {
    open spec fn reaches(&self, name: Seq<char>) -> bool {
        self.current_state() == SessionState::Connected && declares(self.declared(), name)
    }

    fn get_input<'a>(&'a self, name: &str) -> (found: Option<AnyInput<'a>>)
        ensures
            found matches Some(any) ==> any == self.live()[self.place_of(name@)].erased()
                && any.shape() == self.declared()[self.place_of(name@)].parameters@,
    {
        proof {
            use_type_invariant(self);
        }
        if self.state != SessionState::Connected {
            return None;
        }
        let key = name.to_owned();
        match position_of(self.platform.control_inputs(), &key) {
            Some(at) => {
                let any = self.inputs[at].as_any();
                proof {
                    self.place_is_unique(name@, at as int);
                    assert(self.live()[at as int].shape() == self.declared()[at as int].parameters@);
                }
                Some(any)
            },
            None => None,
        }
    }
}

} // verus!
