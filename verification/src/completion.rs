//! Ownership of one resource bundle whose submitted work can be synchronized.
//!
//! A bundle is ready, in flight, or poisoned. Work that was submitted returns the
//! bundle to ready in one way only: it is synchronized, validated, and published.

use core::mem::ManuallyDrop;
use vstd::prelude::*;

verus! {

/// One owned resource bundle whose submitted work can be synchronized.
///
/// Nothing is assumed of what the two calls do to the bundle or of what they
/// return.
pub trait CompletionResource {
    type Error;

    /// Wait for submitted work.
    fn synchronize(&mut self) -> Result<(), Self::Error>;

    /// Validate synchronized state before any logical publication.
    fn validate_after_synchronization(&mut self) -> Result<(), Self::Error>;
}

/// The completion state of an owned bundle.
#[derive(Clone, Copy, Debug, PartialEq, Eq, Structural)]
pub enum ResourceState {
    Ready,
    InFlight,
    PoisonedIdle,
    PoisonedUncertain,
}

/// Why a bundle refuses new work.
#[derive(Clone, Copy, Debug, PartialEq, Eq, Structural)]
pub enum BeginError {
    MissingResource,
    NotReady,
}

/// Why submitted work was not published.
#[allow(inconsistent_fields)]
#[derive(Debug)]
pub enum CompletionError<E> {
    MissingResource,
    NotSubmitted,
    Commit { source: E },
    Synchronization { source: E },
    PostSynchronizationValidation { source: E },
}

/// What happens to a bundle.
#[derive(Clone, Copy, Debug, PartialEq, Eq, Structural)]
pub enum CompletionEvent {
    /// Work begins.
    Begun,
    /// Work that was never submitted is abandoned.
    PreflightAbandoned,
    /// Work is given up whose bundle is idle but must not be used again.
    PoisonedIdle,
    /// Submitted work is abandoned; its last synchronization went well or not.
    SubmissionAbandoned { synchronized: bool },
    /// The synchronization of completed work failed.
    SynchronizationFailed,
    /// The validation of synchronized work failed.
    ValidationFailed,
    /// Synchronized and validated work is given up before its publication.
    PublicationAbandoned,
    /// Synchronized and validated work is published.
    Published,
}

impl ResourceState {
    /// The state after an event, if the event can happen in the state.
    pub open spec fn after(self, event: CompletionEvent) -> Option<ResourceState> {
        match (self, event) {
            (ResourceState::Ready, CompletionEvent::Begun) => Some(ResourceState::InFlight),
            (ResourceState::InFlight, CompletionEvent::PreflightAbandoned) => Some(
                ResourceState::Ready,
            ),
            (ResourceState::InFlight, CompletionEvent::PoisonedIdle) => Some(
                ResourceState::PoisonedIdle,
            ),
            (ResourceState::InFlight, CompletionEvent::SubmissionAbandoned { synchronized }) => Some(
                if synchronized {
                    ResourceState::PoisonedIdle
                } else {
                    ResourceState::PoisonedUncertain
                },
            ),
            (ResourceState::InFlight, CompletionEvent::SynchronizationFailed) => Some(
                ResourceState::PoisonedUncertain,
            ),
            (ResourceState::InFlight, CompletionEvent::ValidationFailed) => Some(
                ResourceState::PoisonedIdle,
            ),
            (ResourceState::InFlight, CompletionEvent::PublicationAbandoned) => Some(
                ResourceState::PoisonedIdle,
            ),
            (ResourceState::InFlight, CompletionEvent::Published) => Some(ResourceState::Ready),
            _ => None,
        }
    }

    /// Move to the state after an event, if the event can happen.
    pub fn advance(self, event: CompletionEvent) -> (state: Option<ResourceState>)
        ensures
            state == self.after(event),
    {
        match (self, event) {
            (ResourceState::Ready, CompletionEvent::Begun) => Some(ResourceState::InFlight),
            (ResourceState::InFlight, CompletionEvent::PreflightAbandoned) => Some(
                ResourceState::Ready,
            ),
            (ResourceState::InFlight, CompletionEvent::PoisonedIdle) => Some(
                ResourceState::PoisonedIdle,
            ),
            (ResourceState::InFlight, CompletionEvent::SubmissionAbandoned { synchronized }) => Some(
                if synchronized {
                    ResourceState::PoisonedIdle
                } else {
                    ResourceState::PoisonedUncertain
                },
            ),
            (ResourceState::InFlight, CompletionEvent::SynchronizationFailed) => Some(
                ResourceState::PoisonedUncertain,
            ),
            (ResourceState::InFlight, CompletionEvent::ValidationFailed) => Some(
                ResourceState::PoisonedIdle,
            ),
            (ResourceState::InFlight, CompletionEvent::PublicationAbandoned) => Some(
                ResourceState::PoisonedIdle,
            ),
            (ResourceState::InFlight, CompletionEvent::Published) => Some(ResourceState::Ready),
            _ => None,
        }
    }

    /// Whether a bundle in the state is never used again.
    pub open spec fn poisoned(self) -> bool {
        self == ResourceState::PoisonedIdle || self == ResourceState::PoisonedUncertain
    }
}

/// The state after a list of events, if each can happen in turn.
pub open spec fn after_all(state: ResourceState, events: Seq<CompletionEvent>) -> Option<
    ResourceState,
>
    decreases events.len(),
{
    if events.len() == 0 {
        Some(state)
    } else {
        match state.after(events[0]) {
            Some(next) => after_all(next, events.drop_first()),
            None => None,
        }
    }
}

/// A poisoned bundle stays as it is: no event can happen to it any more.
pub proof fn lemma_poison_is_permanent(state: ResourceState, events: Seq<CompletionEvent>)
    requires
        state.poisoned(),
        after_all(state, events) is Some,
    ensures
        after_all(state, events) == Some(state),
        events.len() == 0,
{
}

/// Begun work leaves the bundle ready in two ways only: it was never submitted, or
/// it was published. Every other end of submitted work poisons the bundle.
pub proof fn lemma_ready_only_unsubmitted_or_published(event: CompletionEvent)
    requires
        ResourceState::InFlight.after(event) is Some,
    ensures
        ResourceState::InFlight.after(event) == Some(ResourceState::Ready) <==> event
            == CompletionEvent::PreflightAbandoned || event == CompletionEvent::Published,
        ResourceState::InFlight.after(event)->0 == ResourceState::Ready
            || ResourceState::InFlight.after(event)->0.poisoned(),
{
}

/// A bundle and its completion state.
#[derive(Debug)]
pub struct ResourceOwner<R> {
    pub state: ResourceState,
    pub resource: Option<R>,
}

/// How a bundle was given up.
#[derive(Clone, Copy, Debug, PartialEq, Eq, Structural)]
pub enum Release {
    /// The owner held no bundle.
    Empty,
    /// No work could be using the bundle: it was dropped.
    Dropped,
    /// Work might still be using the bundle: it is kept alive for good.
    Forgotten,
}

impl<R> ResourceOwner<R> {
    /// Whether the owner's bundle is in flight.
    pub open spec fn live(self) -> bool {
        self.state == ResourceState::InFlight && self.resource is Some
    }

    /// Whether work may still be using the bundle of the owner.
    pub open spec fn uncertain(self) -> bool {
        self.state == ResourceState::InFlight || self.state == ResourceState::PoisonedUncertain
    }
}

impl<R: CompletionResource> ResourceOwner<R> {
    /// Own a bundle that is ready.
    pub fn new(resource: R) -> (owner: ResourceOwner<R>)
        ensures
            owner == (ResourceOwner { state: ResourceState::Ready, resource: Some(resource) }),
    {
        ResourceOwner { state: ResourceState::Ready, resource: Some(resource) }
    }

    /// Begin work on a ready bundle.
    pub fn begin<'owner>(&'owner mut self) -> (guard: Result<InFlight<'owner, R>, BeginError>)
        ensures
            match guard {
                Ok(guard) => {
                    &&& old(self).resource is Some
                    &&& old(self).state == ResourceState::Ready
                    &&& guard.owner.state == ResourceState::InFlight
                    &&& guard.owner.resource == old(self).resource
                    &&& !guard.submitted
                    &&& *final(guard.owner) == *final(self)
                },
                Err(error) => {
                    &&& *final(self) == *old(self)
                    &&& if old(self).resource is None {
                        error == BeginError::MissingResource
                    } else {
                        &&& old(self).state != ResourceState::Ready
                        &&& error == BeginError::NotReady
                    }
                },
            },
    {
        if self.resource.is_none() {
            return Err(BeginError::MissingResource);
        }
        if self.state != ResourceState::Ready {
            return Err(BeginError::NotReady);
        }
        self.state = ResourceState::InFlight;
        Ok(InFlight { owner: self, submitted: false })
    }

    /// Return the completion state.
    pub fn state(&self) -> (state: ResourceState)
        ensures
            state == self.state,
    {
        self.state
    }

    /// Borrow the bundle of a ready owner.
    pub fn ready_resource(&self) -> (resource: Result<&R, BeginError>)
        ensures
            match resource {
                Ok(resource) => self.state == ResourceState::Ready && self.resource == Some(
                    *resource,
                ),
                Err(error) => if self.state != ResourceState::Ready {
                    error == BeginError::NotReady
                } else {
                    self.resource is None && error == BeginError::MissingResource
                },
            },
    {
        if self.state != ResourceState::Ready {
            return Err(BeginError::NotReady);
        }
        match &self.resource {
            Some(resource) => Ok(resource),
            None => Err(BeginError::MissingResource),
        }
    }

    /// Give up the owner for its bundle, without releasing the bundle.
    pub fn into_resource(self) -> (resource: Option<R>)
        ensures
            resource == self.resource,
    {
        self.resource
    }

    /// Give up the owner and its bundle. Where work may still be using the bundle it
    /// is synchronized once more; a failure is no proof that the work is idle, so
    /// the bundle is then kept alive for good.
    pub fn release(self) -> (release: Release)
        ensures
            match self.resource {
                None => release == Release::Empty,
                Some(resource) => if self.uncertain() {
                    exists|argument: &mut R, result: Result<(), R::Error>|
                        {
                            &&& #[trigger] call_ensures(R::synchronize, (argument,), result)
                            &&& *argument == resource
                            &&& release == (if result is Ok {
                                Release::Dropped
                            } else {
                                Release::Forgotten
                            })
                        }
                } else {
                    release == Release::Dropped
                },
            },
    {
        let uncertain: bool = match self.state {
            ResourceState::InFlight | ResourceState::PoisonedUncertain => true,
            ResourceState::Ready | ResourceState::PoisonedIdle => false,
        };
        match self.resource {
            None => Release::Empty,
            Some(resource) => {
                if uncertain {
                    let mut resource: R = resource;
                    let synchronized: bool = observe(R::synchronize, &mut resource).is_ok();
                    dispose(resource, true, synchronized)
                } else {
                    dispose(resource, false, true)
                }
            },
        }
    }
}

/// Drop a bundle, or keep it alive for good where work may still be using it and
/// its last synchronization failed.
pub fn dispose<R>(resource: R, uncertain: bool, synchronized: bool) -> (release: Release)
    ensures
        release == (if uncertain && !synchronized {
            Release::Forgotten
        } else {
            Release::Dropped
        }),
{
    if uncertain && !synchronized {
        let _kept = ManuallyDrop::new(resource);
        Release::Forgotten
    } else {
        Release::Dropped
    }
}

/// Begun work on a bundle.
pub struct InFlight<'owner, R> {
    pub owner: &'owner mut ResourceOwner<R>,
    pub submitted: bool,
}

impl<'owner, R: CompletionResource> InFlight<'owner, R> {
    /// Borrow the bundle.
    pub fn resource<'guard>(&'guard mut self) -> (resource: Result<
        &'guard mut R,
        CompletionError<R::Error>,
    >)
        ensures
            match resource {
                Ok(resource) => {
                    &&& old(self).owner.live()
                    &&& old(self).owner.resource == Some(*resource)
                    &&& final(self).owner.state == ResourceState::InFlight
                    &&& final(self).owner.resource == Some(*final(resource))
                },
                Err(error) => {
                    &&& !old(self).owner.live()
                    &&& error == CompletionError::<R::Error>::MissingResource
                    &&& *final(self).owner == *old(self).owner
                },
            },
            final(self).submitted == old(self).submitted,
            *final(final(self).owner) == *final(old(self).owner),
    {
        if self.owner.state != ResourceState::InFlight {
            return Err(CompletionError::MissingResource);
        }
        match &mut self.owner.resource {
            Some(resource) => Ok(resource),
            None => Err(CompletionError::MissingResource),
        }
    }

    /// Mark the bundle in flight before its first submission.
    pub fn mark_submitted(&mut self)
        ensures
            final(self).submitted,
            *final(self).owner == *old(self).owner,
            *final(final(self).owner) == *final(old(self).owner),
    {
        self.submitted = true;
    }
}

impl<'owner, R: CompletionResource> InFlight<'owner, R> {
    /// Give up begun work. Work that was never submitted leaves the bundle ready;
    /// submitted work is synchronized and poisons the bundle, known idle where the
    /// synchronization went well and uncertain where it failed.
    pub fn abandon(self)
        ensures
            if !old(self.owner).live() {
                *final(self.owner) == *old(self.owner)
            } else if !self.submitted {
                &&& final(self.owner).state == ResourceState::Ready
                &&& final(self.owner).resource == old(self.owner).resource
            } else {
                exists|argument: &mut R, result: Result<(), R::Error>|
                    {
                        &&& #[trigger] call_ensures(R::synchronize, (argument,), result)
                        &&& old(self.owner).resource == Some(*argument)
                        &&& final(self.owner).resource == Some(*final(argument))
                        &&& Some(final(self.owner).state) == ResourceState::InFlight.after(
                            CompletionEvent::SubmissionAbandoned { synchronized: result is Ok },
                        )
                    }
            },
    {
        let InFlight { owner, submitted } = self;
        if owner.state != ResourceState::InFlight {
            return;
        }
        if submitted {
            if let Some(resource) = &mut owner.resource {
                let synchronized: bool = observe(R::synchronize, resource).is_ok();
                owner.state = abandoned_state(synchronized);
            }
        } else if owner.resource.is_some() {
            owner.state = ResourceState::Ready;
        }
    }

    /// Give up begun work whose bundle is known to be idle but must not be used again,
    /// whether or not it was submitted. Nothing is synchronized.
    pub fn poison_known_idle(self)
        ensures
            if old(self.owner).live() {
                &&& Some(final(self.owner).state) == ResourceState::InFlight.after(
                    CompletionEvent::PoisonedIdle,
                )
                &&& final(self.owner).resource == old(self.owner).resource
            } else {
                *final(self.owner) == *old(self.owner)
            },
    {
        let InFlight { owner, .. } = self;
        if owner.state == ResourceState::InFlight && owner.resource.is_some() {
            owner.state = ResourceState::PoisonedIdle;
        }
    }

    /// Prove completion before a fallible preparation: synchronize the submitted
    /// work, then validate it.
    pub fn complete_prepublication(self) -> (completion: Result<
        PostCompletion<'owner, R>,
        CompletionError<R::Error>,
    >)
        ensures
            match completion {
                Ok(completion) => {
                    &&& self.submitted
                    &&& old(self.owner).live()
                    &&& exists|synchronized: &mut R, validated: &mut R|
                        {
                            &&& #[trigger] call_ensures(
                                R::synchronize,
                                (synchronized,),
                                Ok::<(), R::Error>(()),
                            )
                            &&& #[trigger] call_ensures(
                                R::validate_after_synchronization,
                                (validated,),
                                Ok::<(), R::Error>(()),
                            )
                            &&& old(self.owner).resource == Some(*synchronized)
                            &&& *final(synchronized) == *validated
                            &&& *final(validated) == *completion.resource
                        }
                    &&& *completion.state == ResourceState::InFlight
                    &&& final(self.owner).state == *final(completion.state)
                    &&& final(self.owner).resource == Some(*final(completion.resource))
                },
                Err(CompletionError::NotSubmitted) => {
                    &&& !self.submitted
                    &&& final(self.owner).resource == old(self.owner).resource
                    &&& final(self.owner).state == (if old(self.owner).live() {
                        ResourceState::Ready
                    } else {
                        old(self.owner).state
                    })
                },
                Err(CompletionError::MissingResource) => {
                    &&& self.submitted
                    &&& !old(self.owner).live()
                    &&& *final(self.owner) == *old(self.owner)
                },
                Err(CompletionError::Synchronization { source }) => {
                    &&& self.submitted
                    &&& old(self.owner).live()
                    &&& Some(final(self.owner).state) == ResourceState::InFlight.after(
                        CompletionEvent::SynchronizationFailed,
                    )
                    &&& exists|argument: &mut R|
                        {
                            &&& #[trigger] call_ensures(
                                R::synchronize,
                                (argument,),
                                Err::<(), R::Error>(source),
                            )
                            &&& old(self.owner).resource == Some(*argument)
                            &&& final(self.owner).resource == Some(*final(argument))
                        }
                },
                Err(CompletionError::PostSynchronizationValidation { source }) => {
                    &&& self.submitted
                    &&& old(self.owner).live()
                    &&& Some(final(self.owner).state) == ResourceState::InFlight.after(
                        CompletionEvent::ValidationFailed,
                    )
                    &&& exists|synchronized: &mut R, validated: &mut R|
                        {
                            &&& #[trigger] call_ensures(
                                R::synchronize,
                                (synchronized,),
                                Ok::<(), R::Error>(()),
                            )
                            &&& #[trigger] call_ensures(
                                R::validate_after_synchronization,
                                (validated,),
                                Err::<(), R::Error>(source),
                            )
                            &&& old(self.owner).resource == Some(*synchronized)
                            &&& *final(synchronized) == *validated
                            &&& final(self.owner).resource == Some(*final(validated))
                        }
                },
                Err(CompletionError::Commit { source }) => false,
            },
    {
        if !self.submitted {
            self.abandon();
            return Err(CompletionError::NotSubmitted);
        }
        let InFlight { owner, .. } = self;
        if owner.state != ResourceState::InFlight {
            return Err(CompletionError::MissingResource);
        }
        let ResourceOwner { state, resource } = owner;
        let resource = match resource {
            Some(resource) => resource,
            None => {
                return Err(CompletionError::MissingResource);
            },
        };
        let synchronization = observe(R::synchronize, resource);
        let ghost first = synchronization;
        if let Err((poisoned, error)) = after_synchronization(synchronization) {
            assert(error matches CompletionError::Synchronization { source } && first == Err::<
                (),
                R::Error,
            >(source));
            *state = poisoned;
            return Err(error);
        }
        assert(first->Ok_0 == ());
        let validation = observe(R::validate_after_synchronization, resource);
        let ghost second = validation;
        if let Err((poisoned, error)) = after_validation(validation) {
            assert(error matches CompletionError::PostSynchronizationValidation { source } && second
                == Err::<(), R::Error>(source));
            *state = poisoned;
            return Err(error);
        }
        assert(second->Ok_0 == ());
        Ok(PostCompletion { state, resource })
    }

    /// Synchronize and validate submitted work, run a fallible preparation, and
    /// publish what it returns. Nothing is published unless all three succeed.
    pub fn complete<Value, F: FnOnce(&mut R) -> Result<Value, R::Error>>(self, commit: F) -> (value:
        Result<Value, CompletionError<R::Error>>)
        requires
            forall|resource: &mut R| commit.requires((resource,)),
        ensures
            forall|returned: Value|
                value == Ok::<Value, CompletionError<R::Error>>(returned) ==> exists|committed: &mut R|
                        {
                            &&& #[trigger] commit.ensures((committed,), Ok::<Value, R::Error>(returned))
                            &&& final(self.owner).resource == Some(*final(committed))
                            &&& exists|synchronized: &mut R, validated: &mut R|
                                {
                                    &&& #[trigger] call_ensures(
                                        R::synchronize,
                                        (synchronized,),
                                        Ok::<(), R::Error>(()),
                                    )
                                    &&& #[trigger] call_ensures(
                                        R::validate_after_synchronization,
                                        (validated,),
                                        Ok::<(), R::Error>(()),
                                    )
                                    &&& old(self.owner).resource == Some(*synchronized)
                                    &&& *final(synchronized) == *validated
                                    &&& *final(validated) == *committed
                                }
                        },
            forall|source: R::Error|
                value == Err::<Value, CompletionError<R::Error>>(
                    CompletionError::Commit { source },
                ) ==> exists|committed: &mut R|
                        {
                            &&& #[trigger] commit.ensures((committed,), Err::<Value, R::Error>(source))
                            &&& final(self.owner).resource == Some(*final(committed))
                            &&& exists|synchronized: &mut R, validated: &mut R|
                                {
                                    &&& #[trigger] call_ensures(
                                        R::synchronize,
                                        (synchronized,),
                                        Ok::<(), R::Error>(()),
                                    )
                                    &&& #[trigger] call_ensures(
                                        R::validate_after_synchronization,
                                        (validated,),
                                        Ok::<(), R::Error>(()),
                                    )
                                    &&& old(self.owner).resource == Some(*synchronized)
                                    &&& *final(synchronized) == *validated
                                    &&& *final(validated) == *committed
                                }
                        },
            match value {
                Ok(_) => {
                    &&& self.submitted
                    &&& old(self.owner).live()
                    &&& final(self.owner).state == ResourceState::Ready
                },
                Err(CompletionError::Commit { source }) => {
                    &&& self.submitted
                    &&& old(self.owner).live()
                    &&& Some(final(self.owner).state) == ResourceState::InFlight.after(
                        CompletionEvent::PublicationAbandoned,
                    )
                },
                Err(CompletionError::NotSubmitted) => {
                    &&& !self.submitted
                    &&& final(self.owner).resource == old(self.owner).resource
                    &&& final(self.owner).state == (if old(self.owner).live() {
                        ResourceState::Ready
                    } else {
                        old(self.owner).state
                    })
                },
                Err(CompletionError::MissingResource) => {
                    &&& self.submitted
                    &&& !old(self.owner).live()
                    &&& *final(self.owner) == *old(self.owner)
                },
                Err(CompletionError::Synchronization { source }) => {
                    &&& self.submitted
                    &&& old(self.owner).live()
                    &&& final(self.owner).state == ResourceState::PoisonedUncertain
                    &&& exists|argument: &mut R|
                        {
                            &&& #[trigger] call_ensures(
                                R::synchronize,
                                (argument,),
                                Err::<(), R::Error>(source),
                            )
                            &&& old(self.owner).resource == Some(*argument)
                            &&& final(self.owner).resource == Some(*final(argument))
                        }
                },
                Err(CompletionError::PostSynchronizationValidation { source }) => {
                    &&& self.submitted
                    &&& old(self.owner).live()
                    &&& final(self.owner).state == ResourceState::PoisonedIdle
                    &&& exists|synchronized: &mut R, validated: &mut R|
                        {
                            &&& #[trigger] call_ensures(
                                R::synchronize,
                                (synchronized,),
                                Ok::<(), R::Error>(()),
                            )
                            &&& #[trigger] call_ensures(
                                R::validate_after_synchronization,
                                (validated,),
                                Err::<(), R::Error>(source),
                            )
                            &&& old(self.owner).resource == Some(*synchronized)
                            &&& *final(synchronized) == *validated
                            &&& final(self.owner).resource == Some(*final(validated))
                        }
                },
            },
    {
        let completion = self.complete_prepublication()?;
        let PostCompletion { state, resource } = completion;
        match observe(commit, resource) {
            Ok(value) => {
                *state = ResourceState::Ready;
                Ok(value)
            },
            Err(source) => {
                *state = ResourceState::PoisonedIdle;
                Err(CompletionError::Commit { source })
            },
        }
    }
}

/// Make one call on a bundle.
fn observe<R, Value, F: FnOnce(&mut R) -> Value>(call: F, resource: &mut R) -> (result: Value)
    requires
        forall|resource: &mut R| call.requires((resource,)),
    ensures
        exists|argument: &mut R|
            {
                &&& #[trigger] call.ensures((argument,), result)
                &&& *argument == *old(resource)
                &&& *final(argument) == *final(resource)
            },
{
    call(resource)
}

/// Decide what a synchronization of submitted work means for it: the work goes on to
/// its validation, or its bundle is poisoned as uncertain and the failure is handed on.
pub fn after_synchronization<E>(result: Result<(), E>) -> (next: Result<
    (),
    (ResourceState, CompletionError<E>),
>)
    ensures
        match result {
            Ok(_) => next is Ok,
            Err(source) => next == Err::<(), (ResourceState, CompletionError<E>)>(
                (ResourceState::PoisonedUncertain, CompletionError::Synchronization { source }),
            ),
        },
        next matches Err((state, _)) ==> Some(state) == ResourceState::InFlight.after(
            CompletionEvent::SynchronizationFailed,
        ),
{
    match result {
        Ok(_) => Ok(()),
        Err(source) => Err(
            (ResourceState::PoisonedUncertain, CompletionError::Synchronization { source }),
        ),
    }
}

/// Decide what a validation of synchronized work means for it: the work is complete, or
/// its idle bundle is poisoned and the failure is handed on.
pub fn after_validation<E>(result: Result<(), E>) -> (next: Result<
    (),
    (ResourceState, CompletionError<E>),
>)
    ensures
        match result {
            Ok(_) => next is Ok,
            Err(source) => next == Err::<(), (ResourceState, CompletionError<E>)>(
                (
                    ResourceState::PoisonedIdle,
                    CompletionError::PostSynchronizationValidation { source },
                ),
            ),
        },
        next matches Err((state, _)) ==> Some(state) == ResourceState::InFlight.after(
            CompletionEvent::ValidationFailed,
        ),
{
    match result {
        Ok(_) => Ok(()),
        Err(source) => Err(
            (
                ResourceState::PoisonedIdle,
                CompletionError::PostSynchronizationValidation { source },
            ),
        ),
    }
}

/// The state that abandoned submitted work leaves behind.
pub fn abandoned_state(synchronized: bool) -> (state: ResourceState)
    ensures
        Some(state) == ResourceState::InFlight.after(
            CompletionEvent::SubmissionAbandoned { synchronized },
        ),
{
    if synchronized {
        ResourceState::PoisonedIdle
    } else {
        ResourceState::PoisonedUncertain
    }
}

/// Completed work that is not published yet.
pub struct PostCompletion<'owner, R> {
    pub state: &'owner mut ResourceState,
    pub resource: &'owner mut R,
}

impl<'owner, R: CompletionResource> PostCompletion<'owner, R> {
    /// Publish prepared work: the last step, which cannot fail.
    pub fn publish<Value, F: FnOnce(&mut R) -> Value>(self, publish: F) -> (value: Value)
        requires
            forall|resource: &mut R| publish.requires((resource,)),
        ensures
            *final(self.state) == ResourceState::Ready,
            exists|resource: &mut R|
                {
                    &&& #[trigger] publish.ensures((resource,), value)
                    &&& *resource == *old(self.resource)
                    &&& *final(resource) == *final(self.resource)
                },
    {
        let PostCompletion { state, resource } = self;
        let value = publish(resource);
        *state = ResourceState::Ready;
        value
    }

    /// Give up completed work: its bundle is idle but not usable any more. Nothing
    /// is synchronized a second time.
    pub fn abandon(self)
        ensures
            Some(*final(self.state)) == ResourceState::InFlight.after(
                CompletionEvent::PublicationAbandoned,
            ),
            *final(self.resource) == *old(self.resource),
    {
        *self.state = ResourceState::PoisonedIdle;
    }
}

} // verus!
