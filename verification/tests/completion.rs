use std::cell::Cell;
use std::collections::VecDeque;
use std::rc::Rc;

use decoders::completion::{
    abandoned_state, after_synchronization, after_validation, dispose, BeginError,
    CompletionError, CompletionEvent, CompletionResource,
    Release, ResourceOwner, ResourceState,
};

#[derive(Clone, Copy, Debug, Eq, PartialEq)]
enum TestError {
    ScriptFailure,
    MissingScriptEntry,
}

struct TestResource {
    synchronizations: Rc<Cell<usize>>,
    validations: Rc<Cell<usize>>,
    drops: Rc<Cell<usize>>,
    publications: Rc<Cell<usize>>,
    synchronization_script: VecDeque<Result<(), TestError>>,
    validation_script: VecDeque<Result<(), TestError>>,
}

impl TestResource {
    fn publish(&self) {
        self.publications
            .set(self.publications.get().saturating_add(1));
    }
}

impl CompletionResource for TestResource {
    type Error = TestError;

    fn synchronize(&mut self) -> Result<(), TestError> {
        self.synchronizations
            .set(self.synchronizations.get().saturating_add(1));
        match self.synchronization_script.pop_front() {
            Some(outcome) => outcome,
            None => Err(TestError::MissingScriptEntry),
        }
    }

    fn validate_after_synchronization(&mut self) -> Result<(), TestError> {
        self.validations
            .set(self.validations.get().saturating_add(1));
        match self.validation_script.pop_front() {
            Some(outcome) => outcome,
            None => Err(TestError::MissingScriptEntry),
        }
    }
}

impl Drop for TestResource {
    fn drop(&mut self) {
        self.drops.set(self.drops.get().saturating_add(1));
    }
}

struct OwnerFixture {
    owner: ResourceOwner<TestResource>,
    synchronizations: Rc<Cell<usize>>,
    validations: Rc<Cell<usize>>,
    drops: Rc<Cell<usize>>,
    publications: Rc<Cell<usize>>,
}

fn owner(
    synchronization_script: &[Result<(), TestError>],
    validation_script: &[Result<(), TestError>],
) -> OwnerFixture {
    let synchronizations = Rc::new(Cell::new(0));
    let validations = Rc::new(Cell::new(0));
    let drops = Rc::new(Cell::new(0));
    let publications = Rc::new(Cell::new(0));
    let owner = ResourceOwner::new(TestResource {
        synchronizations: Rc::clone(&synchronizations),
        validations: Rc::clone(&validations),
        drops: Rc::clone(&drops),
        publications: Rc::clone(&publications),
        synchronization_script: synchronization_script.iter().copied().collect(),
        validation_script: validation_script.iter().copied().collect(),
    });
    OwnerFixture {
        owner,
        synchronizations,
        validations,
        drops,
        publications,
    }
}

#[test]
fn preflight_drop_returns_bundle_to_ready() -> Result<(), BeginError> {
    let OwnerFixture {
        mut owner,
        synchronizations,
        drops,
        ..
    } = owner(&[], &[]);
    let guard = owner.begin()?;
    guard.abandon();
    assert_eq!(owner.state(), ResourceState::Ready);
    assert_eq!(synchronizations.get(), 0);
    assert_eq!(owner.release(), Release::Dropped);
    assert_eq!(drops.get(), 1);
    Ok(())
}

#[test]
fn synchronized_commit_publishes_then_returns_to_ready() -> Result<(), BeginError> {
    let OwnerFixture {
        mut owner,
        synchronizations,
        validations,
        drops,
        publications,
    } = owner(&[Ok(())], &[Ok(())]);
    let mut guard = owner.begin()?;
    guard.mark_submitted();
    guard
        .complete(|resource: &mut TestResource| {
            resource.publish();
            Ok(())
        })
        .map_err(|_| BeginError::MissingResource)?;
    assert_eq!(owner.state(), ResourceState::Ready);
    assert_eq!(synchronizations.get(), 1);
    assert_eq!(validations.get(), 1);
    assert_eq!(publications.get(), 1);
    assert_eq!(owner.release(), Release::Dropped);
    assert_eq!(drops.get(), 1);
    Ok(())
}

#[test]
fn post_completion_drop_retains_known_idle_without_a_second_sync() -> Result<(), BeginError> {
    let OwnerFixture {
        mut owner,
        synchronizations,
        validations,
        drops,
        publications,
    } = owner(&[Ok(())], &[Ok(())]);
    let mut guard = owner.begin()?;
    guard.mark_submitted();
    let completion = guard
        .complete_prepublication()
        .map_err(|_| BeginError::MissingResource)?;
    completion.abandon();
    assert_eq!(owner.state(), ResourceState::PoisonedIdle);
    assert_eq!(synchronizations.get(), 1);
    assert_eq!(validations.get(), 1);
    assert_eq!(publications.get(), 0);
    assert_eq!(owner.release(), Release::Dropped);
    assert_eq!(drops.get(), 1);
    Ok(())
}

#[test]
fn post_completion_publish_is_infallible_and_restores_ready() -> Result<(), BeginError> {
    let OwnerFixture {
        mut owner,
        synchronizations,
        validations,
        drops,
        publications,
    } = owner(&[Ok(())], &[Ok(())]);
    let mut guard = owner.begin()?;
    guard.mark_submitted();
    let completion = guard
        .complete_prepublication()
        .map_err(|_| BeginError::MissingResource)?;
    completion.publish(|resource: &mut TestResource| resource.publish());
    assert_eq!(owner.state(), ResourceState::Ready);
    assert_eq!(synchronizations.get(), 1);
    assert_eq!(validations.get(), 1);
    assert_eq!(publications.get(), 1);
    assert_eq!(owner.release(), Release::Dropped);
    assert_eq!(drops.get(), 1);
    Ok(())
}

#[test]
fn completion_requires_marking_before_submission() -> Result<(), BeginError> {
    let OwnerFixture {
        mut owner,
        synchronizations,
        drops,
        publications,
        ..
    } = owner(&[], &[]);
    let guard = owner.begin()?;
    let error = guard
        .complete(|resource: &mut TestResource| {
            resource.publish();
            Ok(())
        })
        .err()
        .ok_or(BeginError::MissingResource)?;
    assert!(matches!(error, CompletionError::NotSubmitted));
    assert_eq!(owner.state(), ResourceState::Ready);
    assert_eq!(synchronizations.get(), 0);
    assert_eq!(publications.get(), 0);
    assert_eq!(owner.release(), Release::Dropped);
    assert_eq!(drops.get(), 1);
    Ok(())
}

#[test]
fn checked_prepublication_failure_is_known_idle_and_never_retries() -> Result<(), BeginError> {
    let OwnerFixture {
        mut owner,
        synchronizations,
        drops,
        publications,
        ..
    } = owner(&[Ok(())], &[Ok(())]);
    let mut guard = owner.begin()?;
    guard.mark_submitted();
    let error = guard
        .complete(|_resource: &mut TestResource| Err::<(), TestError>(TestError::ScriptFailure))
        .err()
        .ok_or(BeginError::MissingResource)?;
    assert!(matches!(
        error,
        CompletionError::Commit {
            source: TestError::ScriptFailure,
        }
    ));
    assert!(matches!(owner.state(), ResourceState::PoisonedIdle));
    assert!(matches!(owner.begin(), Err(BeginError::NotReady)));
    assert_eq!(publications.get(), 0);
    assert_eq!(synchronizations.get(), 1);
    assert_eq!(owner.release(), Release::Dropped);
    assert_eq!(drops.get(), 1);
    Ok(())
}

#[test]
fn submitted_drop_with_successful_sync_is_permanently_poisoned() -> Result<(), BeginError> {
    let OwnerFixture {
        mut owner,
        synchronizations,
        drops,
        publications,
        ..
    } = owner(&[Ok(())], &[]);
    let mut guard = owner.begin()?;
    guard.mark_submitted();
    guard.abandon();
    assert!(matches!(owner.state(), ResourceState::PoisonedIdle));
    assert!(matches!(owner.begin(), Err(BeginError::NotReady)));
    assert_eq!(synchronizations.get(), 1);
    assert_eq!(publications.get(), 0);
    assert_eq!(owner.release(), Release::Dropped);
    assert_eq!(drops.get(), 1);
    Ok(())
}

#[test]
fn completion_sync_failure_never_publishes_and_remains_uncertain() -> Result<(), BeginError> {
    let OwnerFixture {
        mut owner,
        synchronizations,
        drops,
        publications,
        ..
    } = owner(&[Err(TestError::ScriptFailure), Ok(())], &[]);
    let mut guard = owner.begin()?;
    guard.mark_submitted();
    let error = guard
        .complete(|resource: &mut TestResource| {
            resource.publish();
            Ok(())
        })
        .err()
        .ok_or(BeginError::MissingResource)?;
    assert!(matches!(
        error,
        CompletionError::Synchronization {
            source: TestError::ScriptFailure,
        }
    ));
    assert!(matches!(owner.state(), ResourceState::PoisonedUncertain));
    assert_eq!(publications.get(), 0);
    assert_eq!(synchronizations.get(), 1);
    assert_eq!(owner.release(), Release::Dropped);
    assert_eq!(synchronizations.get(), 2);
    assert_eq!(drops.get(), 1);
    Ok(())
}

#[test]
fn failed_sync_drop_retries_then_forgets_entire_bundle() -> Result<(), BeginError> {
    let OwnerFixture {
        mut owner,
        synchronizations,
        drops,
        publications,
        ..
    } = owner(
        &[Err(TestError::ScriptFailure), Err(TestError::ScriptFailure)],
        &[],
    );
    let mut guard = owner.begin()?;
    guard.mark_submitted();
    guard.abandon();
    assert!(matches!(owner.state(), ResourceState::PoisonedUncertain));
    assert_eq!(publications.get(), 0);
    assert_eq!(owner.release(), Release::Forgotten);
    assert_eq!(synchronizations.get(), 2);
    assert_eq!(drops.get(), 0);
    Ok(())
}

#[test]
fn post_sync_validation_failure_never_invokes_publication() -> Result<(), BeginError> {
    let OwnerFixture {
        mut owner,
        synchronizations,
        validations,
        drops,
        publications,
    } = owner(&[Ok(())], &[Err(TestError::ScriptFailure)]);
    let mut guard = owner.begin()?;
    guard.mark_submitted();
    let error = guard
        .complete(|resource: &mut TestResource| {
            resource.publish();
            Ok(())
        })
        .err()
        .ok_or(BeginError::MissingResource)?;
    assert!(matches!(
        error,
        CompletionError::PostSynchronizationValidation {
            source: TestError::ScriptFailure,
        }
    ));
    assert!(matches!(owner.state(), ResourceState::PoisonedIdle));
    assert!(matches!(owner.begin(), Err(BeginError::NotReady)));
    assert_eq!(synchronizations.get(), 1);
    assert_eq!(validations.get(), 1);
    assert_eq!(publications.get(), 0);
    assert_eq!(owner.release(), Release::Dropped);
    assert_eq!(drops.get(), 1);
    Ok(())
}

#[test]
fn an_empty_owner_refuses_work_and_releases_nothing() {
    let mut owner: ResourceOwner<TestResource> = ResourceOwner {
        state: ResourceState::Ready,
        resource: None,
    };
    assert!(matches!(owner.begin(), Err(BeginError::MissingResource)));
    assert!(matches!(
        owner.ready_resource(),
        Err(BeginError::MissingResource)
    ));
    assert!(owner.into_resource().is_none());
    let owner: ResourceOwner<TestResource> = ResourceOwner {
        state: ResourceState::InFlight,
        resource: None,
    };
    assert_eq!(owner.release(), Release::Empty);
}

#[test]
fn a_guard_lends_its_bundle_while_in_flight() -> Result<(), BeginError> {
    let OwnerFixture {
        mut owner,
        publications,
        ..
    } = owner(&[], &[]);
    let mut guard = owner.begin()?;
    match guard.resource() {
        Ok(resource) => resource.publish(),
        Err(_) => panic!("an in-flight guard owns its bundle"),
    }
    assert_eq!(publications.get(), 1);
    guard.abandon();
    assert!(owner.ready_resource().is_ok());
    Ok(())
}

#[test]
fn a_poisoned_state_admits_no_event() {
    let events = [
        CompletionEvent::Begun,
        CompletionEvent::PreflightAbandoned,
        CompletionEvent::SubmissionAbandoned { synchronized: true },
        CompletionEvent::SynchronizationFailed,
        CompletionEvent::ValidationFailed,
        CompletionEvent::PublicationAbandoned,
        CompletionEvent::Published,
    ];
    for event in events {
        assert_eq!(ResourceState::PoisonedIdle.advance(event), None);
        assert_eq!(ResourceState::PoisonedUncertain.advance(event), None);
    }
    assert_eq!(
        ResourceState::InFlight.advance(CompletionEvent::Published),
        Some(ResourceState::Ready)
    );
    assert_eq!(abandoned_state(true), ResourceState::PoisonedIdle);
    assert_eq!(abandoned_state(false), ResourceState::PoisonedUncertain);
}

#[test]
fn only_uncertain_and_unsynchronized_work_keeps_its_bundle_alive() {
    assert_eq!(dispose(1_u8, true, false), Release::Forgotten);
    assert_eq!(dispose(1_u8, true, true), Release::Dropped);
    assert_eq!(dispose(1_u8, false, false), Release::Dropped);
}

#[test]
fn known_idle_poison_keeps_unsubmitted_work_out_of_use() -> Result<(), String> {
    for submitted in [false, true] {
        let OwnerFixture { mut owner, synchronizations, .. } = owner(&[Ok(())], &[Ok(())]);
        let mut work = owner.begin().map_err(|error| format!("{error:?}"))?;
        if submitted {
            work.mark_submitted();
        }
        work.poison_known_idle();
        assert_eq!(owner.state(), ResourceState::PoisonedIdle);
        assert_eq!(synchronizations.get(), 0);
        assert!(matches!(owner.begin(), Err(BeginError::NotReady)));
    }
    assert_eq!(
        ResourceState::InFlight.advance(CompletionEvent::PoisonedIdle),
        Some(ResourceState::PoisonedIdle)
    );
    Ok(())
}

#[test]
fn a_failed_synchronization_or_validation_decides_the_poison() {
    assert!(after_synchronization(Ok::<(), u8>(())).is_ok());
    assert!(matches!(
        after_synchronization(Err(3_u8)),
        Err((ResourceState::PoisonedUncertain, CompletionError::Synchronization { source: 3 }))
    ));
    assert!(after_validation(Ok::<(), u8>(())).is_ok());
    assert!(matches!(
        after_validation(Err(4_u8)),
        Err((
            ResourceState::PoisonedIdle,
            CompletionError::PostSynchronizationValidation { source: 4 },
        ))
    ));
}
