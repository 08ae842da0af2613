use admin_server::deletion::{
    find_matching_device, DeletionSaga, LocalDeletion, Outcome, PhoneLookup, SagaAction,
    SagaEvent, UnexpectedEvent,
};
use admin_server::phone::normalize;
use admin_server::registry::{DeleteReply, Device, ListReply, RegistryRequest};

const BASE: &str = "http://whatsapp_bot:8000";

fn device(jid: &str) -> Device {
    Device { jid: jid.to_string() }
}

/// A user store held in memory.
struct FakeStore {
    users: Vec<(i32, String)>,
    fail_reads: bool,
    fail_deletes: bool,
}

impl FakeStore {
    fn with_user(id: i32, phone: &str) -> FakeStore {
        FakeStore { users: vec![(id, phone.to_string())], fail_reads: false, fail_deletes: false }
    }

    fn read_phone(&self, id: i32) -> PhoneLookup {
        if self.fail_reads {
            return PhoneLookup::Failed { error: "db select failed".to_string() };
        }
        match self.users.iter().find(|(user, _)| *user == id) {
            Some((_, phone)) => PhoneLookup::Found { phone: phone.clone() },
            None => PhoneLookup::Missing,
        }
    }

    fn delete(&mut self, id: i32) -> LocalDeletion {
        if self.fail_deletes {
            return LocalDeletion::Failed { error: "db delete failed".to_string() };
        }
        let before = self.users.len();
        self.users.retain(|(user, _)| *user != id);
        LocalDeletion::Done { rows: (before - self.users.len()) as u64 }
    }

    fn has(&self, id: i32) -> bool {
        self.users.iter().any(|(user, _)| *user == id)
    }
}

/// A remote session service held in memory, which records the calls made to it.
struct FakeRegistry {
    list: ListReply,
    delete: DeleteReply,
    list_calls: Vec<RegistryRequest>,
    delete_calls: Vec<(String, RegistryRequest)>,
}

impl FakeRegistry {
    fn listing(jids: &[&str]) -> FakeRegistry {
        FakeRegistry {
            list: ListReply::Answered {
                status: 200,
                devices: Some(jids.iter().map(|jid| device(jid)).collect()),
            },
            delete: DeleteReply::Answered { status: 204, status_text: "204 No Content".to_string() },
            list_calls: vec![],
            delete_calls: vec![],
        }
    }

    fn list_reply(&self) -> ListReply {
        match &self.list {
            ListReply::Unreachable { error } => ListReply::Unreachable { error: error.clone() },
            ListReply::Answered { status, devices } => ListReply::Answered {
                status: *status,
                devices: devices
                    .as_ref()
                    .map(|found| found.iter().map(|d| device(&d.jid)).collect()),
            },
        }
    }

    fn delete_reply(&self) -> DeleteReply {
        match &self.delete {
            DeleteReply::Unreachable { error } => DeleteReply::Unreachable { error: error.clone() },
            DeleteReply::Answered { status, status_text } => {
                DeleteReply::Answered { status: *status, status_text: status_text.clone() }
            }
        }
    }
}

/// Runs a saga to its end against the two fakes, making each call that the saga asks for.
fn run(
    store: &mut FakeStore,
    registry: &mut FakeRegistry,
    id: i32,
    credential: Option<&str>,
) -> Outcome {
    let (mut saga, mut action) =
        DeletionSaga::begin(id, credential.map(|c| c.to_string()), BASE.to_string());
    loop {
        let event = match action {
            SagaAction::LoadPhone { user_id } => SagaEvent::Phone(store.read_phone(user_id)),
            SagaAction::ListDevices { request } => {
                registry.list_calls.push(request);
                SagaEvent::Devices(registry.list_reply())
            }
            SagaAction::DeleteDevice { jid, request } => {
                registry.delete_calls.push((jid, request));
                SagaEvent::RemoteDelete(registry.delete_reply())
            }
            SagaAction::DeleteUser { user_id } => SagaEvent::LocalDelete(store.delete(user_id)),
            SagaAction::Finish { outcome } => {
                assert!(saga.is_finished());
                return outcome;
            }
        };
        assert!(!saga.is_finished());
        action = saga.step(event).unwrap();
    }
}

#[test]
fn matching_device_is_deleted_before_the_user() {
    let mut store = FakeStore::with_user(7, "+1 555-0100");
    let mut registry = FakeRegistry::listing(&["5550100@s"]);
    let outcome = run(&mut store, &mut registry, 7, Some("s3cret"));
    assert_eq!(outcome, Outcome::Deleted);
    assert_eq!(outcome.status_code(), 204);
    assert_eq!(outcome.body(), "");
    assert!(!store.has(7));
    assert_eq!(registry.list_calls.len(), 1);
    assert_eq!(registry.list_calls[0].url, "http://whatsapp_bot:8000/devices");
    assert_eq!(registry.list_calls[0].credential, Some("s3cret".to_string()));
    assert_eq!(registry.delete_calls.len(), 1);
    assert_eq!(registry.delete_calls[0].0, "5550100@s");
    assert_eq!(registry.delete_calls[0].1.url, "http://whatsapp_bot:8000/devices/5550100@s");
    assert_eq!(registry.delete_calls[0].1.credential, Some("s3cret".to_string()));
}

#[test]
fn list_timeout_keeps_the_user() {
    let mut store = FakeStore::with_user(7, "+1 555-0100");
    let mut registry = FakeRegistry::listing(&[]);
    registry.list = ListReply::Unreachable { error: "operation timed out".to_string() };
    let outcome = run(&mut store, &mut registry, 7, None);
    assert_eq!(
        outcome,
        Outcome::UpstreamUnavailable {
            message: "whatsapp_bot /devices error: operation timed out".to_string()
        }
    );
    assert_eq!(outcome.status_code(), 502);
    assert_eq!(outcome.body(), "whatsapp_bot /devices error: operation timed out");
    assert!(store.has(7));
    assert!(registry.delete_calls.is_empty());
}

#[test]
fn unknown_user_ends_at_once() {
    let mut store = FakeStore::with_user(7, "123");
    let mut registry = FakeRegistry::listing(&["123"]);
    let outcome = run(&mut store, &mut registry, 8, None);
    assert_eq!(outcome, Outcome::NotFound);
    assert_eq!(outcome.status_code(), 404);
    assert_eq!(outcome.body(), "not found");
    assert!(registry.list_calls.is_empty());
    assert!(registry.delete_calls.is_empty());
    assert!(store.has(7));
}

#[test]
fn failed_phone_read_is_a_store_error() {
    let mut store = FakeStore::with_user(7, "123");
    store.fail_reads = true;
    let mut registry = FakeRegistry::listing(&["123"]);
    let outcome = run(&mut store, &mut registry, 7, None);
    assert_eq!(outcome, Outcome::StoreError { message: "db select failed".to_string() });
    assert_eq!(outcome.status_code(), 500);
    assert_eq!(outcome.body(), "db select failed");
    assert!(registry.list_calls.is_empty());
}

#[test]
fn rejected_remote_delete_keeps_the_user() {
    let mut store = FakeStore::with_user(7, "+1 555-0100");
    let mut registry = FakeRegistry::listing(&["5550100@s"]);
    registry.delete =
        DeleteReply::Answered { status: 500, status_text: "500 Internal Server Error".to_string() };
    let outcome = run(&mut store, &mut registry, 7, None);
    assert_eq!(
        outcome,
        Outcome::UpstreamDeleteFailed {
            message: "whatsapp_bot /delete status 500 Internal Server Error".to_string()
        }
    );
    assert_eq!(outcome.status_code(), 502);
    assert!(store.has(7));
    assert_eq!(registry.delete_calls.len(), 1);
}

#[test]
fn unreachable_remote_delete_keeps_the_user() {
    let mut store = FakeStore::with_user(7, "+1 555-0100");
    let mut registry = FakeRegistry::listing(&["5550100@s"]);
    registry.delete = DeleteReply::Unreachable { error: "connection reset".to_string() };
    let outcome = run(&mut store, &mut registry, 7, None);
    assert_eq!(
        outcome,
        Outcome::UpstreamDeleteFailed {
            message: "whatsapp_bot /delete error: connection reset".to_string()
        }
    );
    assert_eq!(outcome.status_code(), 502);
    assert!(store.has(7));
}

#[test]
fn no_match_deletes_the_user_without_a_remote_delete() {
    let mut store = FakeStore::with_user(7, "+1 555-0100");
    let mut registry = FakeRegistry::listing(&["4440100@s", "no digits"]);
    let outcome = run(&mut store, &mut registry, 7, None);
    assert_eq!(outcome, Outcome::Deleted);
    assert!(!store.has(7));
    assert_eq!(registry.list_calls.len(), 1);
    assert!(registry.delete_calls.is_empty());
}

#[test]
fn list_non_success_deletes_the_user_only() {
    let mut store = FakeStore::with_user(7, "+1 555-0100");
    let mut registry = FakeRegistry::listing(&["5550100@s"]);
    registry.list = ListReply::Answered { status: 503, devices: None };
    let outcome = run(&mut store, &mut registry, 7, None);
    assert_eq!(outcome, Outcome::Deleted);
    assert!(!store.has(7));
    assert!(registry.delete_calls.is_empty());
}

#[test]
fn list_with_unreadable_body_deletes_the_user_only() {
    let mut store = FakeStore::with_user(7, "+1 555-0100");
    let mut registry = FakeRegistry::listing(&[]);
    registry.list = ListReply::Answered { status: 200, devices: None };
    let outcome = run(&mut store, &mut registry, 7, None);
    assert_eq!(outcome, Outcome::Deleted);
    assert!(!store.has(7));
    assert!(registry.delete_calls.is_empty());
}

#[test]
fn first_match_wins_over_a_better_one() {
    let mut store = FakeStore::with_user(7, "15550100");
    let mut registry = FakeRegistry::listing(&["999@s", "0100@s", "15550100@s"]);
    let outcome = run(&mut store, &mut registry, 7, None);
    assert_eq!(outcome, Outcome::Deleted);
    assert_eq!(registry.delete_calls.len(), 1);
    assert_eq!(registry.delete_calls[0].0, "0100@s");
}

#[test]
fn phone_without_digits_matches_nothing() {
    let mut store = FakeStore::with_user(7, "unknown");
    let mut registry = FakeRegistry::listing(&["5550100@s"]);
    let outcome = run(&mut store, &mut registry, 7, None);
    assert_eq!(outcome, Outcome::Deleted);
    assert!(registry.delete_calls.is_empty());
}

#[test]
fn user_gone_meanwhile_is_not_found() {
    let (mut saga, _) = DeletionSaga::begin(7, None, BASE.to_string());
    saga.step(SagaEvent::Phone(PhoneLookup::Found { phone: "123".to_string() })).unwrap();
    let next = saga
        .step(SagaEvent::Devices(ListReply::Answered { status: 200, devices: Some(vec![]) }))
        .unwrap();
    assert_eq!(next, SagaAction::DeleteUser { user_id: 7 });
    let end = saga.step(SagaEvent::LocalDelete(LocalDeletion::Done { rows: 0 })).unwrap();
    assert_eq!(end, SagaAction::Finish { outcome: Outcome::NotFound });
}

#[test]
fn failed_local_delete_is_a_store_error() {
    let mut store = FakeStore::with_user(7, "+1 555-0100");
    store.fail_deletes = true;
    let mut registry = FakeRegistry::listing(&["5550100@s"]);
    let outcome = run(&mut store, &mut registry, 7, None);
    assert_eq!(outcome, Outcome::StoreError { message: "db delete failed".to_string() });
    assert_eq!(outcome.status_code(), 500);
    // The remote session is gone; the local record is still there.
    assert_eq!(registry.delete_calls.len(), 1);
    assert!(store.has(7));
}

#[test]
fn misplaced_events_are_refused_and_change_nothing() {
    let (mut saga, first) = DeletionSaga::begin(7, None, BASE.to_string());
    assert_eq!(first, SagaAction::LoadPhone { user_id: 7 });
    let refused = saga.step(SagaEvent::LocalDelete(LocalDeletion::Done { rows: 1 }));
    assert_eq!(refused, Err(UnexpectedEvent {}));
    let refused = saga.step(SagaEvent::RemoteDelete(DeleteReply::Answered {
        status: 204,
        status_text: "204 No Content".to_string(),
    }));
    assert_eq!(refused, Err(UnexpectedEvent {}));
    assert!(!saga.is_finished());
    let next = saga.step(SagaEvent::Phone(PhoneLookup::Found { phone: "123".to_string() }));
    assert!(matches!(next, Ok(SagaAction::ListDevices { .. })));
    let refused = saga.step(SagaEvent::Phone(PhoneLookup::Missing));
    assert_eq!(refused, Err(UnexpectedEvent {}));
    let next = saga
        .step(SagaEvent::Devices(ListReply::Answered {
            status: 200,
            devices: Some(vec![device("123")]),
        }))
        .unwrap();
    assert!(matches!(next, SagaAction::DeleteDevice { .. }));
    let refused = saga.step(SagaEvent::LocalDelete(LocalDeletion::Done { rows: 1 }));
    assert_eq!(refused, Err(UnexpectedEvent {}));
}

#[test]
fn finished_saga_accepts_nothing() {
    let (mut saga, _) = DeletionSaga::begin(7, None, BASE.to_string());
    let end = saga.step(SagaEvent::Phone(PhoneLookup::Missing)).unwrap();
    assert_eq!(end, SagaAction::Finish { outcome: Outcome::NotFound });
    assert!(saga.is_finished());
    assert_eq!(saga.step(SagaEvent::Phone(PhoneLookup::Missing)), Err(UnexpectedEvent {}));
    assert_eq!(
        saga.step(SagaEvent::LocalDelete(LocalDeletion::Done { rows: 1 })),
        Err(UnexpectedEvent {})
    );
}

#[test]
fn find_matching_device_gives_the_first_position() {
    let phone = normalize("+1 555-0100");
    let devices = vec![device("x"), device("777"), device("0100"), device("15550100")];
    assert_eq!(find_matching_device(&phone, &devices), Some(2));
    assert_eq!(find_matching_device(&phone, &vec![device("x"), device("777")]), None);
    assert_eq!(find_matching_device(&phone, &vec![]), None);
    assert_eq!(find_matching_device(&normalize(""), &devices), None);
}

#[test]
fn outcome_statuses() {
    assert_eq!(Outcome::Deleted.status_code(), 204);
    assert_eq!(Outcome::NotFound.status_code(), 404);
    assert_eq!(Outcome::UpstreamUnavailable { message: "m".to_string() }.status_code(), 502);
    assert_eq!(Outcome::UpstreamDeleteFailed { message: "m".to_string() }.status_code(), 502);
    assert_eq!(Outcome::StoreError { message: "m".to_string() }.status_code(), 500);
    assert_eq!(Outcome::StoreError { message: "m".to_string() }.body(), "m");
}
