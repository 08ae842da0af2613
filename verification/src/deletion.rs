//! The user-deletion saga. A user's remote session is removed before the local record is,
//! with no transaction shared between the two systems: the saga is a state machine that is
//! told what each outside call gave and answers with the next call to make.

use crate::phone::{digits_of, normalize, same_subscriber, NormalizedPhone};
use crate::registry::{
    deletion_result, device_url, devices_url, error_text, listed_devices, DeleteReply,
    DeleteReplyView, Device, DeviceRegistryClient, ListReply, ListReplyView, RegistryError,
    RegistryErrorView, RegistryRequest, RegistryRequestView,
};
use vstd::prelude::*;
use vstd::string::*;

verus! {

/// What the user store gave when asked for a user's phone.
#[derive(Debug, PartialEq, Eq)]
pub enum PhoneLookup {
    Found { phone: String },
    Missing,
    Failed { error: String },
}

pub enum PhoneLookupView {
    Found { phone: Seq<char> },
    Missing,
    Failed { error: Seq<char> },
}

impl View for PhoneLookup {
    type V = PhoneLookupView;

    open spec fn view(&self) -> PhoneLookupView {
        match self {
            PhoneLookup::Found { phone } => PhoneLookupView::Found { phone: phone@ },
            PhoneLookup::Missing => PhoneLookupView::Missing,
            PhoneLookup::Failed { error } => PhoneLookupView::Failed { error: error@ },
        }
    }
}

/// What the user store gave when asked to delete a user: how many records went, or why the
/// store failed.
#[derive(Debug, PartialEq, Eq)]
pub enum LocalDeletion {
    Done { rows: u64 },
    Failed { error: String },
}

pub enum LocalDeletionView {
    Done { rows: u64 },
    Failed { error: Seq<char> },
}

impl View for LocalDeletion {
    type V = LocalDeletionView;

    open spec fn view(&self) -> LocalDeletionView {
        match self {
            LocalDeletion::Done { rows } => LocalDeletionView::Done { rows: *rows },
            LocalDeletion::Failed { error } => LocalDeletionView::Failed { error: error@ },
        }
    }
}

/// The result of an outside call, handed to the saga.
#[derive(Debug, PartialEq, Eq)]
pub enum SagaEvent {
    Phone(PhoneLookup),
    Devices(ListReply),
    RemoteDelete(DeleteReply),
    LocalDelete(LocalDeletion),
}

pub enum SagaEventView {
    Phone(PhoneLookupView),
    Devices(ListReplyView),
    RemoteDelete(DeleteReplyView),
    LocalDelete(LocalDeletionView),
}

impl View for SagaEvent {
    type V = SagaEventView;

    open spec fn view(&self) -> SagaEventView {
        match self {
            SagaEvent::Phone(lookup) => SagaEventView::Phone(lookup@),
            SagaEvent::Devices(reply) => SagaEventView::Devices(reply@),
            SagaEvent::RemoteDelete(reply) => SagaEventView::RemoteDelete(reply@),
            SagaEvent::LocalDelete(deletion) => SagaEventView::LocalDelete(deletion@),
        }
    }
}

/// How a deletion ended.
#[derive(Debug, PartialEq, Eq)]
pub enum Outcome {
    /// The user is gone, and so is the remote session that matched it, if one did.
    Deleted,
    /// No such user.
    NotFound,
    /// The device list could not be fetched. Nothing was deleted.
    UpstreamUnavailable { message: String },
    /// The matching device could not be deleted. The user was kept.
    UpstreamDeleteFailed { message: String },
    /// The user store failed.
    StoreError { message: String },
}

pub enum OutcomeView {
    Deleted,
    NotFound,
    UpstreamUnavailable { message: Seq<char> },
    UpstreamDeleteFailed { message: Seq<char> },
    StoreError { message: Seq<char> },
}

impl View for Outcome {
    type V = OutcomeView;

    open spec fn view(&self) -> OutcomeView {
        match self {
            Outcome::Deleted => OutcomeView::Deleted,
            Outcome::NotFound => OutcomeView::NotFound,
            Outcome::UpstreamUnavailable { message } => OutcomeView::UpstreamUnavailable {
                message: message@,
            },
            Outcome::UpstreamDeleteFailed { message } => OutcomeView::UpstreamDeleteFailed {
                message: message@,
            },
            Outcome::StoreError { message } => OutcomeView::StoreError { message: message@ },
        }
    }
}

/// The HTTP status that reports an outcome.
pub open spec fn outcome_status(outcome: OutcomeView) -> u16 {
    match outcome {
        OutcomeView::Deleted => 204,
        OutcomeView::NotFound => 404,
        OutcomeView::UpstreamUnavailable { .. } => 502,
        OutcomeView::UpstreamDeleteFailed { .. } => 502,
        OutcomeView::StoreError { .. } => 500,
    }
}

/// The text that goes with an outcome's status; a successful deletion has none.
pub open spec fn outcome_body(outcome: OutcomeView) -> Seq<char> {
    match outcome {
        OutcomeView::Deleted => Seq::empty(),
        OutcomeView::NotFound => "not found"@,
        OutcomeView::UpstreamUnavailable { message } => message,
        OutcomeView::UpstreamDeleteFailed { message } => message,
        OutcomeView::StoreError { message } => message,
    }
}

impl Outcome {
    /// The HTTP status that reports this outcome.
    pub fn status_code(&self) -> (status: u16)
        ensures
            status == outcome_status(self@),
    {
        match self {
            Outcome::Deleted => 204,
            Outcome::NotFound => 404,
            Outcome::UpstreamUnavailable { .. } => 502,
            Outcome::UpstreamDeleteFailed { .. } => 502,
            Outcome::StoreError { .. } => 500,
        }
    }

    /// The text that goes with the status.
    pub fn body(&self) -> (text: String)
        ensures
            text@ == outcome_body(self@),
    {
        match self {
            Outcome::Deleted => String::new(),
            Outcome::NotFound => String::from_str("not found"),
            Outcome::UpstreamUnavailable { message } => message.clone(),
            Outcome::UpstreamDeleteFailed { message } => message.clone(),
            Outcome::StoreError { message } => message.clone(),
        }
    }
}

/// The next outside call that the saga asks for, or the end of the saga.
#[derive(Debug, PartialEq, Eq)]
pub enum SagaAction {
    /// Read the phone of the user `user_id` from the store.
    LoadPhone { user_id: i32 },
    /// Ask the remote service for its devices.
    ListDevices { request: RegistryRequest },
    /// Delete the device `jid` at the remote service.
    DeleteDevice { jid: String, request: RegistryRequest },
    /// Delete the user `user_id` from the store.
    DeleteUser { user_id: i32 },
    /// Make no further call: the saga has ended.
    Finish { outcome: Outcome },
}

pub enum SagaActionView {
    LoadPhone { user_id: i32 },
    ListDevices { request: RegistryRequestView },
    DeleteDevice { jid: Seq<char>, request: RegistryRequestView },
    DeleteUser { user_id: i32 },
    Finish { outcome: OutcomeView },
}

impl View for SagaAction {
    type V = SagaActionView;

    open spec fn view(&self) -> SagaActionView {
        match self {
            SagaAction::LoadPhone { user_id } => SagaActionView::LoadPhone { user_id: *user_id },
            SagaAction::ListDevices { request } => SagaActionView::ListDevices {
                request: request@,
            },
            SagaAction::DeleteDevice { jid, request } => SagaActionView::DeleteDevice {
                jid: jid@,
                request: request@,
            },
            SagaAction::DeleteUser { user_id } => SagaActionView::DeleteUser {
                user_id: *user_id,
            },
            SagaAction::Finish { outcome } => SagaActionView::Finish { outcome: outcome@ },
        }
    }
}

/// Where a saga stands: which reply it waits for.
pub enum StageView {
    AwaitPhone,
    AwaitDevices { phone: Seq<char> },
    AwaitRemoteDelete,
    AwaitLocalDelete,
    Finished,
}

pub struct SagaView {
    pub user_id: i32,
    pub credential: Option<Seq<char>>,
    pub base_url: Seq<char>,
    pub stage: StageView,
}

/// The device `jid` matches the digits-only phone `phone`.
pub open spec fn device_matches(phone: Seq<char>, jid: Seq<char>) -> bool {
    same_subscriber(digits_of(jid), phone)
}

/// `at` is the position of the first device, in listed order, that matches `phone`.
pub open spec fn is_first_match(phone: Seq<char>, jids: Seq<Seq<char>>, at: int) -> bool {
    &&& 0 <= at < jids.len()
    &&& device_matches(phone, jids[at])
    &&& forall|before: int| 0 <= before < at ==> !device_matches(phone, #[trigger] jids[before])
}

/// No device matches `phone`.
pub open spec fn no_match(phone: Seq<char>, jids: Seq<Seq<char>>) -> bool {
    forall|at: int| 0 <= at < jids.len() ==> !device_matches(phone, #[trigger] jids[at])
}

/// The position of the first device that matches `phone`, if any does.
pub open spec fn first_match(phone: Seq<char>, jids: Seq<Seq<char>>) -> Option<int> {
    if exists|at: int| is_first_match(phone, jids, at) {
        Some(choose|at: int| is_first_match(phone, jids, at))
    } else {
        None
    }
}

/// What is reported when the device list could not be fetched.
pub open spec fn list_failure_message(error: RegistryErrorView) -> Seq<char> {
    "whatsapp_bot /devices error: "@ + error_text(error)
}

/// What is reported when the matching device could not be deleted.
pub open spec fn delete_failure_message(error: RegistryErrorView) -> Seq<char> {
    match error {
        RegistryErrorView::Unavailable { error } => "whatsapp_bot /delete error: "@ + error,
        RegistryErrorView::Rejected { status, status_text } => "whatsapp_bot /delete status "@
            + status_text,
    }
}

/// The saga `saga` with its stage set to `stage`.
pub open spec fn at_stage(saga: SagaView, stage: StageView) -> SagaView {
    SagaView { stage, ..saga }
}

/// The end of `saga` with `outcome`.
pub open spec fn finish(saga: SagaView, outcome: OutcomeView) -> Option<(SagaView, SagaActionView)> {
    Some((at_stage(saga, StageView::Finished), SagaActionView::Finish { outcome }))
}

/// One step of the saga: the stage and the action that follow when `event` arrives, or `None`
/// where `event` does not answer the call that the saga waits for.
///
/// - The phone: a missing user ends the saga with `NotFound`, a store failure with
///   `StoreError`; a phone is reduced to its digits and the devices are asked for.
/// - The devices: a service that could not be reached ends the saga with
///   `UpstreamUnavailable`. Otherwise the first device that matches, in listed order, is
///   to be deleted; where none matches, the user is deleted at once.
/// - The remote deletion: any failure ends the saga with `UpstreamDeleteFailed`; only after
///   a success is the user deleted.
/// - The local deletion: `Deleted` where a record went, `NotFound` where none did,
///   `StoreError` where the store failed.
pub open spec fn saga_step(saga: SagaView, event: SagaEventView) -> Option<
    (SagaView, SagaActionView),
> {
    match (saga.stage, event) {
        (StageView::AwaitPhone, SagaEventView::Phone(lookup)) => match lookup {
            PhoneLookupView::Found { phone } => Some(
                (
                    at_stage(saga, StageView::AwaitDevices { phone: digits_of(phone) }),
                    SagaActionView::ListDevices {
                        request: RegistryRequestView {
                            url: devices_url(saga.base_url),
                            credential: saga.credential,
                        },
                    },
                ),
            ),
            PhoneLookupView::Missing => finish(saga, OutcomeView::NotFound),
            PhoneLookupView::Failed { error } => finish(
                saga,
                OutcomeView::StoreError { message: error },
            ),
        },
        (StageView::AwaitDevices { phone }, SagaEventView::Devices(reply)) => match listed_devices(
            reply,
        ) {
            Err(error) => finish(
                saga,
                OutcomeView::UpstreamUnavailable { message: list_failure_message(error) },
            ),
            Ok(jids) => match first_match(phone, jids) {
                Some(at) => Some(
                    (
                        at_stage(saga, StageView::AwaitRemoteDelete),
                        SagaActionView::DeleteDevice {
                            jid: jids[at],
                            request: RegistryRequestView {
                                url: device_url(saga.base_url, jids[at]),
                                credential: saga.credential,
                            },
                        },
                    ),
                ),
                None => Some(
                    (
                        at_stage(saga, StageView::AwaitLocalDelete),
                        SagaActionView::DeleteUser { user_id: saga.user_id },
                    ),
                ),
            },
        },
        (StageView::AwaitRemoteDelete, SagaEventView::RemoteDelete(reply)) => match deletion_result(
            reply,
        ) {
            Ok(_) => Some(
                (
                    at_stage(saga, StageView::AwaitLocalDelete),
                    SagaActionView::DeleteUser { user_id: saga.user_id },
                ),
            ),
            Err(error) => finish(
                saga,
                OutcomeView::UpstreamDeleteFailed { message: delete_failure_message(error) },
            ),
        },
        (StageView::AwaitLocalDelete, SagaEventView::LocalDelete(deletion)) => match deletion {
            LocalDeletionView::Done { rows } => if rows > 0 {
                finish(saga, OutcomeView::Deleted)
            } else {
                finish(saga, OutcomeView::NotFound)
            },
            LocalDeletionView::Failed { error } => finish(
                saga,
                OutcomeView::StoreError { message: error },
            ),
        },
        _ => None,
    }
}

/// The actions that the saga answers with when it is handed `events` one after another, up
/// to the first event that it refuses. The action at position `k` answers the event at
/// position `k`.
pub open spec fn saga_actions(saga: SagaView, events: Seq<SagaEventView>) -> Seq<SagaActionView>
    decreases events.len(),
{
    if events.len() == 0 {
        Seq::empty()
    } else {
        match saga_step(saga, events[0]) {
            None => Seq::empty(),
            Some((next, action)) => seq![action] + saga_actions(next, events.skip(1)),
        }
    }
}

/// The events that the steps of a run take up, as far as a run can go.
proof fn lemma_run_heads(events: Seq<SagaEventView>)
    ensures
        events.len() > 1 ==> events.skip(1)[0] == events[1],
        events.len() > 2 ==> events.skip(1).skip(1)[0] == events[2],
        events.len() > 3 ==> events.skip(1).skip(1).skip(1)[0] == events[3],
        events.len() > 4 ==> events.skip(1).skip(1).skip(1).skip(1)[0] == events[4],
{
}

/// A saga that has ended accepts no event: it asks for no further call.
pub proof fn lemma_finished_is_final(saga: SagaView, events: Seq<SagaEventView>)
    requires
        saga.stage is Finished,
    ensures
        saga_actions(saga, events) == Seq::<SagaActionView>::empty(),
{
}

/// The phone that `event` reports as found, reduced to its digits.
pub open spec fn found_phone(event: SagaEventView) -> Option<Seq<char>> {
    match event {
        SagaEventView::Phone(PhoneLookupView::Found { phone }) => Some(digits_of(phone)),
        _ => None,
    }
}

/// The devices that `event` makes known.
pub open spec fn known_devices(event: SagaEventView) -> Option<Seq<Seq<char>>> {
    match event {
        SagaEventView::Devices(reply) => match listed_devices(reply) {
            Ok(jids) => Some(jids),
            Err(_) => None,
        },
        _ => None,
    }
}

/// `event` reports that the remote deletion failed.
pub open spec fn remote_delete_failed(event: SagaEventView) -> bool {
    match event {
        SagaEventView::RemoteDelete(reply) => deletion_result(reply) is Err,
        _ => false,
    }
}

/// `event` reports that the remote deletion succeeded.
pub open spec fn remote_delete_done(event: SagaEventView) -> bool {
    match event {
        SagaEventView::RemoteDelete(reply) => deletion_result(reply) is Ok,
        _ => false,
    }
}

/// Remote before local. Where the deletion of the matching device fails, whether the service
/// could not be reached or refused, the saga ends there with `UpstreamDeleteFailed`: in the
/// whole run the store is never asked to delete the user.
pub proof fn lemma_failed_remote_delete_keeps_user(
    saga: SagaView,
    events: Seq<SagaEventView>,
    k: int,
)
    requires
        saga.stage is AwaitPhone,
        0 <= k < saga_actions(saga, events).len(),
        remote_delete_failed(events[k]),
    ensures
        saga_actions(saga, events).len() == k + 1,
        saga_actions(saga, events)[k] is Finish,
        saga_actions(saga, events)[k]->outcome is UpstreamDeleteFailed,
        forall|j: int|
            0 <= j < saga_actions(saga, events).len() ==> !(#[trigger] saga_actions(
                saga,
                events,
            )[j] is DeleteUser),
{
    reveal_with_fuel(saga_actions, 5);
    lemma_run_heads(events);
}

/// Where the service lists no device that matches the user's phone, the user is deleted at
/// once, and in the whole run the service is never asked to delete a device.
pub proof fn lemma_unmatched_skips_remote_delete(saga: SagaView, events: Seq<SagaEventView>)
    requires
        saga.stage is AwaitPhone,
        saga_actions(saga, events).len() >= 2,
        found_phone(events[0]) is Some,
        known_devices(events[1]) is Some,
        no_match(found_phone(events[0])->0, known_devices(events[1])->0),
    ensures
        saga_actions(saga, events)[1] == (SagaActionView::DeleteUser { user_id: saga.user_id }),
        forall|j: int|
            0 <= j < saga_actions(saga, events).len() ==> !(#[trigger] saga_actions(
                saga,
                events,
            )[j] is DeleteDevice),
{
    reveal_with_fuel(saga_actions, 5);
    lemma_run_heads(events);
    lemma_no_match_is(found_phone(events[0])->0, known_devices(events[1])->0);
}

/// The order of a whole run. A device is asked to be deleted only where it is the first, in
/// listed order, that matches the user's phone, at the user's own address and with the
/// caller's credential. The user is asked to be deleted only directly after a device list
/// without a match, or directly after the matching device was deleted with success.
pub proof fn lemma_saga_order(saga: SagaView, events: Seq<SagaEventView>, k: int)
    requires
        saga.stage is AwaitPhone,
        0 <= k < saga_actions(saga, events).len(),
    ensures
        saga_actions(saga, events).len() <= 4,
        saga_actions(saga, events)[k] is DeleteUser ==> {
            &&& found_phone(events[0]) is Some
            &&& known_devices(events[1]) is Some
            &&& if k == 1 {
                no_match(found_phone(events[0])->0, known_devices(events[1])->0)
            } else {
                &&& k == 2
                &&& saga_actions(saga, events)[1] is DeleteDevice
                &&& remote_delete_done(events[2])
            }
        },
        saga_actions(saga, events)[k] is DeleteDevice ==> {
            let action = saga_actions(saga, events)[k];
            &&& k == 1
            &&& found_phone(events[0]) is Some
            &&& known_devices(events[1]) is Some
            &&& first_match(found_phone(events[0])->0, known_devices(events[1])->0) is Some
            &&& action->jid == known_devices(events[1])->0[first_match(
                found_phone(events[0])->0,
                known_devices(events[1])->0,
            )->0]
            &&& action->DeleteDevice_request.url == device_url(saga.base_url, action->jid)
            &&& action->DeleteDevice_request.credential == saga.credential
        },
{
    reveal_with_fuel(saga_actions, 6);
    lemma_run_heads(events);
    if found_phone(events[0]) is Some && known_devices(events[1]) is Some {
        lemma_no_match_is(found_phone(events[0])->0, known_devices(events[1])->0);
    }
}

/// Two actions ask for the same kind of call.
pub open spec fn same_call(a: SagaActionView, b: SagaActionView) -> bool {
    ||| (a is LoadPhone && b is LoadPhone)
    ||| (a is ListDevices && b is ListDevices)
    ||| (a is DeleteDevice && b is DeleteDevice)
    ||| (a is DeleteUser && b is DeleteUser)
    ||| (a is Finish && b is Finish)
}

/// Every outside call is asked for once at most, and nothing is asked for after the end:
/// no two actions of a run are of the same kind, and only the last can be the end.
pub proof fn lemma_each_call_once(
    saga: SagaView,
    events: Seq<SagaEventView>,
    i: int,
    j: int,
)
    requires
        saga.stage is AwaitPhone,
        0 <= i < j < saga_actions(saga, events).len(),
    ensures
        !same_call(saga_actions(saga, events)[i], saga_actions(saga, events)[j]),
        !(saga_actions(saga, events)[i] is Finish),
        !(saga_actions(saga, events)[j] is LoadPhone),
{
    reveal_with_fuel(saga_actions, 6);
    lemma_run_heads(events);
}

/// Where a saga stands, with what it keeps for the steps to come.
#[derive(Debug, PartialEq, Eq)]
enum Stage {
    AwaitPhone,
    AwaitDevices { phone: NormalizedPhone },
    AwaitRemoteDelete,
    AwaitLocalDelete,
    Finished,
}

impl View for Stage {
    type V = StageView;

    closed spec fn view(&self) -> StageView {
        match self {
            Stage::AwaitPhone => StageView::AwaitPhone,
            Stage::AwaitDevices { phone } => StageView::AwaitDevices { phone: phone@ },
            Stage::AwaitRemoteDelete => StageView::AwaitRemoteDelete,
            Stage::AwaitLocalDelete => StageView::AwaitLocalDelete,
            Stage::Finished => StageView::Finished,
        }
    }
}

/// An event that does not answer the call that the saga waits for.
#[derive(Debug, PartialEq, Eq)]
pub struct UnexpectedEvent {}

/// The deletion of one user, in progress.
#[derive(Debug, PartialEq, Eq)]
pub struct DeletionSaga {
    user_id: i32,
    credential: Option<String>,
    registry: DeviceRegistryClient,
    stage: Stage,
}

impl View for DeletionSaga {
    type V = SagaView;

    closed spec fn view(&self) -> SagaView {
        SagaView {
            user_id: self.user_id,
            credential: self.credential.deep_view(),
            base_url: self.registry.base_url@,
            stage: self.stage@,
        }
    }
}

/// Builds the text `prefix` followed by `rest`.
fn prefixed(prefix: &str, rest: &String) -> (text: String)
    ensures
        text@ == prefix@ + rest@,
{
    let mut text = String::from_str(prefix);
    text.append(rest.as_str());
    text
}

/// Looks for the first device, in listed order, whose identifier matches `phone`.
pub fn find_matching_device(phone: &NormalizedPhone, devices: &Vec<Device>) -> (found: Option<
    usize,
>)
    ensures
        match found {
            Some(at) => is_first_match(phone@, devices.deep_view(), at as int),
            None => no_match(phone@, devices.deep_view()),
        },
        match found {
            Some(at) => first_match(phone@, devices.deep_view()) == Some(at as int),
            None => first_match(phone@, devices.deep_view()) is None,
        },
{
    let ghost jids = devices.deep_view();
    let mut at: usize = 0;
    while at < devices.len()
        invariant
            at <= devices.len(),
            jids == devices.deep_view(),
            forall|before: int| 0 <= before < at ==> !device_matches(phone@, #[trigger] jids[before]),
        decreases devices.len() - at,
    {
        let candidate = normalize(devices[at].jid.as_str());
        assert(jids[at as int] == devices[at as int].jid@);
        if candidate.matches(phone) {
            assert(is_first_match(phone@, jids, at as int));
            proof {
                lemma_first_match_is(phone@, jids, at as int);
            }
            return Some(at);
        }
        at = at + 1;
    }
    proof {
        lemma_no_match_is(phone@, jids);
    }
    None
}

/// The first match is the only position that the definition can choose.
pub proof fn lemma_first_match_is(phone: Seq<char>, jids: Seq<Seq<char>>, at: int)
    requires
        is_first_match(phone, jids, at),
    ensures
        first_match(phone, jids) == Some(at),
{
    let chosen = choose|at: int| is_first_match(phone, jids, at);
    assert(is_first_match(phone, jids, chosen));
    if chosen < at {
        assert(!device_matches(phone, jids[chosen]));
    } else if at < chosen {
        assert(!device_matches(phone, jids[at]));
    }
}

/// Where no device matches there is no first match, and the other way round.
pub proof fn lemma_no_match_is(phone: Seq<char>, jids: Seq<Seq<char>>)
    ensures
        no_match(phone, jids) <==> first_match(phone, jids) is None,
    decreases jids.len(),
{
    if no_match(phone, jids) {
        if exists|at: int| is_first_match(phone, jids, at) {
            let at = choose|at: int| is_first_match(phone, jids, at);
            assert(!device_matches(phone, jids[at]));
        }
    } else {
        let some = choose|at: int| 0 <= at < jids.len() && device_matches(phone, #[trigger] jids[at]);
        let least = lemma_least_match(phone, jids, some);
        assert(is_first_match(phone, jids, least));
    }
}

/// Below any match stands a first match.
proof fn lemma_least_match(phone: Seq<char>, jids: Seq<Seq<char>>, at: int) -> (least: int)
    requires
        0 <= at < jids.len(),
        device_matches(phone, jids[at]),
    ensures
        is_first_match(phone, jids, least),
        least <= at,
    decreases at,
{
    if exists|before: int| 0 <= before < at && device_matches(phone, #[trigger] jids[before]) {
        let before = choose|before: int|
            0 <= before < at && device_matches(phone, #[trigger] jids[before]);
        lemma_least_match(phone, jids, before)
    } else {
        at
    }
}

impl DeletionSaga {
    /// Starts the deletion of the user `user_id` on behalf of a caller who presented
    /// `credential`, against the remote service at `base_url`. The first call to make reads
    /// the user's phone.
    pub fn begin(user_id: i32, credential: Option<String>, base_url: String) -> (started: (
        DeletionSaga,
        SagaAction,
    ))
        ensures
            started.0@ == (SagaView {
                user_id,
                credential: credential.deep_view(),
                base_url: base_url@,
                stage: StageView::AwaitPhone,
            }),
            started.1@ == (SagaActionView::LoadPhone { user_id }),
    {
        let saga = DeletionSaga {
            user_id,
            credential,
            registry: DeviceRegistryClient::new(base_url),
            stage: Stage::AwaitPhone,
        };
        (saga, SagaAction::LoadPhone { user_id })
    }

    /// Whether the saga has ended.
    pub fn is_finished(&self) -> (done: bool)
        ensures
            done == (self@.stage is Finished),
    {
        match self.stage {
            Stage::Finished => true,
            _ => false,
        }
    }

    /// Takes the result of the call that was asked for last and answers with the next one.
    /// An event that does not answer that call changes nothing and is refused.
    pub fn step(&mut self, event: SagaEvent) -> (next: Result<SagaAction, UnexpectedEvent>)
        ensures
            match saga_step(old(self)@, event@) {
                Some((saga, action)) => next is Ok && next->Ok_0@ == action && final(self)@
                    == saga,
                None => next is Err && final(self)@ == old(self)@,
            },
    {
        let mut stage = Stage::Finished;
        core::mem::swap(&mut self.stage, &mut stage);
        match stage {
            Stage::AwaitPhone => match event {
                SagaEvent::Phone(lookup) => match lookup {
                    PhoneLookup::Found { phone } => {
                        let digits = normalize(phone.as_str());
                        self.stage = Stage::AwaitDevices { phone: digits };
                        Ok(
                            SagaAction::ListDevices {
                                request: self.registry.list_request(&self.credential),
                            },
                        )
                    },
                    PhoneLookup::Missing => {
                        Ok(SagaAction::Finish { outcome: Outcome::NotFound })
                    },
                    PhoneLookup::Failed { error } => {
                        Ok(SagaAction::Finish { outcome: Outcome::StoreError { message: error } })
                    },
                },
                _ => {
                    self.stage = Stage::AwaitPhone;
                    Err(UnexpectedEvent {  })
                },
            },
            Stage::AwaitDevices { phone } => match event {
                SagaEvent::Devices(reply) => match DeviceRegistryClient::list_devices(reply) {
                    Err(error) => {
                        Ok(
                            SagaAction::Finish {
                                outcome: Outcome::UpstreamUnavailable {
                                    message: list_failure_text(&error),
                                },
                            },
                        )
                    },
                    Ok(devices) => match find_matching_device(&phone, &devices) {
                        Some(at) => {
                            let jid = devices[at].jid.clone();
                            let request = self.registry.delete_request(
                                jid.as_str(),
                                &self.credential,
                            );
                            self.stage = Stage::AwaitRemoteDelete;
                            Ok(SagaAction::DeleteDevice { jid, request })
                        },
                        None => {
                            self.stage = Stage::AwaitLocalDelete;
                            Ok(SagaAction::DeleteUser { user_id: self.user_id })
                        },
                    },
                },
                _ => {
                    self.stage = Stage::AwaitDevices { phone };
                    Err(UnexpectedEvent {  })
                },
            },
            Stage::AwaitRemoteDelete => match event {
                SagaEvent::RemoteDelete(reply) => match DeviceRegistryClient::delete_device(reply) {
                    Ok(_) => {
                        self.stage = Stage::AwaitLocalDelete;
                        Ok(SagaAction::DeleteUser { user_id: self.user_id })
                    },
                    Err(error) => {
                        Ok(
                            SagaAction::Finish {
                                outcome: Outcome::UpstreamDeleteFailed {
                                    message: delete_failure_text(&error),
                                },
                            },
                        )
                    },
                },
                _ => {
                    self.stage = Stage::AwaitRemoteDelete;
                    Err(UnexpectedEvent {  })
                },
            },
            Stage::AwaitLocalDelete => match event {
                SagaEvent::LocalDelete(deletion) => match deletion {
                    LocalDeletion::Done { rows } => {
                        if rows > 0 {
                            Ok(SagaAction::Finish { outcome: Outcome::Deleted })
                        } else {
                            Ok(SagaAction::Finish { outcome: Outcome::NotFound })
                        }
                    },
                    LocalDeletion::Failed { error } => {
                        Ok(SagaAction::Finish { outcome: Outcome::StoreError { message: error } })
                    },
                },
                _ => {
                    self.stage = Stage::AwaitLocalDelete;
                    Err(UnexpectedEvent {  })
                },
            },
            Stage::Finished => Err(UnexpectedEvent {  }),
        }
    }
}

/// The text that reports a failure to fetch the device list.
fn list_failure_text(error: &RegistryError) -> (text: String)
    ensures
        text@ == list_failure_message(error@),
{
    match error {
        RegistryError::Unavailable { error } => prefixed("whatsapp_bot /devices error: ", error),
        RegistryError::Rejected { status_text, .. } => prefixed(
            "whatsapp_bot /devices error: ",
            status_text,
        ),
    }
}

/// The text that reports a failure to delete the matching device.
fn delete_failure_text(error: &RegistryError) -> (text: String)
    ensures
        text@ == delete_failure_message(error@),
{
    match error {
        RegistryError::Unavailable { error } => prefixed("whatsapp_bot /delete error: ", error),
        RegistryError::Rejected { status_text, .. } => prefixed(
            "whatsapp_bot /delete status ",
            status_text,
        ),
    }
}

} // verus!
