//! The device registry client: which requests go to the remote session service, and how
//! its replies are read. Sending and receiving is left to the caller; everything here works
//! on plain values.

use crate::text::starts_with;
use vstd::prelude::*;
use vstd::string::*;

verus! {

/// Whether an HTTP status code reports success: the codes from 200 to 299.
pub open spec fn is_success(status: u16) -> bool {
    200 <= status < 300
}

/// Tells whether `status` is a success code.
pub fn status_is_success(status: u16) -> (ok: bool)
    ensures
        ok == is_success(status),
{
    200 <= status && status < 300
}

/// A device of the remote session service.
#[derive(Debug, PartialEq, Eq)]
pub struct Device {
    pub jid: String,
}

impl DeepView for Device {
    type V = Seq<char>;

    open spec fn deep_view(&self) -> Seq<char> {
        self.jid@
    }
}

/// A request to the remote session service: the address to call and the caller's credential,
/// which is passed on as it came.
#[derive(Debug, PartialEq, Eq)]
pub struct RegistryRequest {
    pub url: String,
    pub credential: Option<String>,
}

pub struct RegistryRequestView {
    pub url: Seq<char>,
    pub credential: Option<Seq<char>>,
}

impl View for RegistryRequest {
    type V = RegistryRequestView;

    open spec fn view(&self) -> RegistryRequestView {
        RegistryRequestView { url: self.url@, credential: self.credential.deep_view() }
    }
}

/// What came back from asking the service for its devices.
#[derive(Debug, PartialEq, Eq)]
pub enum ListReply {
    /// The service could not be reached.
    Unreachable { error: String },
    /// The service answered with `status`. `devices` is what the body held, or `None` where
    /// the body was not read or did not have the expected shape.
    Answered { status: u16, devices: Option<Vec<Device>> },
}

pub enum ListReplyView {
    Unreachable { error: Seq<char> },
    Answered { status: u16, devices: Option<Seq<Seq<char>>> },
}

impl View for ListReply {
    type V = ListReplyView;

    open spec fn view(&self) -> ListReplyView {
        match self {
            ListReply::Unreachable { error } => ListReplyView::Unreachable { error: error@ },
            ListReply::Answered { status, devices } => ListReplyView::Answered {
                status: *status,
                devices: devices.deep_view(),
            },
        }
    }
}

/// What came back from asking the service to delete one device.
#[derive(Debug, PartialEq, Eq)]
pub enum DeleteReply {
    /// The service could not be reached.
    Unreachable { error: String },
    /// The service answered with `status`, which reads `status_text` when written out.
    Answered { status: u16, status_text: String },
}

pub enum DeleteReplyView {
    Unreachable { error: Seq<char> },
    Answered { status: u16, status_text: Seq<char> },
}

impl View for DeleteReply {
    type V = DeleteReplyView;

    open spec fn view(&self) -> DeleteReplyView {
        match self {
            DeleteReply::Unreachable { error } => DeleteReplyView::Unreachable { error: error@ },
            DeleteReply::Answered { status, status_text } => DeleteReplyView::Answered {
                status: *status,
                status_text: status_text@,
            },
        }
    }
}

/// Why a call to the service failed.
#[derive(Debug, PartialEq, Eq)]
pub enum RegistryError {
    /// The service could not be reached.
    Unavailable { error: String },
    /// The service was reached and refused, answering with `status`.
    Rejected { status: u16, status_text: String },
}

pub enum RegistryErrorView {
    Unavailable { error: Seq<char> },
    Rejected { status: u16, status_text: Seq<char> },
}

impl View for RegistryError {
    type V = RegistryErrorView;

    open spec fn view(&self) -> RegistryErrorView {
        match self {
            RegistryError::Unavailable { error } => RegistryErrorView::Unavailable {
                error: error@,
            },
            RegistryError::Rejected { status, status_text } => RegistryErrorView::Rejected {
                status: *status,
                status_text: status_text@,
            },
        }
    }
}

/// What the service, or the attempt to reach it, said of a failure.
pub open spec fn error_text(error: RegistryErrorView) -> Seq<char> {
    match error {
        RegistryErrorView::Unavailable { error } => error,
        RegistryErrorView::Rejected { status, status_text } => status_text,
    }
}

/// The devices that a reply to the list request makes known. Only a failure to reach the
/// service is an error. An answer that is not a success, or whose body did not have the
/// expected shape, makes no device known.
pub open spec fn listed_devices(reply: ListReplyView) -> Result<Seq<Seq<char>>, RegistryErrorView> {
    match reply {
        ListReplyView::Unreachable { error } => Err(RegistryErrorView::Unavailable { error }),
        ListReplyView::Answered { status, devices } => if is_success(status) && devices is Some {
            Ok(devices->0)
        } else {
            Ok(Seq::empty())
        },
    }
}

/// What a reply to the delete request means: success only where the service answered with a
/// success status.
pub open spec fn deletion_result(reply: DeleteReplyView) -> Result<(), RegistryErrorView> {
    match reply {
        DeleteReplyView::Unreachable { error } => Err(RegistryErrorView::Unavailable { error }),
        DeleteReplyView::Answered { status, status_text } => if is_success(status) {
            Ok(())
        } else {
            Err(RegistryErrorView::Rejected { status, status_text })
        },
    }
}

/// Listing fails only where the service could not be reached; deleting fails wherever the
/// service could not be reached or answered without success.
pub proof fn lemma_reply_failures(list: ListReplyView, delete: DeleteReplyView)
    ensures
        listed_devices(list) is Err <==> list is Unreachable,
        listed_devices(list) matches Err(error) ==> error is Unavailable,
        deletion_result(delete) is Ok <==> (delete is Answered && is_success(delete->status)),
{
}

/// The address of the device list below `base_url`.
pub open spec fn devices_url(base_url: Seq<char>) -> Seq<char> {
    base_url + "/devices"@
}

/// The address of the device `jid` below `base_url`.
pub open spec fn device_url(base_url: Seq<char>, jid: Seq<char>) -> Seq<char> {
    base_url + "/devices/"@ + jid
}

/// The address below `base_url` to which a request for a login code is passed on.
pub open spec fn login_qr_url(base_url: Seq<char>) -> Seq<char> {
    base_url + "/loginqr"@
}

/// Whether an answer of the content type `content_type` is passed on as JSON: where the
/// type begins with `application/json`. Any other answer is passed on as bytes.
pub open spec fn is_json_type(content_type: Seq<char>) -> bool {
    "application/json"@.is_prefix_of(content_type)
}

/// Tells whether an answer of the content type `content_type` is passed on as JSON.
pub fn relays_json(content_type: &str) -> (json: bool)
    ensures
        json == is_json_type(content_type@),
{
    starts_with(content_type, "application/json")
}

/// A copy of a credential.
pub fn copy_credential(credential: &Option<String>) -> (copy: Option<String>)
    ensures
        copy.deep_view() == credential.deep_view(),
{
    match credential {
        Some(secret) => Some(secret.clone()),
        None => None,
    }
}

/// The client of the remote session service, bound to the service's base address.
#[derive(Debug, PartialEq, Eq)]
pub struct DeviceRegistryClient {
    pub base_url: String,
}

impl DeviceRegistryClient {
    /// A client for the service at `base_url`.
    pub fn new(base_url: String) -> (client: DeviceRegistryClient)
        ensures
            client.base_url@ == base_url@,
    {
        DeviceRegistryClient { base_url }
    }

    /// The request that lists the devices.
    pub fn list_request(&self, credential: &Option<String>) -> (request: RegistryRequest)
        ensures
            request@.url == devices_url(self.base_url@),
            request@.credential == credential.deep_view(),
    {
        let mut url = self.base_url.clone();
        url.append("/devices");
        RegistryRequest { url, credential: copy_credential(credential) }
    }

    /// The request that passes a request for a login code on.
    pub fn login_qr_request(&self, credential: &Option<String>) -> (request: RegistryRequest)
        ensures
            request@.url == login_qr_url(self.base_url@),
            request@.credential == credential.deep_view(),
    {
        let mut url = self.base_url.clone();
        url.append("/loginqr");
        RegistryRequest { url, credential: copy_credential(credential) }
    }

    /// The request that deletes the device `jid`.
    pub fn delete_request(&self, jid: &str, credential: &Option<String>) -> (request:
        RegistryRequest)
        ensures
            request@.url == device_url(self.base_url@, jid@),
            request@.credential == credential.deep_view(),
    {
        let mut url = self.base_url.clone();
        url.append("/devices/");
        url.append(jid);
        RegistryRequest { url, credential: copy_credential(credential) }
    }

    /// Reads the reply to a list request.
    pub fn list_devices(reply: ListReply) -> (outcome: Result<Vec<Device>, RegistryError>)
        ensures
            match listed_devices(reply@) {
                Ok(jids) => outcome is Ok && outcome->Ok_0.deep_view() == jids,
                Err(error) => outcome is Err && outcome->Err_0@ == error,
            },
    {
        match reply {
            ListReply::Unreachable { error } => Err(RegistryError::Unavailable { error }),
            ListReply::Answered { status, devices } => {
                if status_is_success(status) {
                    match devices {
                        Some(found) => Ok(found),
                        None => {
                            let none: Vec<Device> = Vec::new();
                            assert(none.deep_view() =~= Seq::<Seq<char>>::empty());
                            Ok(none)
                        },
                    }
                } else {
                    let none: Vec<Device> = Vec::new();
                    assert(none.deep_view() =~= Seq::<Seq<char>>::empty());
                    Ok(none)
                }
            },
        }
    }

    /// Reads the reply to a delete request.
    pub fn delete_device(reply: DeleteReply) -> (outcome: Result<(), RegistryError>)
        ensures
            match deletion_result(reply@) {
                Ok(_) => outcome is Ok,
                Err(error) => outcome is Err && outcome->Err_0@ == error,
            },
    {
        match reply {
            DeleteReply::Unreachable { error } => Err(RegistryError::Unavailable { error }),
            DeleteReply::Answered { status, status_text } => {
                if status_is_success(status) {
                    Ok(())
                } else {
                    Err(RegistryError::Rejected { status, status_text })
                }
            },
        }
    }
}

} // verus!
