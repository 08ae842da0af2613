use admin_server::registry::{
    status_is_success, DeleteReply, Device, DeviceRegistryClient, ListReply, RegistryError,
    relays_json,
};

fn device(jid: &str) -> Device {
    Device { jid: jid.to_string() }
}

#[test]
fn success_is_two_hundred_to_two_ninety_nine() {
    assert!(!status_is_success(199));
    assert!(status_is_success(200));
    assert!(status_is_success(204));
    assert!(status_is_success(299));
    assert!(!status_is_success(300));
    assert!(!status_is_success(404));
    assert!(!status_is_success(500));
    assert!(!status_is_success(0));
}

#[test]
fn requests_carry_address_and_credential() {
    let client = DeviceRegistryClient::new("http://whatsapp_bot:8000".to_string());
    let secret = Some("s3cret".to_string());
    let list = client.list_request(&secret);
    assert_eq!(list.url, "http://whatsapp_bot:8000/devices");
    assert_eq!(list.credential, secret);
    let delete = client.delete_request("5550100@s", &secret);
    assert_eq!(delete.url, "http://whatsapp_bot:8000/devices/5550100@s");
    assert_eq!(delete.credential, secret);
    let none = client.list_request(&None);
    assert_eq!(none.credential, None);
    let qr = client.login_qr_request(&secret);
    assert_eq!(qr.url, "http://whatsapp_bot:8000/loginqr");
    assert_eq!(qr.credential, secret);
}

#[test]
fn list_transport_failure_is_an_error() {
    let reply = ListReply::Unreachable { error: "connection refused".to_string() };
    assert_eq!(
        DeviceRegistryClient::list_devices(reply),
        Err(RegistryError::Unavailable { error: "connection refused".to_string() })
    );
}

#[test]
fn list_success_gives_the_devices_in_order() {
    let reply = ListReply::Answered { status: 200, devices: Some(vec![device("b"), device("a")]) };
    assert_eq!(DeviceRegistryClient::list_devices(reply), Ok(vec![device("b"), device("a")]));
}

#[test]
fn list_non_success_counts_as_no_devices() {
    let reply = ListReply::Answered { status: 500, devices: Some(vec![device("a")]) };
    assert_eq!(DeviceRegistryClient::list_devices(reply), Ok(vec![]));
    let reply = ListReply::Answered { status: 404, devices: None };
    assert_eq!(DeviceRegistryClient::list_devices(reply), Ok(vec![]));
}

#[test]
fn list_unparsed_body_counts_as_no_devices() {
    let reply = ListReply::Answered { status: 200, devices: None };
    assert_eq!(DeviceRegistryClient::list_devices(reply), Ok(vec![]));
}

#[test]
fn delete_success_is_ok() {
    let reply = DeleteReply::Answered { status: 204, status_text: "204 No Content".to_string() };
    assert_eq!(DeviceRegistryClient::delete_device(reply), Ok(()));
}

#[test]
fn delete_non_success_is_rejected_with_the_status() {
    let reply = DeleteReply::Answered { status: 404, status_text: "404 Not Found".to_string() };
    assert_eq!(
        DeviceRegistryClient::delete_device(reply),
        Err(RegistryError::Rejected { status: 404, status_text: "404 Not Found".to_string() })
    );
}

#[test]
fn delete_transport_failure_is_unavailable() {
    let reply = DeleteReply::Unreachable { error: "timed out".to_string() };
    assert_eq!(
        DeviceRegistryClient::delete_device(reply),
        Err(RegistryError::Unavailable { error: "timed out".to_string() })
    );
}

#[test]
fn json_answers_are_told_by_their_type() {
    assert!(relays_json("application/json"));
    assert!(relays_json("application/json; charset=utf-8"));
    assert!(!relays_json("text/plain"));
    assert!(!relays_json(""));
    assert!(!relays_json("Application/JSON"));
}
