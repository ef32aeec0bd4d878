use tedge_tb::connect::{
    access_token_decision, assigned_access_token, device_status_result, provision_cert_hash, provision_reply_decision, provision_request,
    provision_step,
    provisioning_credentials, provisioning_result, status_check_client_id, status_check_step,
    DeviceStatus, ErrorChain, ProvisionEvent, ProvisionRequest, ProvisionStep, StatusCheckEvent,
    StatusCheckStep,
};

const HEALTH: &str = "te/device/main/service/mosquitto-tb-bridge/status/health";

fn messages(e: &ErrorChain) -> Vec<&str> {
    e.messages.iter().map(|m| m.as_str()).collect()
}

#[test]
fn status_check_succeeds_on_health_up() {
    let step = status_check_step(
        StatusCheckEvent::Publish {
            topic: HEALTH.into(),
            payload: br#"{"status":"up"}"#.to_vec(),
        },
        HEALTH,
    );
    assert!(matches!(step, StatusCheckStep::BridgeUp));
    assert_eq!(status_check_client_id(), "check_connection_tb");
}

#[test]
fn status_check_waits_on_other_messages() {
    let down = status_check_step(
        StatusCheckEvent::Publish {
            topic: HEALTH.into(),
            payload: br#"{"status":"down"}"#.to_vec(),
        },
        HEALTH,
    );
    assert!(matches!(down, StatusCheckStep::Continue));
    let elsewhere = status_check_step(
        StatusCheckEvent::Publish {
            topic: "te/other".into(),
            payload: b"up".to_vec(),
        },
        HEALTH,
    );
    assert!(matches!(elsewhere, StatusCheckStep::Continue));
    assert!(matches!(
        status_check_step(StatusCheckEvent::Other, HEALTH),
        StatusCheckStep::Continue
    ));
}

#[test]
fn status_check_failures() {
    match status_check_step(StatusCheckEvent::PingRequest, HEALTH) {
        StatusCheckStep::Failed(e) => {
            assert_eq!(messages(&e), vec!["Didn't receive a response from ThingsBoard"])
        }
        _ => panic!("expected a failure"),
    }
    match status_check_step(StatusCheckEvent::Disconnected, HEALTH) {
        StatusCheckStep::Failed(e) => assert_eq!(
            messages(&e),
            vec!["Client was disconnected from mosquitto during connection check"]
        ),
        _ => panic!("expected a failure"),
    }
    match status_check_step(StatusCheckEvent::ConnectionError("refused".into()), HEALTH) {
        StatusCheckStep::Failed(e) => {
            assert_eq!(
                messages(&e),
                vec!["Failed to connect to mosquitto for connection check", "refused"]
            );
            let result = device_status_result(Some(e)).err().unwrap();
            assert_eq!(
                messages(&result),
                vec![
                    "Failed to verify device is connected to ThingsBoard",
                    "Failed to connect to mosquitto for connection check",
                    "refused"
                ]
            );
        }
        _ => panic!("expected a failure"),
    }
    assert_eq!(device_status_result(None).ok(), Some(DeviceStatus::Connected));
}

const PEM: &str = "-----BEGIN CERTIFICATE-----\nMIIB\nABCD\n-----END CERTIFICATE-----\n";

#[test]
fn cert_hash_strips_pem_framing() {
    assert_eq!(provision_cert_hash(PEM), "MIIBABCD");
    assert_eq!(provision_cert_hash("AB\nCD"), "ABCD");
    assert_eq!(
        provision_cert_hash("-----BEGIN CERTIFICATE-----\nXY\n-----END CERTIFICATE-----"),
        "XY-----END CERTIFICATE-----"
    );
}

#[test]
fn provisioning_is_skipped_without_key() {
    assert!(matches!(provisioning_credentials(None, Some("s".into())), Ok(None)));
    let err = provisioning_credentials(Some("k".into()), None).err().unwrap();
    assert_eq!(
        messages(&err),
        vec!["tb.device.provision_secret is not set. Run: tedge config set tb.device.provision_secret <secret>"]
    );
    let (k, s) = provisioning_credentials(Some("k".into()), Some("s".into()))
        .ok()
        .unwrap()
        .unwrap();
    assert_eq!((k.as_str(), s.as_str()), ("k", "s"));
}

fn request() -> ProvisionRequest {
    provision_request(
        "key".into(),
        "secret".into(),
        "dev1".into(),
        PEM,
        Some("tb.example.com".into()),
    )
    .ok()
    .unwrap()
}

#[test]
fn provision_request_content() {
    let r = request();
    assert_eq!(r.host, "tb.example.com");
    assert_eq!(r.port, 8883);
    assert_eq!(r.client_id, "tedge_tb_provision");
    assert_eq!(r.username, "provision");
    assert_eq!(r.password, "");
    assert_eq!(r.request_topic, "v1/devices/provision");
    assert_eq!(r.response_topic, "/provision/response");
    assert_eq!(r.cert_hash, "MIIBABCD");
    let payload: serde_json::Value = serde_json::from_slice(&r.payload).unwrap();
    assert_eq!(payload["provisionDeviceKey"], "key");
    assert_eq!(payload["provisionDeviceSecret"], "secret");
    assert_eq!(payload["credentialsType"], "X509_CERTIFICATE");
    assert_eq!(payload["deviceName"], "dev1");
    assert_eq!(payload["hash"], "MIIBABCD");
}

#[test]
fn provision_request_needs_url() {
    let err = provision_request("k".into(), "s".into(), "d".into(), PEM, None)
        .err()
        .unwrap();
    assert_eq!(
        messages(&err),
        vec!["tb.url is not configured. Run: tedge config set tb.url <host>"]
    );
}

fn reply(payload: &str) -> ProvisionStep {
    provision_step(
        &request(),
        ProvisionEvent::Publish {
            topic: "/provision/response".into(),
            payload: payload.as_bytes().to_vec(),
        },
    )
}

fn failure(step: ProvisionStep) -> Vec<String> {
    match step {
        ProvisionStep::Failed(e) => e.messages,
        _ => panic!("expected a failure"),
    }
}

#[test]
fn provisioning_succeeds_on_matching_certificate() {
    assert!(matches!(
        provision_step(&request(), ProvisionEvent::SubAck),
        ProvisionStep::SendRequest
    ));
    assert!(matches!(
        reply(r#"{"status":"SUCCESS","credentialsValue":"MIIBABCD"}"#),
        ProvisionStep::Provisioned
    ));
    assert!(provisioning_result(true, None).is_ok());
}

#[test]
fn provisioning_reply_failures() {
    assert_eq!(
        failure(reply(r#"{"status":"SUCCESS","credentialsValue":"OTHER"}"#)),
        vec!["ThingsBoard returned a certificate that does not match the device certificate"]
    );
    assert_eq!(
        failure(reply(r#"{"status":"FAILURE","errorMsg":"bad key"}"#)),
        vec!["ThingsBoard provisioning failed (status: 'FAILURE'): bad key"]
    );
    assert_eq!(
        failure(reply(r#"{}"#)),
        vec!["ThingsBoard provisioning failed (status: 'UNKNOWN'): no error message returned"]
    );
    let unparsable = failure(reply("not json"));
    assert_eq!(unparsable.len(), 1);
    assert!(unparsable[0].starts_with("Failed to parse ThingsBoard provisioning response: "));
}

#[test]
fn provisioning_session_failures() {
    assert!(matches!(
        provision_step(
            &request(),
            ProvisionEvent::Publish {
                topic: "/other".into(),
                payload: b"{}".to_vec()
            }
        ),
        ProvisionStep::Continue
    ));
    assert_eq!(
        failure(provision_step(&request(), ProvisionEvent::PingRequest)),
        vec!["Timed out waiting for provisioning response from ThingsBoard"]
    );
    assert_eq!(
        failure(provision_step(&request(), ProvisionEvent::Disconnected)),
        vec!["Disconnected from ThingsBoard during provisioning"]
    );
    let chain = match provision_step(&request(), ProvisionEvent::ConnectionError("io".into())) {
        ProvisionStep::Failed(e) => e,
        _ => panic!("expected a failure"),
    };
    assert_eq!(
        messages(&chain),
        vec!["MQTT connection error during ThingsBoard provisioning", "io"]
    );
    let result = provisioning_result(false, Some(chain)).err().unwrap();
    assert_eq!(
        messages(&result),
        vec![
            "ThingsBoard device provisioning failed",
            "MQTT connection error during ThingsBoard provisioning",
            "io"
        ]
    );
    let none = provisioning_result(false, None).err().unwrap();
    assert_eq!(
        messages(&none),
        vec!["Provisioning ended without a response from ThingsBoard"]
    );
}

#[test]
fn reply_decision_on_given_answers() {
    let ok = |s: &str| -> Result<Option<String>, String> { Ok(Some(s.to_string())) };
    assert!(matches!(
        provision_reply_decision(ok("SUCCESS"), ok("H"), Ok(None), "H"),
        ProvisionStep::Provisioned
    ));
    assert!(matches!(
        provision_reply_decision(ok("SUCCESS"), Ok(None), Ok(None), ""),
        ProvisionStep::Provisioned
    ));
    assert_eq!(
        failure(provision_reply_decision(ok("SUCCESS"), Ok(None), Ok(None), "H")),
        vec!["ThingsBoard returned a certificate that does not match the device certificate"]
    );
    assert_eq!(
        failure(provision_reply_decision(ok("FAILURE"), Ok(None), ok("nope"), "H")),
        vec!["ThingsBoard provisioning failed (status: 'FAILURE'): nope"]
    );
    assert_eq!(
        failure(provision_reply_decision(Err("bad".into()), Ok(None), Ok(None), "H")),
        vec!["Failed to parse ThingsBoard provisioning response: bad"]
    );
}

#[test]
fn access_token_of_successful_answer() {
    assert_eq!(
        assigned_access_token(
            br#"{"status":"SUCCESS","credentialsType":"ACCESS_TOKEN","credentialsValue":"tok"}"#
        ),
        Some("tok".to_string())
    );
    assert_eq!(
        assigned_access_token(
            br#"{"status":"SUCCESS","credentialsType":"X509_CERTIFICATE","credentialsValue":"MIIB"}"#
        ),
        None
    );
    assert_eq!(
        assigned_access_token(
            br#"{"status":"FAILURE","credentialsType":"ACCESS_TOKEN","credentialsValue":"tok"}"#
        ),
        None
    );
    assert_eq!(assigned_access_token(b"not json"), None);
    let ok = |s: &str| -> Result<Option<String>, String> { Ok(Some(s.to_string())) };
    assert_eq!(
        access_token_decision(ok("SUCCESS"), ok("ACCESS_TOKEN"), ok("t")),
        Some("t".to_string())
    );
    assert_eq!(access_token_decision(ok("SUCCESS"), ok("ACCESS_TOKEN"), Ok(None)), None);
}
