use multicast_relay::aesgcm::AesGcmEncryptor;
use multicast_relay::models::Domains;
use multicast_relay::server_thread::{
    prepare_send, route_client_message, send_request_domain, ClientAction, SendPlan,
};

const ALPHA_KEY: &str = "AAAAAAAAAAAAAAAAAAAAAAAAAAAAAAAAAAAAAAAAAAA=";
const BETA_KEY: &str = "AAECAwQFBgcICQoLDA0ODxAREhMUFRYXGBkaGxwdHh8=";

fn domain_list() -> Vec<Domains> {
    vec![
        Domains::new("alpha.org".to_string(), ALPHA_KEY.to_string()),
        Domains::new("beta.net".to_string(), BETA_KEY.to_string()),
        Domains::new("broken.io".to_string(), "not base64".to_string()),
    ]
}

const REQUEST: &str = "SEND 42@relay.local alice@alpha.org bobby@beta.net Hello there";

#[test]
fn send_request_domain_finds_target() {
    assert_eq!(send_request_domain(REQUEST), Some("beta.net".to_string()));
    assert_eq!(
        send_request_domain("  SEND 1@relay.local alice@alpha.org #group1@beta.net hi  \n"),
        Some("beta.net".to_string())
    );
}

#[test]
fn send_request_domain_refuses_other_messages() {
    assert_eq!(send_request_domain("hello"), None);
    assert_eq!(send_request_domain("SEND 42@relay.local alice@alpha.org bobby@beta.net"), None);
    assert_eq!(send_request_domain("SEND 123456@relay.local alice@alpha.org bobby@beta.net x"), None);
    assert_eq!(send_request_domain("SEND 42@relay.local al@alpha.org bobby@beta.net x"), None);
}

#[test]
fn prepare_send_encrypts_for_target() {
    let plan = prepare_send(&domain_list(), &REQUEST.to_string(), &"beta.net".to_string());
    match plan {
        SendPlan::Deliver { frame } => {
            assert!(frame.ends_with('\n'));
            let beta = AesGcmEncryptor::new(BETA_KEY.to_string());
            assert_eq!(beta.try_decrypt_string(&frame), Some(REQUEST.to_string()));
            let alpha = AesGcmEncryptor::new(ALPHA_KEY.to_string());
            assert_eq!(alpha.try_decrypt_string(&frame), None);
        },
        _ => panic!("expected a frame"),
    }
}

#[test]
fn prepare_send_without_route() {
    let plan = prepare_send(&domain_list(), &REQUEST.to_string(), &"gamma.io".to_string());
    assert!(matches!(plan, SendPlan::NoRoute));
}

#[test]
fn prepare_send_with_bad_key() {
    let plan = prepare_send(&domain_list(), &REQUEST.to_string(), &"broken.io".to_string());
    assert!(matches!(plan, SendPlan::BadKey));
}

#[test]
fn route_client_message_forwards_requests() {
    let alpha = AesGcmEncryptor::new(ALPHA_KEY.to_string());
    let received = alpha.encrypt_string(REQUEST.to_string()).unwrap();
    match route_client_message(&alpha, &received) {
        ClientAction::Forward { message, domain } => {
            assert_eq!(message, REQUEST);
            assert_eq!(domain, "beta.net");
        },
        _ => panic!("expected a forward"),
    }
}

#[test]
fn route_client_message_other_text() {
    let alpha = AesGcmEncryptor::new(ALPHA_KEY.to_string());
    let received = alpha.encrypt_string("just chatting".to_string()).unwrap();
    match route_client_message(&alpha, &received) {
        ClientAction::NoSendMatch { message } => assert_eq!(message, "just chatting"),
        _ => panic!("expected no match"),
    }
}

#[test]
fn route_client_message_undecryptable() {
    let alpha = AesGcmEncryptor::new(ALPHA_KEY.to_string());
    let beta = AesGcmEncryptor::new(BETA_KEY.to_string());
    let received = beta.encrypt_string(REQUEST.to_string()).unwrap();
    assert!(matches!(route_client_message(&alpha, &received), ClientAction::Undecryptable));
    assert!(matches!(route_client_message(&alpha, "garbage"), ClientAction::Undecryptable));
}
