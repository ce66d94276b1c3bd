use whatsapp_cloud::classify::ClassifiedOutcome;
use whatsapp_cloud::dispatch::{Action, Phase};
use whatsapp_cloud::rate_limiter::Admission;
use whatsapp_cloud::retry::{Backoff, RetryConfig};
use whatsapp_cloud::types::{MediaType, SendTextMessage};
use whatsapp_cloud::client::is_valid_token;
use whatsapp_cloud::{create_client, ClientConfig, WhatsAppClient};

#[test]
fn default_configuration() {
    let config = ClientConfig::default();
    assert_eq!(config.access_token, "");
    assert_eq!(config.phone_number_id, "");
    assert_eq!(config.business_account_id, None);
    assert_eq!(config.version, "v22.0");
    assert_eq!(config.max_requests_per_minute, 250);
    assert!(config.retry_after_too_many_requests);
    assert_eq!(config.max_retries, 3);
    assert_eq!(config.retry_delay_ms, 1000);
}

#[test]
fn retry_settings_follow_the_configuration() {
    let mut config = ClientConfig::default();
    config.max_retries = 7;
    config.retry_delay_ms = 250;
    config.retry_after_too_many_requests = false;
    assert_eq!(
        config.retry_config(),
        RetryConfig {
            max_retries: 7,
            base_delay_ms: 250,
            retry_on_throttle: false,
            backoff: Backoff::Exponential,
            max_delay_ms: u64::MAX,
        }
    );
}

#[test]
fn create_client_with_defaults() {
    let mut client = create_client("TOKEN", "1234567890", None);
    assert_eq!(client.config().access_token, "TOKEN");
    assert_eq!(client.config().phone_number_id, "1234567890");
    assert_eq!(client.config().version, "v22.0");
    assert_eq!(client.config().max_requests_per_minute, 250);
    assert_eq!(client.authorization(), "Bearer TOKEN");
    assert_eq!(client.base_url(), "https://graph.facebook.com/v22.0");
    assert_eq!(client.rate_limiter().capacity(), 250);
    assert_eq!(client.rate_limiter().in_flight(), 0);
    assert!(client.classifier().is_transient(503));
}

#[test]
fn create_client_with_a_version() {
    let client = create_client("T", "42", Some("v19.0"));
    assert_eq!(client.config().version, "v19.0");
    assert_eq!(client.base_url(), "https://graph.facebook.com/v19.0");
}

#[test]
fn paths_hold_the_phone_number() {
    let client = create_client("T", "42", None);
    assert_eq!(client.get_phone_number_url(), "/42");
    assert_eq!(client.get_messages_url(), "/42/messages");
    assert_eq!(client.get_media_url(), "/42/media");
}

#[test]
fn new_token_keeps_the_window() {
    let mut config = ClientConfig::default();
    config.access_token = "old".to_string();
    config.phone_number_id = "42".to_string();
    config.max_requests_per_minute = 2;
    let mut client = WhatsAppClient::new(config);
    assert_eq!(client.rate_limiter().try_acquire(0), Admission::Granted);
    assert_eq!(client.rate_limiter().try_acquire(0), Admission::Granted);
    client.update_access_token("new".to_string());
    assert_eq!(client.config().access_token, "new");
    assert_eq!(client.config().phone_number_id, "42");
    assert_eq!(client.authorization(), "Bearer new");
    assert_eq!(client.base_url(), "https://graph.facebook.com/v22.0");
    assert_eq!(client.rate_limiter().in_flight(), 2);
    assert_eq!(client.rate_limiter().try_acquire(0), Admission::Delayed { wait_ms: 60_000 });
}

#[test]
fn calls_of_one_client_share_the_limiter() {
    let mut config = ClientConfig::default();
    config.max_requests_per_minute = 1;
    let mut client = WhatsAppClient::new(config);
    let mut first = client.begin(None, 0);
    let mut second = client.begin(None, 0);
    assert_eq!(first.advance(client.rate_limiter(), 0), Action::Perform { attempt: 0 });
    assert_eq!(second.advance(client.rate_limiter(), 0), Action::Wait { ms: 60_000 });
    assert_eq!(
        first.settle(
            client.rate_limiter(),
            Some(200),
            ClassifiedOutcome::Success("{}".to_string()),
            5
        ),
        Action::Finish(Ok("{}".to_string()))
    );
    assert_eq!(second.phase(), Phase::Waiting);
    assert_eq!(second.advance(client.rate_limiter(), 60_000), Action::Perform { attempt: 0 });
}

#[test]
fn payloads_are_plain_data() {
    let message =
        SendTextMessage { to: "491700000000".to_string(), text: "hi".to_string(), preview_url: None };
    let copy = message.clone();
    assert_eq!(copy.to, "491700000000");
    assert_eq!(copy.text, "hi");
    assert_eq!(MediaType::Image, MediaType::Image);
    assert_ne!(MediaType::Image, MediaType::Video);
}

#[test]
fn tokens_that_can_be_sent() {
    assert!(is_valid_token(""));
    assert!(is_valid_token("EAAG0123456789abcdefXYZ"));
    assert!(is_valid_token("with space and ~ tilde"));
    assert!(is_valid_token("tab\tinside"));
    assert!(is_valid_token("\u{fc}ber"));
}

#[test]
fn tokens_that_cannot_be_sent() {
    assert!(!is_valid_token("line\nbreak"));
    assert!(!is_valid_token("carriage\rreturn"));
    assert!(!is_valid_token("nul\u{0}"));
    assert!(!is_valid_token("escape\u{1b}"));
    assert!(!is_valid_token("delete\u{7f}"));
}
