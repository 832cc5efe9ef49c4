use cloudcafe::domain::{NewSubscriber, SubscriberEmail, SubscriberName};
use cloudcafe::routes::reply::{BAD_REQUEST, INTERNAL_SERVER_ERROR, OK};
use cloudcafe::routes::subscriptions::{
    conclude_subscription, decide_subscription, uuid_v4, Decision, StoredSubscription,
};
use cloudcafe::routes::{health_check, FormData, Reply};

fn form(name: &str, email: &str) -> FormData {
    FormData { email: email.to_string(), name: name.to_string() }
}

fn answer(decision: Decision) -> Reply {
    match decision {
        Decision::Answer(reply) => reply,
        Decision::Insert(_) => panic!("an insertion was decided"),
    }
}

fn subscriber(decision: Decision) -> NewSubscriber {
    match decision {
        Decision::Answer(reply) => panic!("answered at once with {}", reply.status),
        Decision::Insert(subscriber) => subscriber,
    }
}

#[test]
fn health_check_works() {
    let reply = health_check();
    assert_eq!(reply.status, 200);
    assert_eq!(reply.body.len(), 0);
}

#[test]
fn subscibe_returns_a_200_for_valid_form_data() {
    // The decoded form of `name=le%20guin&email=ursula_le_guin%40gmail.com`.
    let decision = decide_subscription(Some(form("le guin", "ursula_le_guin@gmail.com")));
    let saved = StoredSubscription::stamped(&subscriber(decision));
    assert_eq!(saved.email, "ursula_le_guin@gmail.com");
    assert_eq!(saved.name, "le guin");

    let reply = conclude_subscription(true);
    assert_eq!(200, reply.status);
    assert_eq!(reply.body, "");
}

#[test]
fn subscribe_returns_a_400_when_data_is_missing() {
    // A body that lacks a field decodes to no form at all.
    let reply = answer(decide_subscription(None));
    assert_eq!(400, reply.status);
    assert_eq!(reply.body, "");
}

#[test]
fn subscribe_returns_a_400_when_fields_are_present_but_invalid() {
    let test_cases = vec![
        (form("", "ursula_le_guin@gmail.com"), "name is empty"),
        (form("ursula_le_guin", ""), "email is empty"),
        (form("ursula_le_guin", "invalid_email"), "email is invalid"),
        (form("ursula", "invalid_email"), "email is invalid"),
    ];
    for (invalid_form, error_message) in test_cases {
        let reply = answer(decide_subscription(Some(invalid_form)));
        assert_eq!(
            400, reply.status,
            "The decision was not a 400 Bad Request when the payload was {}.",
            error_message
        );
    }
}

#[test]
fn bad_request_carries_the_validation_message() {
    let reply = answer(decide_subscription(Some(form("", "ursula_le_guin@gmail.com"))));
    assert_eq!(reply.body, "Invalid subscriber name: ");
    let reply = answer(decide_subscription(Some(form("le guin", "invalid_email"))));
    assert_eq!(reply.body, "Invalid subscriber email: invalid_email");
}

#[test]
fn email_is_judged_before_name() {
    let reply = answer(decide_subscription(Some(form("le<guin", "not an address"))));
    assert_eq!(reply.status, BAD_REQUEST);
    assert_eq!(reply.body, "Invalid subscriber email: not an address");
    let error = NewSubscriber::try_from(form("le<guin", "not an address")).err().unwrap();
    assert_eq!(error, "Invalid subscriber email: not an address");
    let error = NewSubscriber::try_from(form("le<guin", "a@b.co")).err().unwrap();
    assert_eq!(error, "Invalid subscriber name: le<guin");
}

#[test]
fn conversion_keeps_both_fields() {
    let converted: Result<NewSubscriber, String> = form("le guin", "ursula_le_guin@gmail.com").try_into();
    let subscriber = converted.unwrap();
    assert_eq!(subscriber.email.as_str(), "ursula_le_guin@gmail.com");
    assert_eq!(subscriber.name.as_str(), "le guin");
}

#[test]
fn store_failure_is_a_server_error() {
    let reply = conclude_subscription(false);
    assert_eq!(reply.status, INTERNAL_SERVER_ERROR);
    assert_eq!(reply.status, 500);
    assert_eq!(reply.body, "");
    assert_eq!(conclude_subscription(true).status, OK);
}

#[test]
fn empty_reply_has_the_given_status() {
    let reply = Reply::empty(418);
    assert_eq!(reply.status, 418);
    assert_eq!(reply.body, "");
}

#[test]
fn row_is_built_from_the_given_values() {
    let subscriber = NewSubscriber {
        email: SubscriberEmail::parse("ursula_le_guin@gmail.com".to_string()).unwrap(),
        name: SubscriberName::parse("le guin".to_string()).unwrap(),
    };
    let id = 0x67e5_5044_10b1_426f_9247_bb68_0e5f_e0c8_u128;
    let row = StoredSubscription::from_parts(id, 1_700_000_000_123_456, &subscriber);
    assert_eq!(row.id, id);
    assert_eq!(row.email, "ursula_le_guin@gmail.com");
    assert_eq!(row.name, "le guin");
    assert_eq!(row.subscribed_at, 1_700_000_000_123_456);
}

#[test]
fn new_row_is_stamped_with_a_random_uuid_and_the_time() {
    let subscriber = NewSubscriber {
        email: SubscriberEmail::parse("ursula_le_guin@gmail.com".to_string()).unwrap(),
        name: SubscriberName::parse("le guin".to_string()).unwrap(),
    };
    let before = chrono::Utc::now().timestamp_micros();
    let first = StoredSubscription::stamped(&subscriber);
    let second = StoredSubscription::stamped(&subscriber);
    let after = chrono::Utc::now().timestamp_micros();
    for row in [&first, &second] {
        assert!(uuid_v4(row.id));
        let id = uuid::Uuid::from_u128(row.id);
        assert_eq!(id.get_version_num(), 4);
        assert_eq!(id.get_variant(), uuid::Variant::RFC4122);
        assert!(before <= row.subscribed_at && row.subscribed_at <= after);
        assert_eq!(row.email, "ursula_le_guin@gmail.com");
        assert_eq!(row.name, "le guin");
    }
    // Two submissions of one address make two rows with distinct identifiers.
    assert_ne!(first.id, second.id);
}

#[test]
fn version_and_variant_bits_make_a_random_uuid() {
    assert!(uuid_v4(0x67e5_5044_10b1_426f_9247_bb68_0e5f_e0c8));
    assert!(uuid_v4(0x0000_0000_0000_4000_8000_0000_0000_0000));
    assert!(uuid_v4(0xffff_ffff_ffff_4fff_bfff_ffff_ffff_ffff));
    assert!(!uuid_v4(0));
    assert!(!uuid_v4(u128::MAX));
    // Version 1, and version 4 with another variant.
    assert!(!uuid_v4(0x67e5_5044_10b1_126f_9247_bb68_0e5f_e0c8));
    assert!(!uuid_v4(0x67e5_5044_10b1_426f_d247_bb68_0e5f_e0c8));
    assert!(!uuid_v4(0x67e5_5044_10b1_426f_1247_bb68_0e5f_e0c8));
}
