use zero_to_prod_example::subscriptions::{
    health_check, insert_outcome, new_subscription_row, rejection, subscribe, subscription_row,
    SubscribeStep, Timestamp,
};
use zero_to_prod_example::domain::ValidationError;
use zero_to_prod_example::validation::validate_form_data;
use zero_to_prod_example::FormData;

fn form(name: &str, email: &str) -> FormData {
    FormData { name: name.to_string(), email: email.to_string() }
}

#[test]
fn a_row_holds_the_given_values() {
    let s = validate_form_data(form("George", "george_t@gmail.com")).unwrap();
    let at = Timestamp { secs: 1_700_000_000, nanos: 5 };
    let row = subscription_row(&s, 42, at);
    assert_eq!(42, row.id);
    assert_eq!("George", row.name);
    assert_eq!("george_t@gmail.com", row.email);
    assert_eq!(at, row.subscribed_at);
}

#[test]
fn new_rows_get_a_version_4_identifier_and_the_current_time() {
    let s = validate_form_data(form("George", "george_t@gmail.com")).unwrap();
    let row = new_subscription_row(&s);
    let id = uuid::Uuid::from_u128(row.id);
    assert_eq!(4, id.get_version_num());
    assert_eq!(uuid::Variant::RFC4122, id.get_variant());
    assert!(row.subscribed_at.secs > 1_600_000_000);
    assert!(row.subscribed_at.nanos < 1_000_000_000);
    assert_eq!("George", row.name);
    assert_eq!("george_t@gmail.com", row.email);
}

#[test]
fn the_same_submission_twice_gives_two_rows_with_distinct_identifiers() {
    let first = subscribe(form("George", "george_t@gmail.com"));
    let second = subscribe(form("George", "george_t@gmail.com"));
    match (first, second) {
        (SubscribeStep::Store(a), SubscribeStep::Store(b)) => {
            assert_ne!(a.id, b.id);
            assert_eq!(a.name, b.name);
            assert_eq!(a.email, b.email);
        }
        _ => panic!("a valid submission was refused"),
    }
}

#[test]
fn a_stored_subscription_echoes_the_values() {
    let s = validate_form_data(form("George", "george_t@gmail.com")).unwrap();
    let row = subscription_row(&s, 1, Timestamp { secs: 0, nanos: 0 });
    let reply = insert_outcome(&row, true);
    assert_eq!(200, reply.status);
    assert_eq!("Received subscription: name=George, email=george_t@gmail.com", reply.body);
}

#[test]
fn a_failed_store_gives_a_generic_500() {
    let s = validate_form_data(form("George", "george_t@gmail.com")).unwrap();
    let row = subscription_row(&s, 1, Timestamp { secs: 0, nanos: 0 });
    let reply = insert_outcome(&row, false);
    assert_eq!(500, reply.status);
    assert_eq!("Internal Server Error", reply.body);
}

#[test]
fn a_rejection_is_a_400_naming_the_rule() {
    let reply = rejection(ValidationError::InvalidName);
    assert_eq!(400, reply.status);
    assert_eq!("has an invalid name", reply.body);
}

#[test]
fn an_empty_submission_is_refused_as_missing_both() {
    match subscribe(form("", "")) {
        SubscribeStep::Reject(reply) => {
            assert_eq!(400, reply.status);
            assert_eq!("missing both name and email", reply.body);
        }
        SubscribeStep::Store(_) => panic!("stored an empty submission"),
    }
}

#[test]
fn an_invalid_email_is_refused() {
    match subscribe(form("Tony", "not_valid_email")) {
        SubscribeStep::Reject(reply) => {
            assert_eq!(400, reply.status);
            assert_eq!("has an invalid email", reply.body);
        }
        SubscribeStep::Store(_) => panic!("stored an invalid email"),
    }
}

#[test]
fn the_health_check_always_answers_200_with_an_empty_body() {
    for _ in 0..3 {
        let reply = health_check();
        assert_eq!(200, reply.status);
        assert_eq!("", reply.body);
    }
}
