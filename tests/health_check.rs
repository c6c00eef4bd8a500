use zero_to_prod_example::subscriptions::{health_check, insert_outcome, subscribe, SubscribeStep};
use zero_to_prod_example::FormData;

fn form(name: &str, email: &str) -> FormData {
    FormData { name: name.to_string(), email: email.to_string() }
}

#[test]
fn health_check_works() {
    let reply = health_check();
    assert!((200..300).contains(&reply.status));
    assert_eq!(0, reply.body.len());
}

#[test]
fn subscribe_returns_a_200_for_valid_form_data() {
    let json_body = form("George", "george_t@gmail.com");
    let saved = match subscribe(json_body) {
        SubscribeStep::Store(row) => row,
        SubscribeStep::Reject(reply) => panic!("refused: {}", reply.body),
    };
    let reply = insert_outcome(&saved, true);
    assert_eq!(200, reply.status);
    assert_eq!("george_t@gmail.com", saved.email);
    assert_eq!("George", saved.name);
}

#[test]
fn subscribe_returns_a_400_code_when_data_is_invalid() {
    let test_cases: Vec<(FormData, String)> = vec![
        (form("Le guin", ""), "missing the email".to_string()),
        (form("", "ursula_le_guin@gmail.com"), "missing the name".to_string()),
        (form("", ""), "missing both name and email".to_string()),
        (form("Tony", "not_valid_email"), "has an invalid email".to_string()),
    ];
    for (invalid_body, error_message) in test_cases {
        match subscribe(invalid_body) {
            SubscribeStep::Reject(reply) => {
                assert_eq!(
                    400, reply.status,
                    "The API did not return a 400 Bad Request when the payload was {}.",
                    error_message
                );
                assert_eq!(error_message, reply.body);
            }
            SubscribeStep::Store(_) => panic!(
                "The API did not return a 400 Bad Request when the payload was {}.",
                error_message
            ),
        }
    }
}
