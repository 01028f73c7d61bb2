use zero2prod::healt_check;
use zero2prod::response::Response;
use zero2prod::subscribe;
use zero2prod::subscriptions::{finish_subscribe, Subscriber, SubscribeStep};

fn post(body: &str) -> SubscribeStep {
    subscribe(body.as_bytes())
}

fn rejected_status(step: SubscribeStep) -> Option<u16> {
    match step {
        SubscribeStep::Respond(r) => Some(r.status),
        SubscribeStep::Insert(_) => None,
    }
}

#[test]
fn health_check_works() {
    let response = healt_check();
    assert!(response.is_success());
    assert_eq!(Some(0), Some(response.content_length()));
}

#[test]
fn subscribe_returns_a_200_for_valid_form_data() {
    let body = "name=le%20guin&email=ursula_le_guin%40gmail.com";
    let form = match post(body) {
        SubscribeStep::Insert(form) => form,
        SubscribeStep::Respond(r) => panic!("rejected with {}", r.status),
    };
    let saved = Subscriber::new(form, 7, 1_700_000_000_000_000);
    let response: Response = finish_subscribe(true);

    assert_eq!(200, response.status);
    assert_eq!(saved.email, "ursula_le_guin@gmail.com");
    assert_eq!(saved.name, "le guin");
}

#[test]
fn subscribe_returns_a_400_when_data_is_missing() {
    let test_cases = vec![
        ("name=le%20guin", "missing email"),
        ("email=ursula_le_guin%40gmail.com", "missing name"),
        ("", "missing both name and email"),
    ];

    for (invalid_body, error_message) in test_cases {
        assert_eq!(
            Some(400),
            rejected_status(post(invalid_body)),
            "The API did not fail withh 400 BAD REQUEST when the payload was {}.",
            error_message
        );
    }
}
