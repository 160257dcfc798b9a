use coding_challenge::provider::{CAT_API_URL, DOG_API_URL, FALLBACK_FACT};
use coding_challenge::{
    body_outcome, decode_outcome, health_check, resolve, resolve_lowered, respond, respond_error,
    respond_ok, sent_outcome, Animal, Cat, Dog, Envelope, ErrorKind, FetchedFact, Param,
    ParamError, Reply,
};

fn param(s: &str) -> Param {
    Param::new(Some(s.to_string()))
}

fn fact_of(reply: &Reply) -> (String, String) {
    match &reply.body {
        Envelope::Fact { fact, animal } => (fact.clone(), animal.clone()),
        Envelope::Error { error } => panic!("expected a fact, got error {error}"),
    }
}

fn error_of(reply: &Reply) -> String {
    match &reply.body {
        Envelope::Error { error } => error.clone(),
        Envelope::Fact { fact, .. } => panic!("expected an error, got fact {fact}"),
    }
}

#[test]
fn get_animal_fact_fails_when_no_param() {
    let err = resolve(&Param::new(None)).unwrap_err();
    assert!(matches!(err, ErrorKind::Validation(ParamError::Missing)));
    let reply = respond_error(&err);
    assert!(!(200..300).contains(&reply.status));
    assert_eq!(reply.status, 400);
    assert!(!error_of(&reply).is_empty());
}

#[test]
fn supported_selectors_echo_lowercase() {
    for (s, lower) in [("cat", "cat"), ("Cat", "cat"), ("CAT", "cat"), ("dog", "dog"), ("DoG", "dog")] {
        let animal = resolve(&param(s)).expect("a supported selector resolves");
        assert_eq!(animal.as_str(), lower);
        let reply = respond(animal, Ok("Cats sleep a lot.".to_string()));
        assert_eq!(reply.status, 200);
        let (fact, echoed) = fact_of(&reply);
        assert_eq!(echoed, lower);
        assert_eq!(fact, "Cats sleep a lot.");
    }
}

#[test]
fn any_draws_every_registered_animal() {
    let mut seen_cat = false;
    let mut seen_dog = false;
    for s in ["any", "ANY", "Any"].iter().cycle().take(300) {
        let animal = resolve(&param(s)).expect("any always resolves");
        let reply = respond(animal, Ok("fact".to_string()));
        assert_eq!(reply.status, 200);
        let (_, echoed) = fact_of(&reply);
        assert!(echoed == "cat" || echoed == "dog");
        match animal {
            Animal::Cat => seen_cat = true,
            Animal::Dog => seen_dog = true,
        }
    }
    assert!(seen_cat && seen_dog);
}

#[test]
fn any_without_a_draw_falls_back_to_dog() {
    assert_eq!(resolve_lowered("any", None).unwrap(), Animal::Dog);
    assert_eq!(resolve_lowered("any", Some(Animal::Cat)).unwrap(), Animal::Cat);
    assert_eq!(resolve_lowered("cat", Some(Animal::Dog)).unwrap(), Animal::Cat);
}

#[test]
fn unregistered_animal_is_rejected_by_name() {
    let err = resolve(&param("elephant")).unwrap_err();
    assert!(matches!(&err, ErrorKind::ConvertToAnimal(v) if v == "elephant"));
    let reply = respond_error(&err);
    assert_eq!(reply.status, 400);
    let msg = error_of(&reply);
    assert!(msg.contains("elephant"));
    assert!(msg.contains("not a supported animal"));
    assert_eq!(msg, "'elephant' is not a supported animal.");
}

#[test]
fn unregistered_animal_is_named_in_lowercase() {
    let err = Animal::from_selector("ElePhant").unwrap_err();
    assert_eq!(err.message(), "'elephant' is not a supported animal.");
}

#[test]
fn selector_length_bound() {
    let long = "a".repeat(25);
    let err = resolve(&param(&long)).unwrap_err();
    assert!(matches!(err, ErrorKind::Validation(ParamError::TooLong)));
    assert_eq!(respond_error(&err).status, 400);
    let at_bound = "a".repeat(24);
    let err = resolve(&param(&at_bound)).unwrap_err();
    assert!(matches!(err, ErrorKind::ConvertToAnimal(_)));
    // the bound counts characters, not bytes
    let wide = "é".repeat(24);
    assert!(matches!(resolve(&param(&wide)).unwrap_err(), ErrorKind::ConvertToAnimal(_)));
}

#[test]
fn empty_selector_is_not_an_animal() {
    let err = resolve(&param("")).unwrap_err();
    assert!(matches!(&err, ErrorKind::ConvertToAnimal(v) if v.is_empty()));
    assert_eq!(respond_error(&err).status, 400);
}

#[test]
fn cat_upstream_error_status_is_server_error() {
    let err = sent_outcome(Ok(503)).unwrap_err();
    assert!(matches!(err, ErrorKind::ApiResponse(503)));
    let reply = respond(Animal::Cat, Err(err));
    assert_eq!(reply.status, 500);
    assert_eq!(error_of(&reply), "Response from animal API returned error code: 503");
}

#[test]
fn status_range_decides_success() {
    assert!(sent_outcome(Ok(200)).is_ok());
    assert!(sent_outcome(Ok(204)).is_ok());
    assert!(sent_outcome(Ok(299)).is_ok());
    assert!(matches!(sent_outcome(Ok(199)), Err(ErrorKind::ApiResponse(199))));
    assert!(matches!(sent_outcome(Ok(300)), Err(ErrorKind::ApiResponse(300))));
    assert!(matches!(sent_outcome(Ok(404)), Err(ErrorKind::ApiResponse(404))));
}

#[test]
fn connection_failure_is_api_request_error() {
    let err = sent_outcome(Err("connection refused".to_string())).unwrap_err();
    assert_eq!(err.status(), 500);
    assert_eq!(err.message(), "Error during Request to animal API: connection refused");
}

#[test]
fn body_failure_is_to_text_error() {
    assert_eq!(body_outcome(Ok("{}".to_string())).unwrap(), "{}");
    let err = body_outcome(Err("stream closed".to_string())).unwrap_err();
    assert!(matches!(err, ErrorKind::ToText(_)));
    assert_eq!(respond_error(&err).status, 500);
    assert_eq!(err.message(), "Error fetching text: stream closed");
}

#[test]
fn decode_failure_is_deserialization_error() {
    let err = decode_outcome(Err("missing field `text`".to_string())).unwrap_err();
    assert_eq!(err.status(), 500);
    assert_eq!(err.message(), "Error deserializing json string: missing field `text`");
}

#[test]
fn dog_empty_list_is_not_available() {
    let dog = Dog { facts: vec![] };
    assert_eq!(dog.fact(), "Not available");
    let fact = decode_outcome(Ok(FetchedFact::Dog(dog))).unwrap();
    let reply = respond(Animal::Dog, Ok(fact));
    assert_eq!(reply.status, 200);
    assert_eq!(fact_of(&reply), ("Not available".to_string(), "dog".to_string()));
    assert_eq!(FALLBACK_FACT, "Not available");
}

#[test]
fn dog_first_fact_is_used() {
    let dog = Dog { facts: vec!["first".to_string(), "second".to_string()] };
    assert_eq!(dog.fact(), "first");
    let fact = decode_outcome(Ok(FetchedFact::Dog(dog))).unwrap();
    assert_eq!(fact, "first");
}

#[test]
fn cat_text_is_the_fact() {
    let cat = Cat { text: "fact".to_string() };
    assert_eq!(decode_outcome(Ok(FetchedFact::Cat(cat))).unwrap(), "fact");
}

#[test]
fn respond_ok_carries_both_fields() {
    let reply = respond_ok("fact", "cat");
    assert_eq!(reply.status, 200);
    assert_eq!(fact_of(&reply), ("fact".to_string(), "cat".to_string()));
}

#[test]
fn error_messages_and_statuses() {
    assert_eq!(ErrorKind::ApiResponse(0).message(), "Response from animal API returned error code: 0");
    assert_eq!(
        ErrorKind::ApiResponse(65535).message(),
        "Response from animal API returned error code: 65535"
    );
    assert_eq!(ErrorKind::Validation(ParamError::Missing).status(), 400);
    assert_eq!(ErrorKind::ConvertToAnimal("x".to_string()).status(), 400);
    assert_eq!(ErrorKind::ApiRequest("x".to_string()).status(), 500);
    assert_eq!(ErrorKind::ToText("x".to_string()).status(), 500);
    assert_eq!(ErrorKind::Deserialization("x".to_string()).status(), 500);
    assert!(!ErrorKind::Validation(ParamError::TooLong).message().is_empty());
}

#[test]
fn catalog_order_and_selectors() {
    assert_eq!(Animal::all(), vec![Animal::Cat, Animal::Dog]);
    assert_eq!(Animal::Cat.as_str(), "cat");
    assert_eq!(Animal::Dog.as_str(), "dog");
    assert_eq!(Animal::from_selector("CAT").unwrap(), Animal::Cat);
    assert_eq!(Animal::from_selector("dOg").unwrap(), Animal::Dog);
    assert_eq!(Animal::from_lowercase("dog").unwrap(), Animal::Dog);
    assert!(Animal::from_lowercase("DOG").is_err());
    assert_eq!(Animal::Cat.endpoint(), CAT_API_URL);
    assert_eq!(Animal::Dog.endpoint(), DOG_API_URL);
}

#[test]
fn health_check_is_ok() {
    assert_eq!(health_check(), 200);
}
