use liftright_data_server::LiftrightError;
use liftright_data_server::survey::{
    IncomingSurvey, Survey, SurveyData, SurveyRecord, Timestamp, serialize_survey_content, submit,
};

fn make_survey_data() -> Vec<SurveyData> {
    vec![
        SurveyData {
            question: String::from("Was the game fun?"),
            answer: Some(String::from("Very")),
        },
        SurveyData {
            question: String::from("Was the sensor/arm band comfortable?"),
            answer: Some(String::from("Somewhat")),
        },
        SurveyData {
            question: String::from(
                "What Metrics do you find useful to guage your performance over time?",
            ),
            answer: Some(String::from("I 💪🏻 my 🍆 and 🍑 into a 🐉")),
        },
    ]
}

fn make_valid_survey() -> IncomingSurvey {
    IncomingSurvey {
        device_id: uuid::Uuid::new_v4().to_string(),
        submitted: None,
        survey_data: make_survey_data(),
    }
}

#[test]
fn deserialize_survey() {
    assert!(Survey::from_incoming(make_valid_survey()).is_ok());
}

#[test]
fn error_on_missing_device_id() {
    let incoming = IncomingSurvey {
        device_id: String::from(""),
        submitted: None,
        survey_data: make_survey_data(),
    };
    assert!(Survey::from_incoming(incoming).is_err())
}

#[test]
fn invalid_device_id_is_a_validation_error() {
    let incoming = IncomingSurvey {
        device_id: String::from("not-a-uuid"),
        submitted: None,
        survey_data: make_survey_data(),
    };
    assert_eq!(
        Survey::from_incoming(incoming).err(),
        Some(LiftrightError::ValidationError)
    );
}

#[test]
fn validated_survey_keeps_content_and_timestamp() {
    let u = uuid::Uuid::new_v4();
    let incoming = IncomingSurvey {
        device_id: u.to_string(),
        submitted: Some(Timestamp { epoch_ms: 1_600_000_000_000 }),
        survey_data: make_survey_data(),
    };
    let survey = Survey::from_incoming(incoming).expect("valid survey");
    assert_eq!(survey.device_id.value, u.as_u128());
    assert_eq!(survey.submitted, Some(Timestamp { epoch_ms: 1_600_000_000_000 }));
    assert_eq!(survey.survey_data, make_survey_data());
}

#[test]
fn serialize_empty_content() {
    let content = serialize_survey_content(&Vec::new());
    assert_eq!(content, "{}");
}

#[test]
fn serialize_simple_pairs() {
    let data = vec![
        SurveyData { question: String::from("a"), answer: Some(String::from("b")) },
        SurveyData { question: String::from("c"), answer: None },
    ];
    assert_eq!(serialize_survey_content(&data), "{\"a\":\"b\",\"c\":null}");
}

#[test]
fn serialize_escapes_quotes_backslashes_and_controls() {
    let data = vec![SurveyData {
        question: String::from("say \"hi\"\\"),
        answer: Some(String::from("line\nbreak")),
    }];
    assert_eq!(
        serialize_survey_content(&data),
        "{\"say \\\"hi\\\"\\\\\":\"line\\u000abreak\"}"
    );
}

#[test]
fn serialized_content_is_valid_json() {
    let content = serialize_survey_content(&make_survey_data());
    let value: serde_json::Value = serde_json::from_str(&content).expect("well-formed JSON");
    let object = value.as_object().expect("a JSON object");
    assert_eq!(object.len(), 3);
    assert_eq!(
        object.get("Was the game fun?").and_then(|v| v.as_str()),
        Some("Very")
    );
    assert_eq!(
        object
            .get("What Metrics do you find useful to guage your performance over time?")
            .and_then(|v| v.as_str()),
        Some("I 💪🏻 my 🍆 and 🍑 into a 🐉")
    );
}

#[test]
fn stored_survey_never_carries_the_failure_note() {
    let u = uuid::Uuid::new_v4();
    let incoming = IncomingSurvey {
        device_id: u.to_string(),
        submitted: None,
        survey_data: make_survey_data(),
    };
    let survey = Survey::from_incoming(incoming).expect("valid survey");
    let record = SurveyRecord::from_survey(survey);
    assert!(!record.content.is_empty());
    assert!(record.content.starts_with('{'));
    assert!(!record.content.starts_with("could not serialize survey content"));
    assert_eq!(record.device_id.value, u.as_u128());
}

#[test]
fn submit_is_unimplemented() {
    let u = uuid::Uuid::new_v4();
    let survey = Survey::from_incoming(IncomingSurvey {
        device_id: u.to_string(),
        submitted: None,
        survey_data: make_survey_data(),
    })
    .expect("valid survey");
    assert_eq!(submit(&survey), Err(LiftrightError::UnimplementedError));
}
