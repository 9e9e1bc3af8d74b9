use rest_client::response::{classify, receive};
use rest_client::{EmptyResponse, Error, Exchange, StatusClass};

fn text(body: String) -> Result<String, String> {
    Ok(body)
}

fn number(body: String) -> Result<u32, String> {
    body.trim().parse::<u32>().map_err(|_| format!("not a number: {}", body))
}

#[test]
fn not_found_is_a_client_error() {
    let received = receive(Exchange::Answered(404, "not found".to_string()), text);
    assert_eq!(
        received,
        Err(Error::ClientError(404, "not found".to_string()))
    );
}

#[test]
fn unavailable_is_a_server_error() {
    let received = receive(Exchange::Answered(503, "try later".to_string()), text);
    assert_eq!(
        received,
        Err(Error::ServerError(503, "try later".to_string()))
    );
}

#[test]
fn success_is_decoded() {
    assert_eq!(receive(Exchange::Answered(200, "42".to_string()), number), Ok(42));
    assert_eq!(receive(Exchange::Answered(204, " 7 ".to_string()), number), Ok(7));
    assert_eq!(receive(Exchange::Answered(299, "0".to_string()), number), Ok(0));
}

#[test]
fn a_body_of_another_type_is_a_decode_error() {
    assert_eq!(
        receive(Exchange::Answered(200, "forty-two".to_string()), number),
        Err(Error::DecodeError("not a number: forty-two".to_string()))
    );
}

#[test]
fn an_error_status_is_not_decoded() {
    // the body would decode, but the status decides
    assert_eq!(
        receive(Exchange::Answered(400, "42".to_string()), number),
        Err(Error::ClientError(400, "42".to_string()))
    );
    assert_eq!(
        receive(Exchange::Answered(500, "42".to_string()), number),
        Err(Error::ServerError(500, "42".to_string()))
    );
}

#[test]
fn a_failed_exchange_is_a_transport_error() {
    let received = receive(Exchange::Failed("connection refused".to_string()), number);
    assert_eq!(
        received,
        Err(Error::TransportError("connection refused".to_string()))
    );
}

#[test]
fn every_status_has_one_class() {
    for status in 0..=u16::MAX {
        let expected = if (200..300).contains(&status) {
            StatusClass::Success
        } else if (400..500).contains(&status) {
            StatusClass::ClientError
        } else {
            StatusClass::ServerError
        };
        assert_eq!(classify(status), expected);
    }
}

#[test]
fn classes_change_at_the_hundreds() {
    assert_eq!(classify(199), StatusClass::ServerError);
    assert_eq!(classify(200), StatusClass::Success);
    assert_eq!(classify(299), StatusClass::Success);
    assert_eq!(classify(300), StatusClass::ServerError);
    assert_eq!(classify(304), StatusClass::ServerError);
    assert_eq!(classify(399), StatusClass::ServerError);
    assert_eq!(classify(400), StatusClass::ClientError);
    assert_eq!(classify(499), StatusClass::ClientError);
    assert_eq!(classify(500), StatusClass::ServerError);
    assert_eq!(classify(0), StatusClass::ServerError);
    assert_eq!(classify(100), StatusClass::ServerError);
}

#[test]
fn other_statuses_carry_status_and_text() {
    assert_eq!(
        receive(Exchange::Answered(301, "moved".to_string()), text),
        Err(Error::ServerError(301, "moved".to_string()))
    );
    assert_eq!(
        receive(Exchange::Answered(101, String::new()), text),
        Err(Error::ServerError(101, String::new()))
    );
}

#[test]
fn empty_response_takes_any_body() {
    assert_eq!(EmptyResponse::decode(String::new()), Ok(EmptyResponse));
    assert_eq!(
        EmptyResponse::decode("{\"ignored\":true}".to_string()),
        Ok(EmptyResponse)
    );
    assert_eq!(
        receive(Exchange::Answered(200, "anything".to_string()), EmptyResponse::decode),
        Ok(EmptyResponse)
    );
}
