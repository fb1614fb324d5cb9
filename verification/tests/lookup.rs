use conspectus::lookup::{
    file_exists, get_number_of_open_pull_requests, number_of_alerts, number_of_alerts_for,
    number_of_open_pull_requests_for, or_default, reads_body, Lookup, LookupError, Response,
};

fn response(status: u16, body: &str) -> Response {
    Response { status, body: body.as_bytes().to_vec() }
}

#[test]
fn file_exists_by_status() {
    assert_eq!(file_exists(&response(200, "")), Ok(true));
    assert_eq!(file_exists(&response(404, "")), Ok(false));
}

#[test]
fn file_exists_does_not_read_the_body() {
    assert_eq!(file_exists(&response(200, "no json")), Ok(true));
    assert_eq!(file_exists(&response(404, "[1, 2]")), Ok(false));
}

#[test]
fn file_exists_with_another_status() {
    assert_eq!(file_exists(&response(500, "")), Err(LookupError::UnexpectedStatus(500)));
    assert_eq!(file_exists(&response(403, "")), Err(LookupError::UnexpectedStatus(403)));
    assert_eq!(file_exists(&response(201, "")), Err(LookupError::UnexpectedStatus(201)));
    assert_eq!(file_exists(&response(0, "")), Err(LookupError::UnexpectedStatus(0)));
}

#[test]
fn number_of_alerts_is_the_length_of_the_list() {
    assert_eq!(number_of_alerts(&response(200, "[]")), Ok(0));
    assert_eq!(number_of_alerts(&response(200, "[1, 2, 3]")), Ok(3));
    assert_eq!(number_of_alerts(&response(200, " [{\"number\": 1}, {\"number\": 2}] ")), Ok(2));
    assert_eq!(number_of_alerts(&response(200, "[[1, 2], [], null, \"a,b\"]")), Ok(4));
}

#[test]
fn number_of_alerts_of_a_long_list() {
    let mut body = String::from("[");
    for i in 0..70000 {
        if i > 0 {
            body.push(',');
        }
        body.push('0');
    }
    body.push(']');
    assert_eq!(number_of_alerts(&response(200, &body)), Ok(70000));
}

#[test]
fn number_of_alerts_without_the_feature() {
    assert_eq!(number_of_alerts(&response(404, "{\"message\": \"Not Found\"}")), Ok(0));
    assert_eq!(number_of_alerts(&response(404, "[1, 2, 3]")), Ok(0));
    assert_eq!(number_of_alerts(&response(404, "no json")), Ok(0));
}

#[test]
fn number_of_alerts_with_a_body_that_is_no_list() {
    assert_eq!(number_of_alerts(&response(200, "{}")), Err(LookupError::Undecodable));
    assert_eq!(number_of_alerts(&response(200, "no json")), Err(LookupError::Undecodable));
    assert_eq!(number_of_alerts(&response(200, "")), Err(LookupError::Undecodable));
    assert_eq!(number_of_alerts(&response(200, "[1, 2")), Err(LookupError::Undecodable));
    assert_eq!(number_of_alerts(&response(200, "[1] [2]")), Err(LookupError::Undecodable));
}

#[test]
fn number_of_alerts_with_another_status() {
    assert_eq!(number_of_alerts(&response(403, "[1]")), Err(LookupError::UnexpectedStatus(403)));
    assert_eq!(number_of_alerts(&response(500, "")), Err(LookupError::UnexpectedStatus(500)));
}

#[test]
fn number_of_alerts_for_each_case() {
    assert_eq!(number_of_alerts_for(200, Some(5)), Ok(5));
    assert_eq!(number_of_alerts_for(200, None), Err(LookupError::Undecodable));
    assert_eq!(number_of_alerts_for(404, Some(5)), Ok(0));
    assert_eq!(number_of_alerts_for(404, None), Ok(0));
    assert_eq!(number_of_alerts_for(302, Some(5)), Err(LookupError::UnexpectedStatus(302)));
    assert_eq!(number_of_alerts_for(302, None), Err(LookupError::UnexpectedStatus(302)));
}

#[test]
fn number_of_open_pull_requests_is_the_length_of_the_array() {
    assert_eq!(get_number_of_open_pull_requests(&response(200, "[]")), Ok(0));
    assert_eq!(get_number_of_open_pull_requests(&response(200, "[{}, {}]")), Ok(2));
}

#[test]
fn number_of_open_pull_requests_of_another_value_is_zero() {
    assert_eq!(get_number_of_open_pull_requests(&response(200, "{\"message\": \"ok\"}")), Ok(0));
    assert_eq!(get_number_of_open_pull_requests(&response(200, "null")), Ok(0));
    assert_eq!(get_number_of_open_pull_requests(&response(200, "17")), Ok(0));
    assert_eq!(get_number_of_open_pull_requests(&response(200, "\"[1, 2]\"")), Ok(0));
}

#[test]
fn number_of_open_pull_requests_with_not_found_is_zero_whatever_the_body() {
    assert_eq!(
        get_number_of_open_pull_requests(&response(404, "{\"message\": \"Not Found\"}")),
        Ok(0)
    );
    assert_eq!(get_number_of_open_pull_requests(&response(404, "[1, 2, 3]")), Ok(0));
    assert_eq!(get_number_of_open_pull_requests(&response(404, "[1,")), Ok(0));
    assert_eq!(get_number_of_open_pull_requests(&response(404, "")), Ok(0));
}

#[test]
fn number_of_open_pull_requests_with_another_status() {
    assert_eq!(
        get_number_of_open_pull_requests(&response(500, "[1]")),
        Err(LookupError::UnexpectedStatus(500))
    );
    assert_eq!(
        get_number_of_open_pull_requests(&response(403, "{}")),
        Err(LookupError::UnexpectedStatus(403))
    );
    assert_eq!(
        get_number_of_open_pull_requests(&response(201, "[1, 2]")),
        Err(LookupError::UnexpectedStatus(201))
    );
    assert_eq!(
        get_number_of_open_pull_requests(&response(500, "no json")),
        Err(LookupError::UnexpectedStatus(500))
    );
}

#[test]
fn number_of_open_pull_requests_of_no_json() {
    assert_eq!(get_number_of_open_pull_requests(&response(200, "")), Err(LookupError::Undecodable));
    assert_eq!(
        get_number_of_open_pull_requests(&response(200, "<html>")),
        Err(LookupError::Undecodable)
    );
    assert_eq!(
        get_number_of_open_pull_requests(&response(200, "[1,")),
        Err(LookupError::Undecodable)
    );
}

#[test]
fn number_of_open_pull_requests_for_each_case() {
    assert_eq!(number_of_open_pull_requests_for(200, Some(Some(4))), Ok(4));
    assert_eq!(number_of_open_pull_requests_for(200, Some(Some(0))), Ok(0));
    assert_eq!(number_of_open_pull_requests_for(200, Some(None)), Ok(0));
    assert_eq!(number_of_open_pull_requests_for(200, None), Err(LookupError::Undecodable));
    assert_eq!(number_of_open_pull_requests_for(404, Some(Some(4))), Ok(0));
    assert_eq!(number_of_open_pull_requests_for(404, Some(None)), Ok(0));
    assert_eq!(number_of_open_pull_requests_for(404, None), Ok(0));
    assert_eq!(
        number_of_open_pull_requests_for(500, Some(Some(4))),
        Err(LookupError::UnexpectedStatus(500))
    );
    assert_eq!(
        number_of_open_pull_requests_for(302, None),
        Err(LookupError::UnexpectedStatus(302))
    );
}

#[test]
fn reads_body_by_lookup_and_status() {
    for status in [200u16, 404, 500] {
        assert!(!reads_body(Lookup::DependabotFile, status));
        assert!(!reads_body(Lookup::CodeownersFile, status));
    }
    for lookup in [
        Lookup::DependabotAlerts,
        Lookup::SecretScanningAlerts,
        Lookup::CodeScanningAlerts,
        Lookup::OpenPullRequests,
    ] {
        assert!(reads_body(lookup, 200));
        assert!(!reads_body(lookup, 404));
        assert!(!reads_body(lookup, 500));
    }
}

#[test]
fn or_default_keeps_an_answer() {
    assert_eq!(or_default(Ok(true), false), (true, None));
    assert_eq!(or_default(Ok(12usize), 0), (12, None));
}

#[test]
fn or_default_replaces_an_error() {
    assert_eq!(or_default(Err(LookupError::Transport), false), (false, Some(LookupError::Transport)));
    assert_eq!(
        or_default(Err(LookupError::UnexpectedStatus(500)), 0usize),
        (0, Some(LookupError::UnexpectedStatus(500)))
    );
    assert_eq!(
        or_default(Err(LookupError::InvalidEndpoint), 7usize),
        (7, Some(LookupError::InvalidEndpoint))
    );
    assert_eq!(or_default(Err(LookupError::Undecodable), 0usize), (0, Some(LookupError::Undecodable)));
}
