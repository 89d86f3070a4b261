use reader_proxy::login::{
    extracted_text, form_pairs, login_outcome, login_response_with, FormField,
};

#[test]
fn ok_status_is_a_success() {
    let r = login_response_with(200, Some("OK".to_string()), None);
    assert!(r.success);
    assert_eq!(r.status_code, 200);
    assert_eq!(r.message, "Status: 200 OK");
    assert_eq!(r.extracted_text, None);
}

#[test]
fn redirect_reads_the_confirmation() {
    let body = "<html><body><div class='msg'> Welcome <b>back</b> </div><p>other</p></body></html>";
    let r = login_outcome(302, body, &Some(".msg".to_string()));
    assert!(r.success);
    assert_eq!(r.message, "Status: 302 Found");
    assert_eq!(r.extracted_text, Some("Welcome back".to_string()));
}

#[test]
fn forbidden_with_bad_selector_is_a_failure() {
    let r = login_outcome(403, "<p>no</p>", &Some("[[".to_string()));
    assert!(!r.success);
    assert_eq!(r.status_code, 403);
    assert_eq!(r.message, "Status: 403 Forbidden");
    assert_eq!(r.extracted_text, None);
}

#[test]
fn empty_or_missing_selector_reads_nothing() {
    assert_eq!(login_outcome(200, "<p>x</p>", &Some(String::new())).extracted_text, None);
    assert_eq!(login_outcome(200, "<p>x</p>", &None).extracted_text, None);
    assert_eq!(login_outcome(200, "<p>x</p>", &Some("div".to_string())).extracted_text, None);
}

#[test]
fn unknown_status_has_no_reason() {
    let r = login_response_with(599, None, None);
    assert!(!r.success);
    assert_eq!(r.message, "Status: 599 <unknown status code>");
    assert_eq!(login_outcome(599, "", &None).message, "Status: 599 <unknown status code>");
    assert_eq!(login_outcome(100, "", &None).message, "Status: 100 Continue");
}

#[test]
fn selected_texts_are_joined_and_trimmed() {
    assert_eq!(extracted_text(None), None);
    assert_eq!(extracted_text(Some(vec![])), None);
    assert_eq!(extracted_text(Some(vec!["".to_string()])), None);
    assert_eq!(extracted_text(Some(vec!["  ".to_string(), " ".to_string()])), Some(String::new()));
    assert_eq!(
        extracted_text(Some(vec![" a".to_string(), "b ".to_string()])),
        Some("ab".to_string())
    );
}

#[test]
fn fields_become_ordered_pairs() {
    let fields = vec![
        FormField { name: "user".to_string(), value: "ann".to_string() },
        FormField { name: "password".to_string(), value: "s3cret".to_string() },
    ];
    assert_eq!(
        form_pairs(&fields),
        vec![
            ("user".to_string(), "ann".to_string()),
            ("password".to_string(), "s3cret".to_string())
        ]
    );
}
