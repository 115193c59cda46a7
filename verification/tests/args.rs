use dialog_invoker::args::build_args;

#[test]
fn message_alone_is_the_only_argument() {
    let args = build_args("Hello".to_string(), None);
    assert_eq!(args, vec!["Hello".to_string()]);
}

#[test]
fn title_follows_the_message() {
    let args = build_args("Hello".to_string(), Some("Greeting".to_string()));
    assert_eq!(args, vec!["Hello".to_string(), "Greeting".to_string()]);
}

#[test]
fn empty_title_is_still_an_argument() {
    let args = build_args("Hello".to_string(), Some(String::new()));
    assert_eq!(args, vec!["Hello".to_string(), String::new()]);
}

#[test]
fn empty_message_is_still_an_argument() {
    let args = build_args(String::new(), None);
    assert_eq!(args, vec![String::new()]);
}

#[test]
fn arguments_are_passed_verbatim() {
    let message = "  two words \n".to_string();
    let title = "--flag=\"x\"".to_string();
    let args = build_args(message.clone(), Some(title.clone()));
    assert_eq!(args.len(), 2);
    assert_eq!(args[0], message);
    assert_eq!(args[1], title);
}

#[test]
fn equal_message_and_title_give_two_arguments() {
    let args = build_args("same".to_string(), Some("same".to_string()));
    assert_eq!(args, vec!["same".to_string(), "same".to_string()]);
}
