use totp_engine::panel::{answer_text, command_name, create, update, Command, Message, Properties};

fn shown(key: &str, totp: &str) -> Properties {
    Properties { key: key.to_string(), totp: totp.to_string() }
}

#[test]
fn panel_starts_empty() {
    assert_eq!(create(), shown("", ""));
}

#[test]
fn set_key_sends_the_key_and_does_not_draw() {
    let mut props = shown("k", "t");
    let step = update(&mut props, Message::SetKey("123".to_string()));
    assert!(!step.render);
    assert!(matches!(step.command, Some(Command::SetKey(key)) if key == "123"));
    assert_eq!(props, shown("k", "t"));
}

#[test]
fn request_key_sends_get_key_and_does_not_draw() {
    let mut props = shown("k", "t");
    let step = update(&mut props, Message::RequestKey);
    assert!(!step.render);
    assert!(matches!(step.command, Some(Command::GetKey)));
    assert_eq!(props, shown("k", "t"));
}

#[test]
fn request_totp_sends_get_totp_and_does_not_draw() {
    let mut props = shown("k", "t");
    let step = update(&mut props, Message::RequestTotp);
    assert!(!step.render);
    assert!(matches!(step.command, Some(Command::GetTotp)));
    assert_eq!(props, shown("k", "t"));
}

#[test]
fn update_key_shows_the_key_and_draws() {
    let mut props = shown("k", "t");
    let step = update(&mut props, Message::UpdateKey("0123".to_string()));
    assert!(step.render);
    assert!(step.command.is_none());
    assert_eq!(props, shown("0123", "t"));
}

#[test]
fn update_totp_shows_the_code_and_draws() {
    let mut props = shown("k", "t");
    let step = update(&mut props, Message::UpdateTOTP("945283".to_string()));
    assert!(step.render);
    assert!(step.command.is_none());
    assert_eq!(props, shown("k", "945283"));
}

#[test]
fn commands_have_the_names_of_the_engine() {
    assert_eq!(command_name(&Command::SetKey("x".to_string())), "set_key");
    assert_eq!(command_name(&Command::GetKey), "get_key");
    assert_eq!(command_name(&Command::GetTotp), "get_totp");
}

#[test]
fn answer_text_shows_a_missing_answer_as_unknown() {
    assert_eq!(answer_text(Some("945283".to_string())), "945283");
    assert_eq!(answer_text(Some(String::new())), "");
    assert_eq!(answer_text(None), "unknown!");
}
