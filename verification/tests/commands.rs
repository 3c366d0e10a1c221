use simple_chat::command::convert_string_to_command;
use simple_chat::errors::CommandError;
use simple_chat::messages::ClientServerMessages;

fn message(username: &str, text: &str) -> ClientServerMessages {
    ClientServerMessages::Message(username.to_string(), text.to_string())
}

#[test]
fn test_valid_string_to_command() {
    let username = "Test";
    let command_message = "send This is a test message";

    let command_result = convert_string_to_command(username, command_message).unwrap();

    assert_eq!(
        command_result,
        ClientServerMessages::Message(username.to_string(), "This is a test message".to_string())
    )
}

#[test]
fn test_invalid_string_to_command() {
    let username = "Test";
    let command_message = "Test This is a test message";

    convert_string_to_command(username, command_message).unwrap_err();
}

#[test]
fn only_the_first_space_separates() {
    assert_eq!(convert_string_to_command("u", "send  a  b "), Ok(message("u", " a  b ")));
    assert_eq!(convert_string_to_command("u", "send  "), Ok(message("u", " ")));
    assert_eq!(convert_string_to_command("u", "send\ta"), invalid("send\ta"));
}

#[test]
fn text_may_hold_any_characters() {
    assert_eq!(convert_string_to_command("Zoë", "send héllo ✓ 日本"), Ok(message("Zoë", "héllo ✓ 日本")));
    assert_eq!(convert_string_to_command("u", "✓✓ x"), invalid("✓✓"));
}

#[test]
fn leave_needs_nothing_else() {
    let leave = ClientServerMessages::Leave("u".to_string());
    assert_eq!(convert_string_to_command("u", "leave").unwrap(), leave);
    assert_eq!(convert_string_to_command("u", "leave ").unwrap(), leave);
    assert_eq!(convert_string_to_command("u", "leave now").unwrap(), leave);
}

fn invalid(command: &str) -> Result<ClientServerMessages, CommandError> {
    Err(CommandError::InvalidCommand(command.to_string()))
}

#[test]
fn send_without_text_has_no_message() {
    assert_eq!(convert_string_to_command("u", "send "), Err(CommandError::NoMessage));
    assert_eq!(convert_string_to_command("u", "send"), Err(CommandError::NoMessage));
}

#[test]
fn line_without_a_first_word_has_no_command() {
    assert_eq!(convert_string_to_command("u", ""), Err(CommandError::NoCommand));
    assert_eq!(convert_string_to_command("u", " send a"), Err(CommandError::NoCommand));
}

#[test]
fn other_words_are_invalid() {
    assert_eq!(convert_string_to_command("u", "Send a"), invalid("Send"));
    assert_eq!(convert_string_to_command("u", "sends a"), invalid("sends"));
    assert_eq!(convert_string_to_command("u", "leaves"), invalid("leaves"));
}

#[test]
fn command_errors_have_texts() {
    assert_eq!(CommandError::NoCommand.text(), "Unable to split input message");
    assert_eq!(CommandError::NoMessage.text(), "No message found with send command");
    assert_eq!(
        CommandError::InvalidCommand("dance".to_string()).text(),
        "Invalid command dance received from user"
    );
}
