use esp32c3_tutorials::cli::{echo_shell_poll, uart_poll, EchoShellAction};
use esp32c3_tutorials::cli::{
    buffer_uart_byte, cli_cmd2, cli_hello, find_command, help_menu, poll_uart_buffer,
    process_uart_buffer, reply_to_command, shell_commands, CliLineError, Command,
    MAX_UART_BUFFER,
};

fn line(bytes: &[u8]) -> Vec<u8> {
    bytes.to_vec()
}

fn words(ws: &[&str]) -> Vec<String> {
    ws.iter().map(|w| w.to_string()).collect()
}

#[test]
fn buffer_appends_and_deletes() {
    let mut buf = Vec::new();
    buffer_uart_byte(b'a', &mut buf);
    buffer_uart_byte(b'b', &mut buf);
    assert_eq!(buf, b"ab".to_vec());
    buffer_uart_byte(8, &mut buf);
    assert_eq!(buf, b"a".to_vec());
    buffer_uart_byte(8, &mut buf);
    buffer_uart_byte(8, &mut buf);
    assert!(buf.is_empty());
}

#[test]
fn buffer_clears_past_limit() {
    let mut buf = vec![b'x'; MAX_UART_BUFFER];
    buffer_uart_byte(b'y', &mut buf);
    assert!(buf.is_empty());
    let mut buf = vec![b'x'; MAX_UART_BUFFER - 1];
    buffer_uart_byte(b'y', &mut buf);
    assert_eq!(buf.len(), MAX_UART_BUFFER);
}

#[test]
fn hello_command_answers() {
    let mut buf = line(b"hello\r");
    assert_eq!(process_uart_buffer(&mut buf), Some("Hello World\n".to_string()));
    assert!(buf.is_empty());
}

#[test]
fn cmd2_counts_arguments() {
    let mut buf = line(b"cmd2 a b\r");
    assert_eq!(
        process_uart_buffer(&mut buf),
        Some("Correct number of arguments\n".to_string())
    );
    let mut buf = line(b"cmd2 a\r");
    assert_eq!(
        process_uart_buffer(&mut buf),
        Some("Incorrect number of arguments\n".to_string())
    );
}

#[test]
fn help_subcommand_gives_help_text() {
    let mut buf = line(b"hello help\r");
    assert_eq!(process_uart_buffer(&mut buf), Some("Prints hello world".to_string()));
    let mut buf = line(b"cmd2 help x\r");
    assert_eq!(
        process_uart_buffer(&mut buf),
        Some("Subcommand logic example".to_string())
    );
}

#[test]
fn menu_lists_commands() {
    let mut buf = line(b"menu\r");
    assert_eq!(
        process_uart_buffer(&mut buf),
        Some(
            "Help Menu\n------------\nhello : Prints hello world\ncmd2 : Subcommand logic example\n"
                .to_string()
        )
    );
}

#[test]
fn unknown_command() {
    let mut buf = line(b"bogus\r");
    assert_eq!(process_uart_buffer(&mut buf), Some("Key not found\n".to_string()));
    let mut buf = line(b"   \r");
    assert_eq!(process_uart_buffer(&mut buf), Some("Key not found\n".to_string()));
}

#[test]
fn quoted_words_are_split_by_the_shell_rules() {
    let mut buf = line(b"cmd2 'a b' \"c\"\r");
    assert_eq!(
        process_uart_buffer(&mut buf),
        Some("Correct number of arguments\n".to_string())
    );
}

#[test]
fn invalid_utf8_is_reported() {
    let mut buf = vec![0xff, 0xfe, 13];
    assert_eq!(process_uart_buffer(&mut buf), Some("Not UTF-8 formatted\n".to_string()));
    assert!(buf.is_empty());
}

#[test]
fn no_carriage_return_no_reply() {
    let mut buf = line(b"hello");
    assert_eq!(process_uart_buffer(&mut buf), None);
    assert_eq!(buf, b"hello".to_vec());
    let mut buf = Vec::new();
    assert_eq!(process_uart_buffer(&mut buf), None);
}

#[test]
fn bare_carriage_return_is_dropped() {
    let mut buf = line(b"\r");
    assert_eq!(process_uart_buffer(&mut buf), None);
    assert!(buf.is_empty());
}

#[test]
fn unclosed_quote_is_an_error_and_keeps_the_buffer() {
    let mut buf = line(b"hello 'oops\r");
    assert_eq!(poll_uart_buffer(&mut buf), Err(CliLineError::MissingClosingQuote));
    assert_eq!(buf, b"hello 'oops\r".to_vec());
}

#[test]
fn poll_answers_like_process() {
    let mut buf = line(b"hello\r");
    assert_eq!(poll_uart_buffer(&mut buf), Ok(Some("Hello World\n".to_string())));
    assert!(buf.is_empty());
    let mut buf = line(b"hel");
    assert_eq!(poll_uart_buffer(&mut buf), Ok(None));
    assert_eq!(buf, b"hel".to_vec());
}

#[test]
fn handlers_and_table() {
    assert_eq!(cli_hello(words(&["x"])), "Hello World\n");
    assert_eq!(cli_cmd2(words(&["a", "b"])), "Correct number of arguments\n");
    assert_eq!(cli_cmd2(words(&[])), "Incorrect number of arguments\n");
    assert_eq!(shell_commands(), vec![Command::Hello, Command::Cmd2]);
    assert_eq!(Command::Hello.name(), "hello");
    assert_eq!(Command::Cmd2.help(), "Subcommand logic example");
    let found = find_command(&"cmd2".to_string()).unwrap();
    assert_eq!(found.handler, Command::Cmd2);
    assert_eq!(found.help, "Subcommand logic example");
    assert!(find_command(&"menu".to_string()).is_none());
    assert!(help_menu().starts_with("Help Menu\n"));
}

#[test]
fn reply_to_words_directly() {
    assert_eq!(reply_to_command(&words(&[])), "Key not found\n");
    assert_eq!(reply_to_command(&words(&["hello", "a"])), "Hello World\n");
}

#[test]
fn uart_poll_buffers_then_answers() {
    let mut buf = Vec::new();
    for b in b"hello" {
        assert_eq!(uart_poll(&mut buf, Some(*b)), Ok(None));
    }
    assert_eq!(uart_poll(&mut buf, None), Ok(None));
    assert_eq!(uart_poll(&mut buf, Some(13)), Ok(Some("Hello World\n".to_string())));
    assert!(buf.is_empty());
}

#[test]
fn buffer_never_exceeds_limit() {
    let mut buf = Vec::new();
    for i in 0..1000u32 {
        buffer_uart_byte(b'a' + (i % 20) as u8, &mut buf);
        assert!(buf.len() <= MAX_UART_BUFFER);
    }
}

#[test]
fn quote_free_line_is_answered() {
    let mut buf = line(b"hi\r");
    assert_eq!(poll_uart_buffer(&mut buf), Ok(Some("Key not found\n".to_string())));
}

fn feed(buf: &mut Vec<u8>, bytes: &[u8]) -> Result<EchoShellAction, CliLineError> {
    let mut last = Ok(EchoShellAction::Idle);
    for b in bytes {
        last = echo_shell_poll(buf, Some(*b));
    }
    last
}

#[test]
fn echo_shell_echoes_line_without_cr() {
    let mut buf = Vec::new();
    assert_eq!(feed(&mut buf, b"hello there\r"), Ok(EchoShellAction::Echo { command_found: true }));
    assert_eq!(buf, b"hello there".to_vec());
    let mut buf = Vec::new();
    assert_eq!(feed(&mut buf, b"other\r"), Ok(EchoShellAction::Echo { command_found: false }));
    assert_eq!(buf, b"other".to_vec());
    assert_eq!(echo_shell_poll(&mut buf, None), Ok(EchoShellAction::Idle));
}

#[test]
fn echo_shell_deletes_and_drops() {
    let mut buf = Vec::new();
    assert_eq!(echo_shell_poll(&mut buf, Some(8)), Ok(EchoShellAction::NothingToDelete));
    assert_eq!(feed(&mut buf, b"ab\x08"), Ok(EchoShellAction::Idle));
    assert_eq!(buf, b"a".to_vec());
    let mut buf = vec![0xff];
    assert_eq!(echo_shell_poll(&mut buf, Some(13)), Ok(EchoShellAction::Discarded));
    assert!(buf.is_empty());
    let mut buf = Vec::new();
    assert_eq!(echo_shell_poll(&mut buf, Some(13)), Ok(EchoShellAction::Idle));
    assert!(buf.is_empty());
}

#[test]
fn echo_shell_errors() {
    let mut buf = Vec::new();
    assert_eq!(feed(&mut buf, b"say 'x\r"), Err(CliLineError::MissingClosingQuote));
    assert_eq!(buf, b"say 'x\r".to_vec());
    let mut buf = Vec::new();
    assert_eq!(feed(&mut buf, b"   \r"), Err(CliLineError::NoCommand));
}
