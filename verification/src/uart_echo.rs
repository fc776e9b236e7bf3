//! The echo loop of the first UART tutorials: received bytes are collected
//! until a carriage return, then the whole line is written back. The
//! `hello` command of that shell only answers that it failed.
use vstd::prelude::*;

verus! {

/// The outcome of a shell command or of writing to the UART.
#[derive(PartialEq, Eq, Structural, Clone, Copy, Debug)]
pub enum CliError {
    Success,
    Fail,
}

/// The message the `hello` command prints.
pub fn hello_message() -> (m: &'static str)
    ensures
        m@ == "Hello World"@,
{
    "Hello World"
}

/// The `hello` command: its message (`hello_message`) goes to the console,
/// and it reports `Fail`, since it has no UART to answer on.
pub fn cli_hello(subcommand: &str) -> (r: CliError)
    ensures
        r == CliError::Fail,
{
    CliError::Fail
}

/// The outcome of writing a line to the UART.
pub fn uart_write_outcome(written: bool) -> (r: CliError)
    ensures
        r == if written { CliError::Success } else { CliError::Fail },
{
    if written {
        CliError::Success
    } else {
        CliError::Fail
    }
}

/// Takes what one poll of the UART received and tells whether the buffer
/// now holds a line to echo: the last byte is a carriage return.
pub fn echo_receive(uart_buf: &mut Vec<u8>, received: Option<u8>) -> (line_ready: bool)
    ensures
        final(uart_buf)@ == match received {
            Some(b) => old(uart_buf)@.push(b),
            None => old(uart_buf)@,
        },
        line_ready == (final(uart_buf)@.len() > 0 && final(uart_buf)@.last() == 13),
{
    match received {
        Some(b) => uart_buf.push(b),
        None => {},
    }
    let n = uart_buf.len();
    n > 0 && uart_buf[n - 1] == 13
}

/// After echoing, the buffer is emptied when the write succeeded and kept
/// for another try when it failed.
pub fn echo_done(uart_buf: &mut Vec<u8>, outcome: CliError)
    ensures
        outcome == CliError::Success ==> final(uart_buf)@.len() == 0,
        outcome == CliError::Fail ==> final(uart_buf)@ == old(uart_buf)@,
{
    if outcome == CliError::Success {
        uart_buf.clear();
    }
}

} // verus!
