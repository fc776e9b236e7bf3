use vstd::prelude::*;
use vstd::string::StringSliceAdditionalSpecFns;
use vstd::string::StringExecFns;
use vstd::utf8::{decode_utf8, encode_utf8_decode_utf8, valid_utf8};

verus! {

/// Byte that erases the last buffered character.
pub const ASCII_DEL_CODE: u8 = 8;
/// Byte that ends a command line.
pub const ASCII_CR_CODE: u8 = 13;
/// The line buffer is emptied once it would hold more than this many bytes.
pub const MAX_UART_BUFFER: usize = 100;

/// What one received byte does to the line buffer.
pub open spec fn buffered(buf: Seq<u8>, new_byte: u8) -> Seq<u8> {
    if new_byte == ASCII_DEL_CODE {
        if buf.len() > 0 { buf.drop_last() } else { buf }
    } else if buf.len() + 1 > MAX_UART_BUFFER {
        Seq::empty()
    } else {
        buf.push(new_byte)
    }
}

/// Adds a received byte to the command-line buffer: the delete code removes
/// the last byte, any other byte is appended, and a buffer that grows past
/// `MAX_UART_BUFFER` bytes is emptied.
pub fn buffer_uart_byte(new_byte: u8, uart_buf: &mut Vec<u8>)
    ensures
        final(uart_buf)@ == buffered(old(uart_buf)@, new_byte),
{
    if new_byte == ASCII_DEL_CODE {
        let _ = uart_buf.pop();
    } else {
        uart_buf.push(new_byte);
        if uart_buf.len() > MAX_UART_BUFFER {
            uart_buf.clear();
        }
    }
}


/// Keyword that lists every command with its help text.
pub open spec fn menu_keyword() -> Seq<char> {
    "menu"@
}

/// Sub-command that asks a command for its help text.
pub open spec fn help_keyword() -> Seq<char> {
    "help"@
}

/// The commands of the shell.
#[derive(PartialEq, Eq, Structural, Clone, Copy, Debug)]
pub enum Command {
    Hello,
    Cmd2,
}

/// A shell command: which handler runs, and the help text shown for it.
pub struct SShellCommand<'a> {
    pub handler: Command,
    pub help: &'a str,
}

/// The name under which each command is looked up.
pub open spec fn command_name(c: Command) -> Seq<char> {
    match c {
        Command::Hello => "hello"@,
        Command::Cmd2 => "cmd2"@,
    }
}

/// The help text of each command.
pub open spec fn command_help(c: Command) -> Seq<char> {
    match c {
        Command::Hello => "Prints hello world"@,
        Command::Cmd2 => "Subcommand logic example"@,
    }
}

/// The command registered under `name`, if any.
pub open spec fn command_named(name: Seq<char>) -> Option<Command> {
    if name == command_name(Command::Hello) {
        Some(Command::Hello)
    } else if name == command_name(Command::Cmd2) {
        Some(Command::Cmd2)
    } else {
        None
    }
}

/// What a command's handler answers for the given sub-commands.
pub open spec fn command_output(c: Command, sub_cmds: Seq<Seq<char>>) -> Seq<char> {
    match c {
        Command::Hello => "Hello World\n"@,
        Command::Cmd2 => if sub_cmds.len() == 2 {
            "Correct number of arguments\n"@
        } else {
            "Incorrect number of arguments\n"@
        },
    }
}

/// One line of the help menu.
pub open spec fn menu_line(c: Command) -> Seq<char> {
    command_name(c) + " : "@ + command_help(c) + "\n"@
}

/// Every command of the shell, in the order the menu lists them.
pub open spec fn all_commands() -> Seq<Command> {
    seq![Command::Hello, Command::Cmd2]
}

/// The menu lines of the given commands, in order.
pub open spec fn menu_lines(cs: Seq<Command>) -> Seq<char>
    decreases cs.len(),
{
    if cs.len() == 0 {
        Seq::empty()
    } else {
        menu_lines(cs.drop_last()) + menu_line(cs.last())
    }
}

/// The help menu: a title, then one line per command.
pub open spec fn menu_text() -> Seq<char> {
    "Help Menu\n------------\n"@ + menu_lines(all_commands())
}

/// The reply to a command line already split into words.
pub open spec fn reply_to_words(words: Seq<Seq<char>>) -> Seq<char> {
    let cmd = if words.len() > 0 { words[0] } else { ""@ };
    let sub_cmds = words.drop_first();
    if cmd == menu_keyword() {
        menu_text()
    } else {
        match command_named(cmd) {
            Some(c) => if sub_cmds.len() > 0 && sub_cmds[0] == help_keyword() {
                command_help(c)
            } else {
                command_output(c, sub_cmds)
            },
            None => "Key not found\n"@,
        }
    }
}

/// How `shell_words::split` splits a string into words; `None` where it
/// reports a missing closing quote.
pub uninterp spec fn shell_split(s: Seq<char>) -> Option<Seq<Seq<char>>>;

/// The reply to a received command line (its bytes, without the carriage return).
pub open spec fn reply_to_line(line: Seq<u8>) -> Seq<char> {
    if !valid_utf8(line) {
        "Not UTF-8 formatted\n"@
    } else {
        reply_to_words(shell_split(decode_utf8(line)).unwrap())
    }
}

/// The line can be answered without a splitting failure.
pub open spec fn line_splits(line: Seq<u8>) -> bool {
    valid_utf8(line) ==> shell_split(decode_utf8(line)) is Some
}

/// The view of an optional reply.
pub open spec fn reply_view(r: Option<String>) -> Option<Seq<char>> {
    match r {
        Some(s) => Some(s@),
        None => None,
    }
}

/// What answering the buffer does: nothing before a carriage return ends
/// it; then the buffer is emptied, and a line that is not empty is answered.
pub open spec fn uart_buffer_processed(before: Seq<u8>, after: Seq<u8>, ret: Option<Seq<char>>) -> bool {
    if !ends_with_cr(before) {
        ret is None && after == before
    } else {
        &&& after.len() == 0
        &&& ret == if before.len() == 1 {
            None
        } else {
            Some(reply_to_line(before.drop_last()))
        }
    }
}

/// The buffer ends a line that splitting into words would reject.
pub open spec fn holds_unsplittable_line(buf: Seq<u8>) -> bool {
    ends_with_cr(buf) && buf.len() > 1 && !line_splits(buf.drop_last())
}

/// Why a finished command line could not be answered.
#[derive(PartialEq, Eq, Structural, Clone, Copy, Debug)]
pub enum CliLineError {
    /// A quote is opened and never closed.
    MissingClosingQuote,
    /// The line holds no word, so there is no command to look up.
    NoCommand,
}

/// A line whose text, if it is UTF-8, holds no single or double quote: such
/// a line always splits into words.
pub open spec fn quote_free(line: Seq<u8>) -> bool {
    valid_utf8(line) ==> !decode_utf8(line).contains('\'') && !decode_utf8(line).contains('"')
}

/// The buffer holds a finished command line.
pub open spec fn ends_with_cr(buf: Seq<u8>) -> bool {
    buf.len() > 0 && buf.last() == ASCII_CR_CODE
}

/// Calls `std::str::from_utf8`: it succeeds exactly on valid UTF-8, and the
/// string it gives back is made of the same bytes.
#[verifier::external_body]
fn str_from_utf8(v: &[u8]) -> (res: Option<&str>)
    ensures
        res is Some <==> valid_utf8(v@),
        res matches Some(s) ==> s.spec_bytes() == v@,
{
    std::str::from_utf8(v).ok()
}

/// Calls `shell_words::split`; its result is named `shell_split`. From the
/// crate's source: the error (a missing closing quote) can only come from
/// a single or double quote in the input.
#[verifier::external_body]
fn split_words(s: &str) -> (res: Option<Vec<String>>)
    ensures
        res is Some <==> shell_split(s@) is Some,
        res matches Some(w) ==> w.deep_view() == shell_split(s@).unwrap(),
        !s@.contains('\'') && !s@.contains('"') ==> res is Some,
{
    shell_words::split(s).ok()
}

/// Handler of `hello`.
pub fn cli_hello(subcommand: Vec<String>) -> (r: &'static str)
    ensures
        r@ == command_output(Command::Hello, subcommand.deep_view()),
{
    "Hello World\n"
}

/// Handler of `cmd2`: checks that exactly two arguments were given.
pub fn cli_cmd2(subcommand: Vec<String>) -> (r: &'static str)
    ensures
        r@ == command_output(Command::Cmd2, subcommand.deep_view()),
{
    if subcommand.len() == 2 {
        "Correct number of arguments\n"
    } else {
        "Incorrect number of arguments\n"
    }
}


impl Command {
    /// The name under which the command is looked up.
    pub fn name(&self) -> (r: &'static str)
        ensures
            r@ == command_name(*self),
    {
        match self {
            Command::Hello => "hello",
            Command::Cmd2 => "cmd2",
        }
    }

    /// The command's help text.
    pub fn help(&self) -> (r: &'static str)
        ensures
            r@ == command_help(*self),
    {
        match self {
            Command::Hello => "Prints hello world",
            Command::Cmd2 => "Subcommand logic example",
        }
    }

    /// Runs the command's handler on its sub-commands.
    pub fn run(&self, sub_cmds: Vec<String>) -> (r: &'static str)
        ensures
            r@ == command_output(*self, sub_cmds.deep_view()),
    {
        match self {
            Command::Hello => cli_hello(sub_cmds),
            Command::Cmd2 => cli_cmd2(sub_cmds),
        }
    }
}

/// The command table of the shell.
pub fn shell_commands() -> (r: Vec<Command>)
    ensures
        r@ == all_commands(),
{
    let mut r: Vec<Command> = Vec::new();
    r.push(Command::Hello);
    r.push(Command::Cmd2);
    assert(r@ =~= all_commands());
    r
}

/// Looks a command up by name in the command table.
pub fn find_command(cmd: &String) -> (r: Option<SShellCommand<'static>>)
    ensures
        r is None <==> command_named(cmd@) is None,
        r matches Some(c) ==> command_named(cmd@) == Some(c.handler) && c.help@ == command_help(
            c.handler,
        ),
{
    let table = shell_commands();
    let mut i: usize = 0;
    while i < table.len()
        invariant
            table@ == all_commands(),
            0 <= i <= table@.len(),
            forall|j: int| 0 <= j < i ==> command_name(#[trigger] table@[j]) != cmd@,
        decreases table@.len() - i,
    {
        let c = table[i];
        let name = c.name().to_owned();
        if *cmd == name {
            return Some(SShellCommand { handler: c, help: c.help() });
        }
        i = i + 1;
    }
    assert(command_name(table@[0]) != cmd@);
    assert(command_name(table@[1]) != cmd@);
    None
}

/// Builds the help menu from the command table.
pub fn help_menu() -> (r: String)
    ensures
        r@ == menu_text(),
{
    let table = shell_commands();
    let mut buf = "Help Menu\n------------\n".to_owned();
    let mut i: usize = 0;
    while i < table.len()
        invariant
            table@ == all_commands(),
            0 <= i <= table@.len(),
            buf@ == "Help Menu\n------------\n"@ + menu_lines(table@.take(i as int)),
        decreases table@.len() - i,
    {
        let c = table[i];
        buf.append(c.name());
        buf.append(" : ");
        buf.append(c.help());
        buf.append("\n");
        assert(table@.take(i + 1).drop_last() =~= table@.take(i as int));
        i = i + 1;
    }
    assert(table@.take(table@.len() as int) =~= table@);
    buf
}

/// The reply to a command line that has been split into words: the menu,
/// a command's help text, a command's output, or "Key not found".
pub fn reply_to_command(words: &Vec<String>) -> (r: String)
    ensures
        r@ == reply_to_words(words.deep_view()),
{
    let ghost w = words.deep_view();
    let empty = "".to_owned();
    let cmd: &String = if words.len() > 0 { &words[0] } else { &empty };
    if *cmd == "menu".to_owned() {
        return help_menu();
    }
    proof {
        reveal_strlit("");
        reveal_strlit("hello");
        reveal_strlit("cmd2");
    }
    match find_command(cmd) {
        Some(c) => {
            // The empty name belongs to no command, so a command was named.
            assert(""@.len() == 0);
            assert(words.len() > 0);
            if words.len() > 1 && words[1] == "help".to_owned() {
                assert(w.drop_first()[0] == w[1]);
                c.help.to_owned()
            } else {
                let mut sub_cmds: Vec<String> = Vec::new();
                let mut i: usize = 1;
                while i < words.len()
                    invariant
                        w == words.deep_view(),
                        1 <= i <= words@.len(),
                        sub_cmds.deep_view() =~= w.subrange(1, i as int),
                    decreases words@.len() - i,
                {
                    let item = words[i].clone();
                    sub_cmds.push(item);
                    proof {
                        assert(w[i as int] == words@[i as int]@);
                        assert(w.subrange(1, i + 1) =~= w.subrange(1, i as int).push(item@));
                    }
                    i = i + 1;
                }
                assert(w.subrange(1, w.len() as int) =~= w.drop_first());
                c.handler.run(sub_cmds).to_owned()
            }
        },
        None => "Key not found\n".to_owned(),
    }
}

/// Answers the line in the buffer once it ends with a carriage return.
/// Without a carriage return at the end nothing happens and `None` comes
/// back. Otherwise the buffer is emptied, and the line before the carriage
/// return, if it is not empty, is answered: "Not UTF-8 formatted" for bytes
/// that are not UTF-8, else the reply to its words. A line whose words
/// cannot be split is left out.
pub fn process_uart_buffer(uart_buf: &mut Vec<u8>) -> (ret: Option<String>)
    requires
        !holds_unsplittable_line(old(uart_buf)@),
    ensures
        uart_buffer_processed(old(uart_buf)@, final(uart_buf)@, reply_view(ret)),
{
    let mut ret: Option<String> = None;
    let n = uart_buf.len();
    if n > 0 && uart_buf[n - 1] == ASCII_CR_CODE {
        let _ = uart_buf.pop();
        if uart_buf.len() > 0 {
            match str_from_utf8(uart_buf.as_slice()) {
                Some(s) => {
                    proof {
                        encode_utf8_decode_utf8(s@);
                    }
                    let words = split_words(s);
                    match words {
                        Some(words) => {
                            ret = Some(reply_to_command(&words));
                        },
                        None => {},
                    }
                },
                None => {
                    ret = Some("Not UTF-8 formatted\n".to_owned());
                },
            }
        }
        uart_buf.clear();
    }
    ret
}


/// Answers the line in the buffer as `process_uart_buffer` does, after
/// checking that its words can be split; a line with an unclosed quote is
/// reported as an error and the buffer is left as it was.
pub fn poll_uart_buffer(uart_buf: &mut Vec<u8>) -> (r: Result<Option<String>, CliLineError>)
    ensures
        r is Err <==> holds_unsplittable_line(old(uart_buf)@),
        r is Err ==> final(uart_buf)@ == old(uart_buf)@,
        r is Err ==> r == Err::<Option<String>, CliLineError>(CliLineError::MissingClosingQuote),
        quote_free(old(uart_buf)@.drop_last()) ==> r is Ok,
        r matches Ok(ret) ==> uart_buffer_processed(old(uart_buf)@, final(uart_buf)@, reply_view(ret)),
{
    let ghost before = uart_buf@;
    let n = uart_buf.len();
    if n > 1 && uart_buf[n - 1] == ASCII_CR_CODE {
        let _ = uart_buf.pop();
        let splits = match str_from_utf8(uart_buf.as_slice()) {
            Some(s) => {
                proof {
                    encode_utf8_decode_utf8(s@);
                }
                split_words(s).is_some()
            },
            None => true,
        };
        uart_buf.push(ASCII_CR_CODE);
        assert(uart_buf@ =~= before);
        assert(before.drop_last() =~= before.subrange(0, n - 1));
        if !splits {
            return Err(CliLineError::MissingClosingQuote);
        }
    }
    Ok(process_uart_buffer(uart_buf))
}


/// One round of the shell's UART loop: the byte received this round, if
/// any, goes into the buffer, then a finished line is answered.
pub fn uart_poll(uart_buf: &mut Vec<u8>, received: Option<u8>) -> (r: Result<Option<String>, CliLineError>)
    ensures
        ({
            let mid = match received {
                Some(b) => buffered(old(uart_buf)@, b),
                None => old(uart_buf)@,
            };
            &&& r is Err <==> holds_unsplittable_line(mid)
            &&& r is Err ==> final(uart_buf)@ == mid
            &&& r is Err ==> r == Err::<Option<String>, CliLineError>(CliLineError::MissingClosingQuote)
            &&& quote_free(mid.drop_last()) ==> r is Ok
            &&& r matches Ok(ret) ==> uart_buffer_processed(mid, final(uart_buf)@, reply_view(ret))
        }),
{
    match received {
        Some(b) => buffer_uart_byte(b, uart_buf),
        None => {},
    }
    poll_uart_buffer(uart_buf)
}

/// The buffer never holds more than `MAX_UART_BUFFER` bytes: a byte that
/// would overflow it empties it instead.
pub proof fn lemma_buffer_bounded(buf: Seq<u8>, new_byte: u8)
    requires
        buf.len() <= MAX_UART_BUFFER,
    ensures
        buffered(buf, new_byte).len() <= MAX_UART_BUFFER,
{
}

/// The buffer after a run of received bytes, starting from `buf`.
pub open spec fn typed(buf: Seq<u8>, input: Seq<u8>) -> Seq<u8>
    decreases input.len(),
{
    if input.len() == 0 {
        buf
    } else {
        buffered(typed(buf, input.drop_last()), input.last())
    }
}

proof fn lemma_typed_plain(input: Seq<u8>)
    requires
        input.len() <= MAX_UART_BUFFER,
        forall|i: int| 0 <= i < input.len() ==> input[i] != ASCII_DEL_CODE,
    ensures
        typed(Seq::empty(), input) == input,
    decreases input.len(),
{
    if input.len() > 0 {
        lemma_typed_plain(input.drop_last());
        assert(input.drop_last().push(input.last()) =~= input);
    }
}

/// A command typed into an empty buffer and ended by a carriage return is
/// answered with the reply to its line, and not before: every earlier
/// buffer lacks the carriage return, and the buffer is empty afterwards.
pub proof fn lemma_typed_line_answered(line: Seq<u8>)
    requires
        0 < line.len() < MAX_UART_BUFFER,
        forall|i: int|
            0 <= i < line.len() ==> line[i] != ASCII_DEL_CODE && line[i] != ASCII_CR_CODE,
    ensures
        forall|n: int| 0 <= n <= line.len() ==> !ends_with_cr(#[trigger] typed(Seq::empty(), line.take(n))),
        typed(Seq::empty(), line.push(ASCII_CR_CODE)) == line.push(ASCII_CR_CODE),
        ends_with_cr(line.push(ASCII_CR_CODE)),
        uart_buffer_processed(line.push(ASCII_CR_CODE), Seq::empty(), Some(reply_to_line(line))),
{
    assert forall|n: int| 0 <= n <= line.len() implies !ends_with_cr(
        #[trigger] typed(Seq::empty(), line.take(n)),
    ) by {
        lemma_typed_plain(line.take(n));
        if n > 0 {
            assert(line.take(n).last() == line[n - 1]);
        }
    }
    let full = line.push(ASCII_CR_CODE);
    lemma_typed_plain(full);
    assert(full.drop_last() =~= line);
}

/// Asking any command for "help" answers its help text, whatever follows.
pub proof fn lemma_help_answers_help(c: Command, rest: Seq<Seq<char>>)
    ensures
        reply_to_words(seq![command_name(c), help_keyword()] + rest) == command_help(c),
{
    let words = seq![command_name(c), help_keyword()] + rest;
    assert(words[0] == command_name(c));
    assert(words.drop_first()[0] == help_keyword());
    reveal_strlit("menu");
    reveal_strlit("hello");
    reveal_strlit("cmd2");
    assert(menu_keyword()[0] == 'm');
    match c {
        Command::Hello => assert(command_name(c)[0] == 'h'),
        Command::Cmd2 => assert(command_name(c)[0] == 'c'),
    }
    assert(command_name(c) != menu_keyword());
}

/// A line is answered only once its carriage return arrives: bytes other
/// than the carriage return leave a pending line pending.
pub proof fn lemma_reply_waits_for_cr(before: Seq<u8>, after: Seq<u8>)
    requires
        !ends_with_cr(before),
    ensures
        uart_buffer_processed(before, after, None) <==> after == before,
{
}


/// What one round of the echoing shell asks of its caller.
#[derive(PartialEq, Eq, Structural, Clone, Copy, Debug)]
pub enum EchoShellAction {
    /// Nothing to do.
    Idle,
    /// A delete arrived with nothing to delete; the caller reports it.
    NothingToDelete,
    /// The buffer holds a finished line, carriage return removed: write it
    /// back, then empty the buffer if the write succeeded. The flag tells
    /// whether its first word names the `hello` command.
    Echo { command_found: bool },
    /// The line was not UTF-8 and has been dropped.
    Discarded,
}

/// One round of the echoing shell, from the buffer before the round and the
/// byte received in it: the action and the buffer after it.
pub open spec fn spec_echo_shell(before: Seq<u8>, received: Option<u8>) -> (Result<EchoShellAction, CliLineError>, Seq<u8>) {
    if received == Some(ASCII_DEL_CODE) && before.len() == 0 {
        (Ok(EchoShellAction::NothingToDelete), before)
    } else {
        let mid = match received {
            Some(b) => buffered(before, b),
            None => before,
        };
        if !ends_with_cr(mid) {
            (Ok(EchoShellAction::Idle), mid)
        } else if mid.len() == 1 {
            (Ok(EchoShellAction::Idle), Seq::empty())
        } else {
            let line = mid.drop_last();
            if !valid_utf8(line) {
                (Ok(EchoShellAction::Discarded), Seq::empty())
            } else {
                match shell_split(decode_utf8(line)) {
                    None => (Err(CliLineError::MissingClosingQuote), mid),
                    Some(words) => if words.len() == 0 {
                        (Err(CliLineError::NoCommand), mid)
                    } else {
                        (
                            Ok(
                                EchoShellAction::Echo {
                                    command_found: words[0] == command_name(Command::Hello),
                                },
                            ),
                            line,
                        )
                    },
                }
            }
        }
    }
}

/// One round of the echoing shell: the received byte goes into the buffer
/// (a delete with nothing to delete is reported instead); a finished line
/// loses its carriage return and is echoed, with a note of whether it names
/// the `hello` command, or dropped when it is not UTF-8. A line with an
/// unclosed quote, or with no word at all, has no command to look up and is
/// reported as an error, the buffer left holding it.
pub fn echo_shell_poll(uart_buf: &mut Vec<u8>, received: Option<u8>) -> (r: Result<EchoShellAction, CliLineError>)
    ensures
        r == spec_echo_shell(old(uart_buf)@, received).0,
        final(uart_buf)@ == spec_echo_shell(old(uart_buf)@, received).1,
        ({
            let mid = match received {
                Some(b) => buffered(old(uart_buf)@, b),
                None => old(uart_buf)@,
            };
            quote_free(mid.drop_last()) ==> r != Err::<EchoShellAction, CliLineError>(
                CliLineError::MissingClosingQuote,
            )
        }),
{
    match received {
        Some(b) => {
            if b == ASCII_DEL_CODE && uart_buf.len() == 0 {
                return Ok(EchoShellAction::NothingToDelete);
            }
            buffer_uart_byte(b, uart_buf);
        },
        None => {},
    }
    let ghost mid = uart_buf@;
    let n = uart_buf.len();
    if !(n > 0 && uart_buf[n - 1] == ASCII_CR_CODE) {
        return Ok(EchoShellAction::Idle);
    }
    let _ = uart_buf.pop();
    if uart_buf.len() == 0 {
        return Ok(EchoShellAction::Idle);
    }
    assert(uart_buf@ == mid.drop_last());
    let outcome = match str_from_utf8(uart_buf.as_slice()) {
        None => None,
        Some(s) => {
            proof {
                encode_utf8_decode_utf8(s@);
            }
            match split_words(s) {
                None => Some(Err(CliLineError::MissingClosingQuote)),
                Some(words) => {
                    if words.len() == 0 {
                        Some(Err(CliLineError::NoCommand))
                    } else {
                        let found = words[0] == "hello".to_owned();
                        assert(words.deep_view()[0] == words@[0]@);
                        Some(Ok(EchoShellAction::Echo { command_found: found }))
                    }
                },
            }
        },
    };
    match outcome {
        None => {
            uart_buf.clear();
            Ok(EchoShellAction::Discarded)
        },
        Some(Err(e)) => {
            uart_buf.push(ASCII_CR_CODE);
            assert(uart_buf@ =~= mid);
            Err(e)
        },
        Some(Ok(action)) => Ok(action),
    }
}


/// `cmd2` accepts exactly two arguments: given any sub-commands whose first
/// is not "help", it answers "Correct number of arguments" when there are
/// exactly two and "Incorrect number of arguments" otherwise, both as the
/// handler's output and as the reply to the whole command line.
pub proof fn lemma_cmd2_takes_two_arguments(sub_cmds: Seq<Seq<char>>)
    ensures
        sub_cmds.len() == 2 ==> command_output(Command::Cmd2, sub_cmds)
            == "Correct number of arguments\n"@,
        sub_cmds.len() != 2 ==> command_output(Command::Cmd2, sub_cmds)
            == "Incorrect number of arguments\n"@,
        (sub_cmds.len() == 0 || sub_cmds[0] != "help"@) ==> reply_to_words(
            seq!["cmd2"@] + sub_cmds,
        ) == if sub_cmds.len() == 2 {
            "Correct number of arguments\n"@
        } else {
            "Incorrect number of arguments\n"@
        },
{
    let words = seq!["cmd2"@] + sub_cmds;
    assert(words[0] == "cmd2"@);
    assert(words.drop_first() =~= sub_cmds);
    reveal_strlit("cmd2");
    reveal_strlit("menu");
    reveal_strlit("hello");
    assert("cmd2"@[0] == 'c');
    assert("menu"@[0] == 'm');
    assert("cmd2"@ != "menu"@);
    assert("cmd2"@ != "hello"@);
}

/// A delete removes exactly one byte: on a non-empty buffer the result is the
/// buffer without its last byte, one byte shorter; an empty buffer stays
/// empty. Any other byte is appended while the buffer has room.
pub proof fn lemma_delete_removes_one_byte(buf: Seq<u8>, b: u8)
    ensures
        buf.len() > 0 ==> buffered(buf, 8) == buf.subrange(0, buf.len() - 1),
        buf.len() > 0 ==> buffered(buf, 8).len() + 1 == buf.len(),
        buf.len() == 0 ==> buffered(buf, 8).len() == 0,
        b != 8 && buf.len() < 100 ==> buffered(buf, b).len() == buf.len() + 1
            && buffered(buf, b).last() == b
            && buffered(buf, b).subrange(0, buf.len() as int) == buf,
{
    if b != 8 && buf.len() < 100 {
        assert(buf.push(b).subrange(0, buf.len() as int) =~= buf);
    }
}

/// The echoing shell reports a delete with nothing to delete only on an
/// empty buffer. On a non-empty buffer a delete removes its last byte; when
/// what is left is not a finished line, the round is idle and the buffer is
/// the old one less its last byte.
pub proof fn lemma_echo_shell_delete(before: Seq<u8>)
    ensures
        spec_echo_shell(before, Some(8u8)).0 == Ok::<EchoShellAction, CliLineError>(
            EchoShellAction::NothingToDelete,
        ) <==> before.len() == 0,
        before.len() > 0 && !(before.len() > 1 && before[before.len() - 2] == 13u8) ==> spec_echo_shell(
            before,
            Some(8u8),
        ).0 == Ok::<EchoShellAction, CliLineError>(EchoShellAction::Idle),
        before.len() > 0 && !(before.len() > 1 && before[before.len() - 2] == 13u8) ==> spec_echo_shell(
            before,
            Some(8u8),
        ).1 == before.subrange(0, before.len() - 1),
{
    if before.len() > 0 {
        let mid = before.drop_last();
        assert(buffered(before, 8) == mid);
        if mid.len() > 0 {
            assert(mid.last() == before[before.len() - 2]);
        }
        let r = spec_echo_shell(before, Some(8u8));
        if !ends_with_cr(mid) {
            assert(r.0 == Ok::<EchoShellAction, CliLineError>(EchoShellAction::Idle));
        } else if mid.len() == 1 {
            assert(r.0 == Ok::<EchoShellAction, CliLineError>(EchoShellAction::Idle));
        }
    }
}


/// `hello` answers "Hello World" whatever its arguments, unless the first
/// asks for help; a first word that names no command, and is not "menu",
/// is answered "Key not found".
pub proof fn lemma_hello_and_unknown(sub_cmds: Seq<Seq<char>>, word: Seq<char>)
    ensures
        (sub_cmds.len() == 0 || sub_cmds[0] != "help"@) ==> reply_to_words(
            seq!["hello"@] + sub_cmds,
        ) == "Hello World\n"@,
        word != "hello"@ && word != "cmd2"@ && word != "menu"@ ==> reply_to_words(
            seq![word] + sub_cmds,
        ) == "Key not found\n"@,
        reply_to_words(Seq::empty()) == "Key not found\n"@,
{
    let words = seq!["hello"@] + sub_cmds;
    assert(words[0] == "hello"@);
    assert(words.drop_first() =~= sub_cmds);
    let other = seq![word] + sub_cmds;
    assert(other[0] == word);
    reveal_strlit("hello");
    reveal_strlit("menu");
    reveal_strlit("");
    reveal_strlit("cmd2");
    assert("hello"@.len() == 5);
    assert("menu"@.len() == 4);
    assert("cmd2"@.len() == 4);
    assert(""@.len() == 0);
    let empty: Seq<Seq<char>> = Seq::empty();
    assert(reply_to_words(empty) == "Key not found\n"@) by {
        assert(""@ != "menu"@);
        assert(command_named(""@) is None);
    }
}

} // verus!
