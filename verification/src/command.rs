//! The commands that a session carries out.

use vstd::prelude::*;

verus! {

/// One request of the person at the prompt.
#[derive(Clone, Debug, PartialEq, Eq)]
pub enum Command {
    /// Give up the machine.
    UnsetInterpreter,
    /// Make a machine with this geometry.
    SetInterpreter { arch_length: usize, arch_width: usize },
    /// Show the machine's geometry.
    InfosInterpreter,
    /// Show the machine's registers and memory.
    Infos,
    /// Load the program in the named file; the flag asks for its newline
    /// bytes to be dropped.
    Copy(String, bool),
    /// Clear the registers.
    Reset,
    /// Run for up to this many instructions.
    Step(usize),
    /// Do again what was done last.
    Repeat,
    /// Leave.
    Exit,
}

/// A command, as mathematical values.
pub enum CommandView {
    UnsetInterpreter,
    SetInterpreter { arch_length: nat, arch_width: nat },
    InfosInterpreter,
    Infos,
    Copy(Seq<char>, bool),
    Reset,
    Step(nat),
    Repeat,
    Exit,
}

impl View for Command {
    type V = CommandView;

    open spec fn view(&self) -> CommandView {
        match *self {
            Command::UnsetInterpreter => CommandView::UnsetInterpreter,
            Command::SetInterpreter { arch_length, arch_width } => CommandView::SetInterpreter {
                arch_length: arch_length as nat,
                arch_width: arch_width as nat,
            },
            Command::InfosInterpreter => CommandView::InfosInterpreter,
            Command::Infos => CommandView::Infos,
            Command::Copy(name, ignore_newlines) => CommandView::Copy(name@, ignore_newlines),
            Command::Reset => CommandView::Reset,
            Command::Step(count) => CommandView::Step(count as nat),
            Command::Repeat => CommandView::Repeat,
            Command::Exit => CommandView::Exit,
        }
    }
}

/// The characters that part the words of a line.
pub open spec fn is_blank(c: char) -> bool {
    c == ' ' || c == '\t'
}

/// The words of `line`, in order: the longest runs of characters that are not
/// blank. Read from the left, a character that is not blank either goes on
/// with the word before it or, after a blank or at the start, begins a word.
pub open spec fn words_of(line: Seq<char>) -> Seq<Seq<char>>
    decreases line.len(),
{
    if line.len() == 0 {
        seq![]
    } else {
        let before = words_of(line.drop_last());
        if is_blank(line.last()) {
            before
        } else if line.len() >= 2 && !is_blank(line[line.len() - 2]) {
            before.drop_last().push(before.last().push(line.last()))
        } else {
            before.push(seq![line.last()])
        }
    }
}

/// Whether `c` is a decimal digit.
pub open spec fn is_digit(c: char) -> bool {
    '0' <= c <= '9'
}

/// The number that the digits of `word` write in base ten.
pub open spec fn decimal(word: Seq<char>) -> nat
    decreases word.len(),
{
    if word.len() == 0 {
        0
    } else {
        decimal(word.drop_last()) * 10 + (word.last() as nat - '0' as nat) as nat
    }
}

/// The count that `word` stands for: it is made of digits only, at least
/// one, and the number fits the machine's word.
pub open spec fn number_of(word: Seq<char>) -> Option<usize> {
    if word.len() > 0 && (forall|i: int| 0 <= i < word.len() ==> is_digit(#[trigger] word[i]))
        && decimal(word) <= usize::MAX {
        Some(decimal(word) as usize)
    } else {
        None
    }
}

/// The command that a line of one word asks for.
pub open spec fn command_of_one(word: Seq<char>) -> Option<CommandView> {
    if word == "exit"@ || word == "quit"@ || word == "e"@ || word == "q"@ {
        Some(CommandView::Exit)
    } else if word == "unset_interpreter"@ || word == "unsetinter"@ || word == "unsetint"@ {
        Some(CommandView::UnsetInterpreter)
    } else if word == "interpreter"@ || word == "inter"@ {
        Some(CommandView::InfosInterpreter)
    } else if word == "infos"@ || word == "info"@ || word == "i"@ {
        Some(CommandView::Infos)
    } else if word == "reset"@ || word == "r"@ {
        Some(CommandView::Reset)
    } else if word == "step"@ || word == "next"@ || word == "s"@ || word == "n"@ {
        Some(CommandView::Step(1))
    } else {
        None
    }
}

/// The command that a line of two words asks for.
pub open spec fn command_of_two(word: Seq<char>, argument: Seq<char>) -> Option<CommandView> {
    if word == "load"@ || word == "copy"@ {
        Some(CommandView::Copy(argument, true))
    } else if word == "step"@ || word == "next"@ || word == "s"@ || word == "n"@ {
        match number_of(argument) {
            Some(count) => Some(CommandView::Step(count as nat)),
            None => None,
        }
    } else {
        None
    }
}

/// The command that a line of three words asks for.
pub open spec fn command_of_three(word: Seq<char>, first: Seq<char>, second: Seq<char>) -> Option<
    CommandView,
> {
    if word == "set_interpreter"@ || word == "interpreter"@ || word == "setint"@ {
        match (number_of(first), number_of(second)) {
            (Some(arch_length), Some(arch_width)) => Some(
                CommandView::SetInterpreter {
                    arch_length: arch_length as nat,
                    arch_width: arch_width as nat,
                },
            ),
            _ => None,
        }
    } else {
        None
    }
}

/// The command that `line` asks for, if it asks for one. A line without a
/// word asks to repeat the last command.
pub open spec fn command_of(line: Seq<char>) -> Option<CommandView> {
    let words = words_of(line);
    if words.len() == 0 {
        Some(CommandView::Repeat)
    } else if words.len() == 1 {
        command_of_one(words[0])
    } else if words.len() == 2 {
        command_of_two(words[0], words[1])
    } else if words.len() == 3 {
        command_of_three(words[0], words[1], words[2])
    } else {
        None
    }
}

/// What is said of a line that asks for no command.
pub open spec fn parse_failure() -> Seq<char> {
    "Unable to parse command"@
}

/// Each word as the characters it is made of.
pub open spec fn texts(words: Seq<&str>) -> Seq<Seq<char>> {
    words.map_values(|word: &str| word@)
}

/// A longer line of digits writes a number that is at least as large.
proof fn lemma_decimal_grows(word: Seq<char>, shorter: int)
    requires
        0 <= shorter <= word.len(),
    ensures
        decimal(word.take(shorter)) <= decimal(word),
    decreases word.len(),
{
    if shorter == word.len() {
        assert(word.take(shorter) == word);
    } else {
        lemma_decimal_grows(word.drop_last(), shorter);
        assert(word.drop_last().take(shorter) == word.take(shorter));
    }
}

/// Cuts `line` into its words.
pub fn split_words<'a>(line: &'a str) -> (words: Vec<&'a str>)
    ensures
        texts(words@) == words_of(line@),
{
    let length = line.unicode_len();
    let mut words: Vec<&'a str> = Vec::new();
    let mut start: usize = 0;
    let mut inside = false;
    let mut i: usize = 0;
    while i < length
        invariant
            length == line@.len(),
            i <= length,
            start <= i,
            inside <==> i > 0 && !is_blank(line@[i - 1]),
            inside ==> start < i,
            inside ==> words_of(line@.take(i as int)).len() > 0,
            inside ==> texts(words@) == words_of(line@.take(i as int)).drop_last(),
            inside ==> words_of(line@.take(i as int)).last() == line@.subrange(
                start as int,
                i as int,
            ),
            !inside ==> texts(words@) == words_of(line@.take(i as int)),
        decreases length - i,
    {
        let c = line.get_char(i);
        let blank = c == ' ' || c == '\t';
        proof {
            let longer = line@.take(i + 1);
            assert(longer.drop_last() == line@.take(i as int));
            assert(longer.last() == c);
            if i > 0 {
                assert(longer[longer.len() - 2] == line@[i - 1]);
            }
            if !blank && inside {
                assert(line@.subrange(start as int, i as int).push(c) == line@.subrange(
                    start as int,
                    i + 1,
                ));
                let before = words_of(line@.take(i as int));
                assert(before.drop_last().push(before.last().push(c)).drop_last()
                    == before.drop_last());
            }
            if !blank && !inside {
                let before = words_of(line@.take(i as int));
                assert(before.push(seq![c]).drop_last() == before);
                assert(line@.subrange(i as int, i + 1) == seq![c]);
            }
        }
        if blank {
            if inside {
                let ghost before = words@;
                words.push(line.substring_char(start, i));
                proof {
                    let done = words_of(line@.take(i as int));
                    assert(texts(words@) == texts(before).push(line@.subrange(
                        start as int,
                        i as int,
                    )));
                    assert(done == done.drop_last().push(done.last()));
                }
                inside = false;
            }
        } else {
            if !inside {
                start = i;
                inside = true;
            }
        }
        i = i + 1;
    }
    proof {
        assert(line@.take(length as int) == line@);
    }
    if inside {
        let ghost before = words@;
        words.push(line.substring_char(start, length));
        proof {
            let done = words_of(line@);
            assert(texts(words@) == texts(before).push(line@.subrange(
                start as int,
                length as int,
            )));
            assert(done == done.drop_last().push(done.last()));
        }
    }
    words
}

/// Whether `word` is written exactly as `text`.
fn is_text(word: &str, text: &str) -> (same: bool)
    ensures
        same == (word@ == text@),
{
    String::from_str(word) == String::from_str(text)
}

/// Reads `word` as a count in base ten.
pub fn parse_number(word: &str) -> (number: Option<usize>)
    ensures
        number == number_of(word@),
{
    let length = word.unicode_len();
    if length == 0 {
        return None;
    }
    let mut value: usize = 0;
    let mut i: usize = 0;
    while i < length
        invariant
            length == word@.len(),
            i <= length,
            forall|k: int| 0 <= k < i ==> is_digit(#[trigger] word@[k]),
            value == decimal(word@.take(i as int)),
        decreases length - i,
    {
        let c = word.get_char(i);
        if !('0' <= c && c <= '9') {
            return None;
        }
        let digit = (c as u32 - '0' as u32) as usize;
        proof {
            let longer = word@.take(i + 1);
            assert(longer.drop_last() == word@.take(i as int));
            assert(longer.last() == c);
            lemma_decimal_grows(word@, i + 1);
        }
        let tens = match value.checked_mul(10) {
            Some(tens) => tens,
            None => {
                return None;
            },
        };
        value = match tens.checked_add(digit) {
            Some(sum) => sum,
            None => {
                return None;
            },
        };
        i = i + 1;
    }
    proof {
        assert(word@.take(length as int) == word@);
    }
    Some(value)
}

/// The command of a line of one word.
fn parse_one(word: &str) -> (command: Option<Command>)
    ensures
        match command {
            Some(command) => command_of_one(word@) == Some(command@),
            None => command_of_one(word@) is None,
        },
{
    if is_text(word, "exit") || is_text(word, "quit") || is_text(word, "e") || is_text(word, "q") {
        Some(Command::Exit)
    } else if is_text(word, "unset_interpreter") || is_text(word, "unsetinter") || is_text(
        word,
        "unsetint",
    ) {
        Some(Command::UnsetInterpreter)
    } else if is_text(word, "interpreter") || is_text(word, "inter") {
        Some(Command::InfosInterpreter)
    } else if is_text(word, "infos") || is_text(word, "info") || is_text(word, "i") {
        Some(Command::Infos)
    } else if is_text(word, "reset") || is_text(word, "r") {
        Some(Command::Reset)
    } else if is_text(word, "step") || is_text(word, "next") || is_text(word, "s") || is_text(
        word,
        "n",
    ) {
        Some(Command::Step(1))
    } else {
        None
    }
}

/// The command of a line of two words.
fn parse_two(word: &str, argument: &str) -> (command: Option<Command>)
    ensures
        match command {
            Some(command) => command_of_two(word@, argument@) == Some(command@),
            None => command_of_two(word@, argument@) is None,
        },
{
    if is_text(word, "load") || is_text(word, "copy") {
        Some(Command::Copy(String::from_str(argument), true))
    } else if is_text(word, "step") || is_text(word, "next") || is_text(word, "s") || is_text(
        word,
        "n",
    ) {
        match parse_number(argument) {
            Some(count) => Some(Command::Step(count)),
            None => None,
        }
    } else {
        None
    }
}

/// The command of a line of three words.
fn parse_three(word: &str, first: &str, second: &str) -> (command: Option<Command>)
    ensures
        match command {
            Some(command) => command_of_three(word@, first@, second@) == Some(command@),
            None => command_of_three(word@, first@, second@) is None,
        },
{
    if is_text(word, "set_interpreter") || is_text(word, "interpreter") || is_text(
        word,
        "setint",
    ) {
        match (parse_number(first), parse_number(second)) {
            (Some(arch_length), Some(arch_width)) => Some(
                Command::SetInterpreter { arch_length, arch_width },
            ),
            _ => None,
        }
    } else {
        None
    }
}

/// Reads a line typed at the prompt. The words of the line are parted by
/// blanks; the first names the command and the others are its arguments. A
/// line without a word asks to repeat the last command, and a line that is
/// no command is turned down with a message.
pub fn parse_command(line: &str) -> (parsed: Result<Command, String>)
    ensures
        match parsed {
            Ok(command) => command_of(line@) == Some(command@),
            Err(message) => command_of(line@) is None && message@ == parse_failure(),
        },
{
    let words = split_words(line);
    assert(texts(words@).len() == words@.len());
    let command = if words.len() == 0 {
        Some(Command::Repeat)
    } else if words.len() == 1 {
        assert(texts(words@)[0] == words@[0]@);
        parse_one(words[0])
    } else if words.len() == 2 {
        assert(texts(words@)[0] == words@[0]@);
        assert(texts(words@)[1] == words@[1]@);
        parse_two(words[0], words[1])
    } else if words.len() == 3 {
        assert(texts(words@)[0] == words@[0]@);
        assert(texts(words@)[1] == words@[1]@);
        assert(texts(words@)[2] == words@[2]@);
        parse_three(words[0], words[1], words[2])
    } else {
        None
    };
    match command {
        Some(command) => Ok(command),
        None => Err(String::from_str("Unable to parse command")),
    }
}

} // verus!
