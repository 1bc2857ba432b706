//! The chunks that hand a command to the loaded script, and what the runtime reads out
//! of them.
//!
//! A command and its arguments are text that somebody typed. They reach the script as
//! string literals inside a chunk of the script's language, so whatever stands in them
//! has to stay inside its literal. [`law_call_is_read_back`] says that it does: the chunk
//! written for a name and a list of arguments reads as one call with that name and
//! that list, whatever characters they hold.

use vstd::prelude::*;
use vstd::string::*;

verus! {

/// How one character is written inside a string literal: a backslash, a double quote, a
/// line feed and a carriage return by their escapes, any other character as itself.
pub open spec fn escaped_char(c: char) -> Seq<char> {
    if c == '\\' {
        seq!['\\', '\\']
    } else if c == '"' {
        seq!['\\', '"']
    } else if c == '\n' {
        seq!['\\', 'n']
    } else if c == '\r' {
        seq!['\\', 'r']
    } else {
        seq![c]
    }
}

/// `text` as it is written inside a string literal.
pub open spec fn escaped(text: Seq<char>) -> Seq<char>
    decreases text.len(),
{
    if text.len() == 0 {
        Seq::empty()
    } else {
        escaped_char(text[0]) + escaped(text.skip(1))
    }
}

/// `text` as a string literal: escaped, between double quotes.
pub open spec fn quoted(text: Seq<char>) -> Seq<char> {
    seq!['"'] + escaped(text) + seq!['"']
}

/// The items of `arguments`, each as a string literal, with a comma and a blank between
/// two of them.
pub open spec fn joined(arguments: Seq<Seq<char>>) -> Seq<char>
    decreases arguments.len(),
{
    if arguments.len() == 0 {
        Seq::empty()
    } else if arguments.len() == 1 {
        quoted(arguments[0])
    } else {
        quoted(arguments[0]) + seq![',', ' '] + joined(arguments.skip(1))
    }
}

/// `arguments` written as a table of strings in the script's language.
pub open spec fn argument_table(arguments: Seq<Seq<char>>) -> Seq<char> {
    seq!['{'] + joined(arguments) + seq!['}']
}

/// The views of `items`, in order.
pub open spec fn texts(items: Seq<String>) -> Seq<Seq<char>> {
    Seq::new(items.len(), |i: int| items[i]@)
}

/// The chunk that calls the command hook of the loaded script with the name `command`
/// and the list `arguments`.
pub open spec fn command_call(command: Seq<char>, arguments: Seq<Seq<char>>) -> Seq<char> {
    "MANAGER.call_command("@ + quoted(command) + seq![',', ' '] + argument_table(arguments)
        + seq![')']
}

/// The character that a backslash and `code` stand for inside a string literal, for the
/// escapes that this module writes.
pub open spec fn escape_meaning(code: char) -> Option<char> {
    if code == '\\' {
        Some('\\')
    } else if code == '"' {
        Some('"')
    } else if code == 'n' {
        Some('\n')
    } else if code == 'r' {
        Some('\r')
    } else {
        None
    }
}

/// Reads the inside of a string literal, from behind its opening quote up to its closing
/// quote: the text that the literal stands for, and what follows the closing quote.
/// A literal ends at the first double quote that no backslash stands before; a line
/// break inside it, or an end without a closing quote, is no literal.
pub open spec fn read_literal_body(source: Seq<char>) -> Option<(Seq<char>, Seq<char>)>
    decreases source.len(),
{
    if source.len() == 0 {
        None
    } else if source[0] == '"' {
        Some((Seq::empty(), source.skip(1)))
    } else if source[0] == '\n' || source[0] == '\r' {
        None
    } else if source[0] == '\\' {
        if source.len() < 2 {
            None
        } else {
            match (escape_meaning(source[1]), read_literal_body(source.skip(2))) {
                (Some(c), Some((text, rest))) => Some((seq![c] + text, rest)),
                _ => None,
            }
        }
    } else {
        match read_literal_body(source.skip(1)) {
            Some((text, rest)) => Some((seq![source[0]] + text, rest)),
            None => None,
        }
    }
}

/// Reads a string literal at the start of `source`: its text, and what follows it.
pub open spec fn read_literal(source: Seq<char>) -> Option<(Seq<char>, Seq<char>)> {
    if source.len() > 0 && source[0] == '"' {
        read_literal_body(source.skip(1))
    } else {
        None
    }
}

/// Reads the items of a table that has at least one, up to and with its closing brace:
/// the items, and what follows the brace.
pub open spec fn read_items(source: Seq<char>) -> Option<(Seq<Seq<char>>, Seq<char>)>
    decreases source.len(),
{
    match read_literal(source) {
        None => None,
        Some((text, rest)) => if rest.len() >= source.len() {
            None
        } else if rest.len() > 0 && rest[0] == '}' {
            Some((seq![text], rest.skip(1)))
        } else if rest.len() >= 2 && rest[0] == ',' && rest[1] == ' ' {
            match read_items(rest.skip(2)) {
                Some((more, after)) => Some((seq![text] + more, after)),
                None => None,
            }
        } else {
            None
        },
    }
}

/// Reads a table of strings at the start of `source`: its items, and what follows it.
pub open spec fn read_table(source: Seq<char>) -> Option<(Seq<Seq<char>>, Seq<char>)> {
    if source.len() < 2 || source[0] != '{' {
        None
    } else if source[1] == '}' {
        Some((Seq::empty(), source.skip(2)))
    } else {
        read_items(source.skip(1))
    }
}

/// Reads a whole chunk as one call of the command hook: the name and the arguments that
/// the hook is called with. A chunk of any other shape is no such call.
pub open spec fn read_call(chunk: Seq<char>) -> Option<(Seq<char>, Seq<Seq<char>>)> {
    let hook = "MANAGER.call_command("@;
    if chunk.len() < hook.len() || chunk.subrange(0, hook.len() as int) != hook {
        None
    } else {
        match read_literal(chunk.skip(hook.len() as int)) {
            None => None,
            Some((command, rest)) => if rest.len() >= 2 && rest[0] == ',' && rest[1] == ' ' {
                match read_table(rest.skip(2)) {
                    Some((arguments, end)) => if end == seq![')'] {
                        Some((command, arguments))
                    } else {
                        None
                    },
                    None => None,
                }
            } else {
                None
            },
        }
    }
}

/// Escaping a text with one more character at its end adds that character's escape at
/// the end.
proof fn lemma_escaped_push(text: Seq<char>, c: char)
    ensures
        escaped(text.push(c)) == escaped(text) + escaped_char(c),
    decreases text.len(),
{
    let longer = text.push(c);
    if text.len() == 0 {
        assert(longer.skip(1) =~= Seq::empty());
        assert(escaped(longer.skip(1)) =~= Seq::empty());
        assert(escaped(longer) =~= escaped_char(c));
    } else {
        assert(longer.skip(1) =~= text.skip(1).push(c));
        lemma_escaped_push(text.skip(1), c);
        assert(escaped(longer) =~= escaped(text) + escaped_char(c));
    }
}

/// Joining a list with one more item at its end adds that item's literal at the end,
/// after a comma and a blank where the list was not empty.
proof fn lemma_joined_push(arguments: Seq<Seq<char>>, last: Seq<char>)
    ensures
        joined(arguments.push(last)) == if arguments.len() == 0 {
            quoted(last)
        } else {
            joined(arguments) + seq![',', ' '] + quoted(last)
        },
    decreases arguments.len(),
{
    let longer = arguments.push(last);
    if arguments.len() == 0 {
        assert(longer[0] == last);
    } else {
        assert(longer[0] == arguments[0]);
        assert(longer.skip(1) =~= arguments.skip(1).push(last));
        lemma_joined_push(arguments.skip(1), last);
        if arguments.len() == 1 {
            assert(arguments.skip(1).len() == 0);
            assert(joined(longer) =~= joined(arguments) + seq![',', ' '] + quoted(last));
        } else {
            assert(joined(longer) =~= joined(arguments) + seq![',', ' '] + quoted(last));
        }
    }
}

/// Whatever a text holds, it stays inside its literal: the escaped text, a closing quote
/// and anything after that read as exactly that text, followed by exactly what came
/// after the quote.
pub proof fn law_literal_body_is_read_back(text: Seq<char>, rest: Seq<char>)
    ensures
        read_literal_body(escaped(text) + seq!['"'] + rest) == Some((text, rest)),
    decreases text.len(),
{
    let source = escaped(text) + seq!['"'] + rest;
    if text.len() == 0 {
        assert(source.skip(1) =~= rest);
        assert(text =~= Seq::empty());
    } else {
        let c = text[0];
        let tail = text.skip(1);
        let after = escaped(tail) + seq!['"'] + rest;
        law_literal_body_is_read_back(tail, rest);
        if c == '\\' || c == '"' || c == '\n' || c == '\r' {
            assert(source[0] == '\\');
            assert(escape_meaning(source[1]) == Some(c));
            assert(source.skip(2) =~= after);
        } else {
            assert(source[0] == c);
            assert(source.skip(1) =~= after);
        }
        assert(seq![c] + tail =~= text);
    }
}

/// A string literal followed by anything reads as the text it was written for, followed
/// by that.
pub proof fn law_literal_is_read_back(text: Seq<char>, rest: Seq<char>)
    ensures
        read_literal(quoted(text) + rest) == Some((text, rest)),
        (quoted(text) + rest).len() > rest.len(),
{
    let source = quoted(text) + rest;
    assert(source.skip(1) =~= escaped(text) + seq!['"'] + rest);
    law_literal_body_is_read_back(text, rest);
}

/// The items of a table read as the list they were written for.
proof fn lemma_items_are_read_back(arguments: Seq<Seq<char>>, rest: Seq<char>)
    requires
        arguments.len() > 0,
    ensures
        read_items(joined(arguments) + seq!['}'] + rest) == Some((arguments, rest)),
    decreases arguments.len(),
{
    let source = joined(arguments) + seq!['}'] + rest;
    let first = arguments[0];
    if arguments.len() == 1 {
        let after = seq!['}'] + rest;
        assert(source =~= quoted(first) + after);
        law_literal_is_read_back(first, after);
        assert(after.skip(1) =~= rest);
        assert(seq![first] =~= arguments);
    } else {
        let others = arguments.skip(1);
        let after = seq![',', ' '] + (joined(others) + seq!['}'] + rest);
        assert(source =~= quoted(first) + after);
        law_literal_is_read_back(first, after);
        assert(after.skip(2) =~= joined(others) + seq!['}'] + rest);
        lemma_items_are_read_back(others, rest);
        assert(seq![first] + others =~= arguments);
    }
}

/// A table followed by anything reads as the list it was written for, followed by that.
pub proof fn law_table_is_read_back(arguments: Seq<Seq<char>>, rest: Seq<char>)
    ensures
        read_table(argument_table(arguments) + rest) == Some((arguments, rest)),
{
    let source = argument_table(arguments) + rest;
    if arguments.len() == 0 {
        assert(source.skip(2) =~= rest);
        assert(arguments =~= Seq::empty());
    } else {
        assert(joined(arguments)[0] == '"');
        assert(source[1] == '"');
        assert(source.skip(1) =~= joined(arguments) + seq!['}'] + rest);
        lemma_items_are_read_back(arguments, rest);
    }
}

/// The name and the whole list reach the hook unchanged, and nothing else is run: the
/// chunk written for a command and its arguments reads as one call of the hook, with
/// that name and with those arguments, as many as there were and in their order,
/// whatever quotes, backslashes, line breaks or pieces of script they hold.
pub proof fn law_call_is_read_back(command: Seq<char>, arguments: Seq<Seq<char>>)
    ensures
        read_call(command_call(command, arguments)) == Some((command, arguments)),
{
    let hook = "MANAGER.call_command("@;
    let chunk = command_call(command, arguments);
    let after_command = seq![',', ' '] + (argument_table(arguments) + seq![')']);
    assert(chunk.subrange(0, hook.len() as int) =~= hook);
    assert(chunk.skip(hook.len() as int) =~= quoted(command) + after_command);
    law_literal_is_read_back(command, after_command);
    assert(after_command.skip(2) =~= argument_table(arguments) + seq![')']);
    law_table_is_read_back(arguments, seq![')']);
}

/// `String::push`: appends `c` to `text`.
#[verifier::external_body]
fn push_char(text: &mut String, c: char)
    ensures
        final(text)@ == old(text)@.push(c),
{
    text.push(c)
}

/// Appends `text` to `out` as it is written inside a string literal.
fn append_escaped(out: &mut String, text: &str)
    ensures
        final(out)@ == old(out)@ + escaped(text@),
{
    let ghost before = out@;
    assert(text@.take(0) =~= Seq::empty());
    for c in chars: text.chars()
        invariant
            chars.seq() == text@,
            out@ == before + escaped(text@.take(chars.index() as int)),
    {
        proof {
            let done = text@.take(chars.index() as int);
            assert(text@.take(chars.index() + 1) =~= done.push(c));
            lemma_escaped_push(done, c);
        }
        if c == '\\' {
            push_char(out, '\\');
            push_char(out, '\\');
        } else if c == '"' {
            push_char(out, '\\');
            push_char(out, '"');
        } else if c == '\n' {
            push_char(out, '\\');
            push_char(out, 'n');
        } else if c == '\r' {
            push_char(out, '\\');
            push_char(out, 'r');
        } else {
            push_char(out, c);
        }
        assert(out@ =~= before + escaped(text@.take(chars.index() + 1)));
    }
    assert(text@.take(text@.len() as int) =~= text@);
}

/// Appends `text` to `out` as a string literal.
fn append_quoted(out: &mut String, text: &str)
    ensures
        final(out)@ == old(out)@ + quoted(text@),
{
    let ghost before = out@;
    push_char(out, '"');
    append_escaped(out, text);
    push_char(out, '"');
    assert(out@ =~= before + quoted(text@));
}

/// Appends `arguments` to `out` as a table of strings.
fn append_table(out: &mut String, arguments: &Vec<String>)
    ensures
        final(out)@ == old(out)@ + argument_table(texts(arguments@)),
{
    let ghost before = out@;
    push_char(out, '{');
    let mut i: usize = 0;
    assert(texts(arguments@).take(0) =~= Seq::empty());
    while i < arguments.len()
        invariant
            i <= arguments.len(),
            out@ == before + seq!['{'] + joined(texts(arguments@).take(i as int)),
        decreases arguments.len() - i,
    {
        let ghost done = texts(arguments@).take(i as int);
        proof {
            assert(texts(arguments@).take(i + 1) =~= done.push(arguments@[i as int]@));
            lemma_joined_push(done, arguments@[i as int]@);
        }
        if i > 0 {
            push_char(out, ',');
            push_char(out, ' ');
        }
        append_quoted(out, arguments[i].as_str());
        assert(out@ =~= before + seq!['{'] + joined(texts(arguments@).take(i + 1)));
        i += 1;
    }
    assert(texts(arguments@).take(arguments@.len() as int) =~= texts(arguments@));
    push_char(out, '}');
    assert(out@ =~= before + argument_table(texts(arguments@)));
}

/// Writes `text` as a string literal of the script's language: between double quotes,
/// with a backslash, a double quote, a line feed and a carriage return written as
/// escapes and every other character as itself.
pub fn lua_string(text: &str) -> (literal: String)
    ensures
        literal@ == quoted(text@),
{
    let mut literal = String::new();
    append_quoted(&mut literal, text);
    assert(literal@ =~= quoted(text@));
    literal
}

/// Writes `arguments` as a table of strings in the script's language: each argument as
/// a string literal (see [`lua_string`]), with a comma and a blank between two of them,
/// all within braces.
pub fn lua_table(arguments: &Vec<String>) -> (table: String)
    ensures
        table@ == argument_table(texts(arguments@)),
{
    let mut table = String::new();
    append_table(&mut table, arguments);
    assert(table@ =~= argument_table(texts(arguments@)));
    table
}

/// Writes the chunk that calls the command hook of the loaded script once, with the
/// name `command` and the list `arguments`, both as data: the name as a string literal,
/// the arguments as a table of string literals, every one of them and in their order.
pub fn call_chunk(command: &str, arguments: &Vec<String>) -> (chunk: String)
    ensures
        chunk@ == command_call(command@, texts(arguments@)),
{
    let mut chunk = "MANAGER.call_command(".to_owned();
    append_quoted(&mut chunk, command);
    push_char(&mut chunk, ',');
    push_char(&mut chunk, ' ');
    append_table(&mut chunk, arguments);
    push_char(&mut chunk, ')');
    assert(chunk@ =~= command_call(command@, texts(arguments@)));
    chunk
}

} // verus!
