//! The name of a Redis command, taken from its first argument.
use vstd::prelude::*;

verus! {

/// redis::Cmd, carried as an opaque value whose arguments are named by
/// [`cmd_args`].
#[verifier::external_type_specification]
#[verifier::external_body]
pub struct ExCmd(redis::Cmd);

/// An argument of a command: its bytes, or the cursor marker that
/// scan-family commands carry in place of literal text.
pub enum CommandArg<'a> {
    Simple(&'a [u8]),
    Cursor,
}

/// The mathematical value of a [`CommandArg`].
pub enum ArgData {
    Simple(Seq<u8>),
    Cursor,
}

impl<'a> View for CommandArg<'a> {
    type V = ArgData;

    open spec fn view(&self) -> ArgData {
        match self {
            CommandArg::Simple(b) => ArgData::Simple(b@),
            CommandArg::Cursor => ArgData::Cursor,
        }
    }
}

/// The arguments that the command `cmd` holds, in order, its name first.
pub uninterp spec fn cmd_args(cmd: redis::Cmd) -> Seq<ArgData>;

/// The text that the bytes `b` encode in UTF-8, or `None` where they are
/// not valid UTF-8.
pub uninterp spec fn utf8_text(b: Seq<u8>) -> Option<Seq<char>>;

/// The upper-case form of the text `s`.
pub uninterp spec fn upper_of(s: Seq<char>) -> Seq<char>;

/// Whether `c` is an ASCII character.
pub open spec fn is_ascii_char(c: char) -> bool {
    (c as u32) < 128
}

/// The ASCII lower case of `c`: `A` to `Z` become `a` to `z`, any other
/// character stays.
pub open spec fn ascii_lower(c: char) -> char {
    if 'A' <= c && c <= 'Z' {
        ((c as u32) + 32) as char
    } else {
        c
    }
}

/// The ASCII upper case of `c`: `a` to `z` become `A` to `Z`, any other
/// character stays.
pub open spec fn ascii_upper(c: char) -> char {
    if 'a' <= c && c <= 'z' {
        ((c as u32) - 32) as char
    } else {
        c
    }
}

/// Whether every character of `s` is ASCII.
pub open spec fn is_ascii_text(s: Seq<char>) -> bool {
    forall|i: int| 0 <= i < s.len() ==> is_ascii_char(#[trigger] s[i])
}

/// Whether every byte of `b` is ASCII.
pub open spec fn is_ascii_bytes(b: Seq<u8>) -> bool {
    forall|i: int| 0 <= i < b.len() ==> #[trigger] b[i] < 128
}

/// Relies on redis::Cmd::args_iter: yields the arguments of the command in
/// order, a cursor argument as `Arg::Cursor` and any other as its bytes.
#[verifier::external_body]
fn first_arg<'a>(cmd: &'a redis::Cmd) -> (r: Option<CommandArg<'a>>)
    ensures
        match r {
            Some(a) => cmd_args(*cmd).len() > 0 && a@ == cmd_args(*cmd)[0],
            None => cmd_args(*cmd).len() == 0,
        },
{
    match cmd.args_iter().next() {
        Some(redis::Arg::Simple(bytes)) => Some(CommandArg::Simple(bytes)),
        Some(redis::Arg::Cursor) => Some(CommandArg::Cursor),
        None => None,
    }
}

/// Relies on std::str::from_utf8: succeeds exactly on valid UTF-8, with the
/// text that the bytes encode; ASCII bytes are valid and each encodes the
/// character of the same value.
#[verifier::external_body]
fn decode_utf8(b: &[u8]) -> (r: Option<&str>)
    ensures
        match r {
            Some(s) => utf8_text(b@) == Some(s@),
            None => utf8_text(b@) is None,
        },
        is_ascii_bytes(b@) ==> (r is Some && r->0@ == b@.map_values(|x: u8| x as char)),
{
    std::str::from_utf8(b).ok()
}

/// Relies on str::to_uppercase: the result depends on the characters alone,
/// and an ASCII text is raised character by character, `a` to `z` becoming
/// `A` to `Z`.
#[verifier::external_body]
fn uppercase(s: &str) -> (r: String)
    ensures
        r@ == upper_of(s@),
        is_ascii_text(s@) ==> r@ == s@.map_values(|c: char| ascii_upper(c)),
{
    s.to_uppercase()
}

/// The name that a command whose first argument is `first` goes by: `SCAN`
/// for a cursor, else the upper case of the argument's text, and none where
/// the argument is not valid UTF-8.
pub open spec fn name_of_first(first: ArgData) -> Option<Seq<char>> {
    match first {
        ArgData::Cursor => Some("SCAN"@),
        ArgData::Simple(b) => match utf8_text(b) {
            Some(t) => Some(upper_of(t)),
            None => None,
        },
    }
}

/// The name of an ASCII first argument: its characters raised one by one.
pub open spec fn ascii_name(b: Seq<u8>) -> Seq<char> {
    b.map_values(|x: u8| ascii_upper(x as char))
}

/// The name of the command with arguments `args`; none for no arguments.
pub open spec fn command_name(args: Seq<ArgData>) -> Option<Seq<char>> {
    if args.len() == 0 {
        None
    } else {
        name_of_first(args[0])
    }
}

/// The name that a command whose first argument is `first` goes by.
pub fn name_of_first_arg(first: &CommandArg) -> (r: Option<String>)
    ensures
        r.deep_view() == name_of_first(first@),
        first@ matches ArgData::Simple(b) ==> (is_ascii_bytes(b) ==> r.deep_view() == Some(ascii_name(b))),
{
    match first {
        CommandArg::Cursor => Some(String::from_str("SCAN")),
        CommandArg::Simple(bytes) => match decode_utf8(bytes) {
            Some(text) => {
                proof {
                    if is_ascii_bytes(bytes@) {
                        assert forall|i: int| 0 <= i < text@.len() implies is_ascii_char(#[trigger] text@[i]) by {
                            assert(text@[i] == bytes@[i] as char);
                        }
                    }
                }
                let r = uppercase(text);
                proof {
                    if is_ascii_bytes(bytes@) {
                        assert(r@ =~= ascii_name(bytes@));
                    }
                }
                Some(r)
            },
            None => None,
        },
    }
}

/// Whether the command `cmd` has a first argument that is bytes which are
/// not valid UTF-8, so that it has no name; such a command calls for a
/// warning.
pub fn first_arg_undecodable(cmd: &redis::Cmd) -> (r: bool)
    ensures
        r == (cmd_args(*cmd).len() > 0 && command_name(cmd_args(*cmd)) is None),
{
    match first_arg(cmd) {
        Some(CommandArg::Simple(bytes)) => decode_utf8(bytes).is_none(),
        _ => false,
    }
}

/// The canonical name of the command `cmd`, from its first argument alone;
/// none for an empty command or a first argument that is not valid UTF-8.
pub fn get_command_name(cmd: &redis::Cmd) -> (r: Option<String>)
    ensures
        r.deep_view() == command_name(cmd_args(*cmd)),
        cmd_args(*cmd).len() > 0 ==> (cmd_args(*cmd)[0] matches ArgData::Simple(b)
            ==> (is_ascii_bytes(b) ==> r.deep_view() == Some(ascii_name(b)))),
{
    match first_arg(cmd) {
        Some(first) => name_of_first_arg(&first),
        None => None,
    }
}

/// A command whose first argument is valid UTF-8 goes by the upper case of
/// that argument's text.
pub proof fn lemma_utf8_name_is_upper_case(args: Seq<ArgData>, bytes: Seq<u8>, text: Seq<char>)
    requires
        args.len() > 0,
        args[0] == ArgData::Simple(bytes),
        utf8_text(bytes) == Some(text),
    ensures
        command_name(args) == Some(upper_of(text)),
{
}

/// A command whose first argument is the cursor marker goes by `SCAN`,
/// whatever else it holds.
pub proof fn lemma_cursor_names_scan(args: Seq<ArgData>)
    requires
        args.len() > 0,
        args[0] == ArgData::Cursor,
    ensures
        command_name(args) == Some("SCAN"@),
{
}

/// The name of a command depends on its first argument alone.
pub proof fn lemma_name_from_first_argument_only(a: Seq<ArgData>, b: Seq<ArgData>)
    requires
        a.len() > 0,
        b.len() > 0,
        a[0] == b[0],
    ensures
        command_name(a) == command_name(b),
{
}

} // verus!
