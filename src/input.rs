use vstd::prelude::*;

verus! {

/// An ASCII decimal digit, the only digits an unsigned number's text may hold.
pub open spec fn is_digit(c: char) -> bool {
    '0' <= c && c <= '9'
}

/// The value of a digit character.
pub open spec fn digit_value(c: char) -> nat {
    (c as int - '0' as int) as nat
}

/// The number that a sequence of decimal digits writes, most significant first.
pub open spec fn digits_value(ds: Seq<char>) -> nat
    decreases ds.len(),
{
    if ds.len() == 0 {
        0
    } else {
        digits_value(ds.drop_last()) * 10 + digit_value(ds.last())
    }
}

/// The text after an optional leading `+`.
pub open spec fn unsigned_digits(s: Seq<char>) -> Seq<char> {
    if s.len() > 0 && s[0] == '+' {
        s.drop_first()
    } else {
        s
    }
}

/// The text is an unsigned number that fits a `usize`: an optional `+`, then
/// at least one decimal digit and nothing else.
pub open spec fn is_usize_text(s: Seq<char>) -> bool {
    let ds = unsigned_digits(s);
    &&& ds.len() > 0
    &&& forall|i: int| 0 <= i < ds.len() ==> is_digit(#[trigger] ds[i])
    &&& digits_value(ds) <= usize::MAX
}

/// The number a line of input stands for: its value where it is an unsigned
/// number that fits, and 0 for anything else. 0 never names a task or a menu entry.
pub open spec fn number_or_zero(s: Seq<char>) -> nat {
    if is_usize_text(s) {
        digits_value(unsigned_digits(s))
    } else {
        0
    }
}

proof fn lemma_digits_value_grows(ds: Seq<char>, k: int)
    requires
        0 <= k <= ds.len(),
        forall|i: int| 0 <= i < ds.len() ==> is_digit(#[trigger] ds[i]),
    ensures
        digits_value(ds.subrange(0, k)) <= digits_value(ds),
    decreases ds.len() - k,
{
    if k < ds.len() {
        lemma_digits_value_grows(ds, k + 1);
        assert(ds.subrange(0, k + 1).drop_last() =~= ds.subrange(0, k));
    } else {
        assert(ds.subrange(0, k) =~= ds);
    }
}

/// Reads a line of input as a number, with every unreadable line (empty, not
/// a number, negative, too large) read as 0.
pub fn parse_number(input: &str) -> (r: usize)
    ensures
        r as nat == number_or_zero(input@),
{
    let len = input.unicode_len();
    let mut start: usize = 0;
    if len > 0 && input.get_char(0) == '+' {
        start = 1;
    }
    let ghost ds = unsigned_digits(input@);
    assert(ds =~= input@.subrange(start as int, len as int));
    if start == len {
        return 0;
    }
    let mut value: usize = 0;
    let mut i: usize = start;
    while i < len
        invariant
            start <= i <= len,
            len == input@.len(),
            ds == unsigned_digits(input@),
            ds == input@.subrange(start as int, len as int),
            forall|j: int| start <= j < i ==> is_digit(#[trigger] input@[j]),
            value as nat == digits_value(ds.subrange(0, i - start)),
        decreases len - i,
    {
        let c = input.get_char(i);
        if !('0' <= c && c <= '9') {
            assert(ds[i - start] == input@[i as int]);
            assert(!is_digit(ds[i - start]));
            assert(!is_usize_text(input@));
            return 0;
        }
        let d = (c as u32 - '0' as u32) as usize;
        assert(ds.subrange(0, i + 1 - start).drop_last() =~= ds.subrange(0, i - start));
        if value > (usize::MAX - d) / 10 {
            proof {
                assert(digits_value(ds.subrange(0, i + 1 - start)) > usize::MAX) by (nonlinear_arith)
                    requires
                        digits_value(ds.subrange(0, i + 1 - start)) == value * 10 + d,
                        value > (usize::MAX - d) / 10,
                        d <= 9,
                ;
                if forall|j: int| 0 <= j < ds.len() ==> is_digit(#[trigger] ds[j]) {
                    lemma_digits_value_grows(ds, i + 1 - start);
                }
                assert(!is_usize_text(input@));
            }
            return 0;
        }
        value = value * 10 + d;
        i = i + 1;
    }
    assert(ds.subrange(0, len - start) =~= ds);
    value
}

/// What the user asked for at the menu.
#[derive(Clone, Copy, Debug, PartialEq, Eq, Structural)]
pub enum Command {
    AddTask,
    ViewTasks,
    CompleteTask,
    DeleteTask,
    SaveAndExit,
    Invalid,
}

/// The menu: entries 1 to 5, and anything else is an invalid choice.
pub open spec fn command_for(choice: nat) -> Command {
    if choice == 1 {
        Command::AddTask
    } else if choice == 2 {
        Command::ViewTasks
    } else if choice == 3 {
        Command::CompleteTask
    } else if choice == 4 {
        Command::DeleteTask
    } else if choice == 5 {
        Command::SaveAndExit
    } else {
        Command::Invalid
    }
}

/// The command that a menu number selects.
pub fn command_of(choice: usize) -> (c: Command)
    ensures
        c == command_for(choice as nat),
{
    match choice {
        1 => Command::AddTask,
        2 => Command::ViewTasks,
        3 => Command::CompleteTask,
        4 => Command::DeleteTask,
        5 => Command::SaveAndExit,
        _ => Command::Invalid,
    }
}

/// The command that a line typed at the menu selects; an unreadable line is
/// read as 0, an invalid choice.
pub fn parse_command(input: &str) -> (c: Command)
    ensures
        c == command_for(number_or_zero(input@)),
{
    let choice = parse_number(input);
    command_of(choice)
}

} // verus!
