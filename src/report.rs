use vstd::prelude::*;

verus! {

/// How much a run reports to the user.
#[derive(Clone, Copy, Debug, PartialEq, Eq, Structural)]
pub enum LogLevel {
    Info,
    Debug,
}

/// The command line as it is logged: each element preceded by one space.
pub open spec fn command_line(parts: Seq<Seq<char>>) -> Seq<char>
    decreases parts.len(),
{
    if parts.len() == 0 {
        Seq::empty()
    } else {
        command_line(parts.drop_last()) + seq![' '] + parts.last()
    }
}

/// The status line that closes a labelled run.
pub open spec fn status_text(label: Seq<char>, ok: bool) -> Seq<char> {
    if ok {
        label + "...OK"@
    } else {
        label + "...Error"@
    }
}

/// Whether the literal command line is logged before a run.
pub fn logs_command_line(level: LogLevel) -> (r: bool)
    ensures
        r == (level == LogLevel::Debug),
{
    match level {
        LogLevel::Debug => true,
        LogLevel::Info => false,
    }
}

/// The command line of a run as it is logged.
pub fn command_line_text(cmd: &[&str]) -> (r: String)
    ensures
        r@ == command_line(cmd@.map_values(|s: &str| s@)),
{
    let mut text = String::new();
    let mut i: usize = 0;
    proof {
        reveal_strlit(" ");
        assert(" "@ =~= seq![' ']);
    }
    while i < cmd.len()
        invariant
            i <= cmd@.len(),
            " "@ == seq![' '],
            text@ == command_line(cmd@.take(i as int).map_values(|s: &str| s@)),
        decreases cmd@.len() - i,
    {
        text.append(" ");
        text.append(cmd[i]);
        proof {
            let prev = cmd@.take(i as int).map_values(|s: &str| s@);
            let next = cmd@.take(i + 1).map_values(|s: &str| s@);
            assert(next.drop_last() =~= prev);
            assert(next.last() == cmd@[i as int]@);
        }
        i = i + 1;
    }
    proof {
        assert(cmd@.take(cmd@.len() as int) =~= cmd@);
    }
    text
}

/// The status line reported once a labelled run is over, whatever its text.
pub fn status_message(label: &str, ok: bool) -> (r: String)
    ensures
        r@ == status_text(label@, ok),
{
    let text = label.to_owned();
    if ok {
        text.concat("...OK")
    } else {
        text.concat("...Error")
    }
}

} // verus!
