//! What the launcher of a build studio decides from its arguments and from
//! who runs it. Reading the environment and replacing the process are left
//! to the caller.

use vstd::prelude::*;
use vstd::string::*;

verus! {

/// The texts of a list of strings, in order.
pub open spec fn texts(list: Seq<String>) -> Seq<Seq<char>> {
    list.map_values(|s: String| s@)
}

/// Whether `word` is one of `list`.
pub open spec fn lists(list: Seq<String>, word: Seq<char>) -> bool {
    exists|i: int| 0 <= i < list.len() && (#[trigger] list[i])@ == word
}

/// The options that go before the program's own arguments when it is run
/// again through `sudo`: a prompt, and the keeping of the environment.
pub open spec fn sudo_options() -> Seq<Seq<char>> {
    seq!["-p"@, "[sudo hab-studio] password for %u: "@, "-E"@]
}

/// The line that shows a command with its arguments: the command, then
/// each argument after a space.
pub open spec fn shown(command: Seq<char>, args: Seq<String>) -> Seq<char>
    decreases args.len(),
{
    if args.len() == 0 {
        command
    } else {
        shown(command, args.drop_last()) + " "@ + args.last()@
    }
}

/// What is to be done about the rights that a studio needs.
#[derive(Debug)]
pub enum SudoStep {
    /// The rights are there: go on.
    Proceed,
    /// Run the program again through `sudo`, with these arguments.
    Rerun(Vec<String>),
    /// The rights are missing and `sudo` is not to be found.
    RootRequired,
}

/// Whether `word` is one of `list`.
fn contains(list: &Vec<String>, word: &str) -> (r: bool)
    ensures
        r == lists(list@, word@),
{
    let wanted = String::from_str(word);
    let mut i: usize = 0;
    while i < list.len()
        invariant
            i <= list.len(),
            wanted@ == word@,
            forall|j: int| 0 <= j < i ==> (#[trigger] list@[j])@ != word@,
        decreases list.len() - i,
    {
        if list[i] == wanted {
            return true;
        }
        i = i + 1;
    }
    false
}

/// Whether the arguments ask for a studio in a container: one of them is
/// `-D`.
pub fn is_docker_studio(args: &Vec<String>) -> (r: bool)
    ensures
        r == lists(args@, "-D"@),
{
    contains(args, "-D")
}

/// Whether the arguments ask for a native studio on Windows: that is so on
/// Windows unless one of them is `-D`, and never elsewhere.
pub fn is_windows_studio(args: &Vec<String>, on_windows: bool) -> (r: bool)
    ensures
        r == (on_windows && !lists(args@, "-D"@)),
{
    if !on_windows {
        return false;
    }
    !contains(args, "-D")
}

/// Whether the user `current_user` is among the members of the `docker`
/// group; `docker_members` is `None` where there is no such group.
pub fn has_docker_group(current_user: &str, docker_members: Option<&Vec<String>>) -> (r: bool)
    ensures
        r == (docker_members matches Some(members) && lists(members@, current_user@)),
{
    match docker_members {
        Some(members) => contains(members, current_user),
        None => false,
    }
}

/// Decides whether the program has to run again through `sudo`. It goes on
/// as it is when it runs as root, or when a studio in a container is asked
/// for by a member of the `docker` group. Else it is run again through
/// `sudo` with the prompt and environment options before its own arguments
/// `program_args`, or fails where `sudo` is not to be found.
pub fn rerun_with_sudo_if_needed(
    am_root: bool,
    docker_studio: bool,
    docker_group: bool,
    sudo_found: bool,
    program_args: Vec<String>,
) -> (step: SudoStep)
    ensures
        (am_root || (docker_studio && docker_group)) ==> step is Proceed,
        !(am_root || (docker_studio && docker_group)) && !sudo_found ==> step is RootRequired,
        !(am_root || (docker_studio && docker_group)) && sudo_found ==> (step matches SudoStep::Rerun(
            args,
        ) && texts(args@) == sudo_options() + texts(program_args@)),
{
    if am_root || (docker_studio && docker_group) {
        return SudoStep::Proceed;
    }
    if !sudo_found {
        return SudoStep::RootRequired;
    }
    let mut args: Vec<String> = Vec::new();
    args.push(String::from_str("-p"));
    args.push(String::from_str("[sudo hab-studio] password for %u: "));
    args.push(String::from_str("-E"));
    assert(texts(args@) =~= sudo_options());
    let ghost options = args@;
    let mut rest = program_args;
    args.append(&mut rest);
    assert(texts(args@) =~= texts(options) + texts(program_args@));
    SudoStep::Rerun(args)
}

/// The line that shows `command` with its arguments.
pub fn display_args(command: &str, args: &Vec<String>) -> (line: String)
    ensures
        line@ == shown(command@, args@),
{
    let mut line = String::from_str(command);
    let mut i: usize = 0;
    while i < args.len()
        invariant
            i <= args.len(),
            line@ == shown(command@, args@.take(i as int)),
        decreases args.len() - i,
    {
        line.append(" ");
        line.append(args[i].as_str());
        i = i + 1;
        assert(args@.take(i as int).drop_last() =~= args@.take(i - 1));
    }
    assert(args@.take(args.len() as int) =~= args@);
    line
}

} // verus!
