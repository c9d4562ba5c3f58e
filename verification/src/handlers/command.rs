//! Shell-command routes.
//!
//! A command handler runs one configured command line and shows its output.
//! Spawning the subprocess is blocking work performed outside the core on the
//! worker lane; verified here are the command-line text shown to the client,
//! the combination of the subprocess's two output streams, and the `pre`
//! block the page is built around.

use crate::config::CommandInfo;
use vstd::prelude::*;

verus! {

/// The characters that `String::from_utf8_lossy` reads from the given bytes;
/// they depend on the bytes alone.
pub uninterp spec fn utf8_lossy_of(bytes: Seq<u8>) -> Seq<char>;

/// Relies on std's `String::from_utf8_lossy`: text decoded from the bytes
/// alone, invalid sequences replaced; `into_owned` only detaches the result.
#[verifier::external_body]
pub(crate) fn utf8_lossy(bytes: &[u8]) -> (r: String)
    ensures
        r@ == utf8_lossy_of(bytes@),
{
    String::from_utf8_lossy(bytes).into_owned()
}

/// One space-prefixed argument after another, as they follow the program
/// name on a command line.
pub open spec fn spec_args_suffix(args: Seq<Seq<char>>) -> Seq<char>
    decreases args.len(),
{
    if args.len() == 0 {
        Seq::empty()
    } else {
        spec_args_suffix(args.drop_last()) + " "@ + args.last()
    }
}

/// The command line a command route shows: a `$ ` prompt, the program, and
/// its arguments.
pub open spec fn spec_command_line(command: Seq<char>, args: Seq<Seq<char>>) -> Seq<char> {
    "$ "@ + command + spec_args_suffix(args)
}

/// Appends ` arg` for each argument in turn.
pub fn push_args_suffix(s: &mut String, args: &Vec<String>)
    ensures
        final(s)@ == old(s)@ + spec_args_suffix(args@.map_values(|a: String| a@)),
{
    let ghost mapped = args@.map_values(|a: String| a@);
    let n = args.len();
    let mut i: usize = 0;
    proof {
        assert(mapped.take(0) =~= Seq::<Seq<char>>::empty());
        assert(s@ =~= old(s)@ + spec_args_suffix(mapped.take(0)));
    }
    while i < n
        invariant
            0 <= i <= n,
            n == args@.len(),
            mapped == args@.map_values(|a: String| a@),
            s@ == old(s)@ + spec_args_suffix(mapped.take(i as int)),
        decreases n - i,
    {
        s.append(" ");
        s.append(args[i].as_str());
        proof {
            assert(mapped.take(i as int + 1).drop_last() =~= mapped.take(i as int));
            assert(mapped.take(i as int + 1).last() == args@[i as int]@);
            assert(s@ =~= old(s)@ + spec_args_suffix(mapped.take(i as int + 1)));
        }
        i += 1;
    }
    proof {
        assert(mapped.take(n as int) =~= mapped);
    }
}

/// Runs one configured command line on the worker lane and shows its output.
#[derive(Clone)]
pub struct CommandHandler {
    command_info: CommandInfo,
    command_line_string: String,
}

impl CommandHandler {
    /// The route's configuration.
    pub closed spec fn spec_command_info(&self) -> <CommandInfo as View>::V {
        self.command_info@
    }

    /// The command-line text shown to the client.
    pub closed spec fn spec_command_line_string(&self) -> Seq<char> {
        self.command_line_string@
    }

    pub fn new(command_info: CommandInfo) -> (r: CommandHandler)
        ensures
            r.spec_command_info() == command_info@,
            r.spec_command_line_string() == spec_command_line(
                command_info@.command,
                command_info@.args,
            ),
    {
        let mut command_line_string = "$ ".to_owned();
        command_line_string.append(command_info.command().as_str());
        push_args_suffix(&mut command_line_string, command_info.args());
        proof {
            assert(command_line_string@ =~= spec_command_line(
                command_info@.command,
                command_info@.args,
            ));
        }
        CommandHandler { command_info, command_line_string }
    }

    /// The route's configuration, for the worker that spawns the subprocess.
    pub fn command_info(&self) -> (r: &CommandInfo)
        ensures
            r@ == self.spec_command_info(),
    {
        &self.command_info
    }

    /// The command-line text shown to the client.
    pub fn command_line_string(&self) -> (r: &String)
        ensures
            r@ == self.spec_command_line_string(),
    {
        &self.command_line_string
    }

    /// The `pre` block of the command page: the current time, the command
    /// line, and the subprocess's combined output.
    pub fn build_pre_string(&self, now_string: &String, command_output: &String) -> (r: String)
        ensures
            r@ == "Now: "@ + now_string@ + "\n\n"@ + self.spec_command_line_string() + "\n\n"@
                + command_output@,
    {
        let mut pre_string = "Now: ".to_owned();
        pre_string.append(now_string.as_str());
        pre_string.append("\n\n");
        pre_string.append(self.command_line_string.as_str());
        pre_string.append("\n\n");
        pre_string.append(command_output.as_str());
        proof {
            assert(pre_string@ =~= "Now: "@ + now_string@ + "\n\n"@
                + self.spec_command_line_string() + "\n\n"@ + command_output@);
        }
        pre_string
    }
}

/// The text a finished subprocess contributes to the page: its error stream,
/// then its output stream, both read leniently as UTF-8.
pub fn combined_output(stdout: &Vec<u8>, stderr: &Vec<u8>) -> (r: String)
    ensures
        r@ == utf8_lossy_of(stderr@) + utf8_lossy_of(stdout@),
{
    let mut combined = utf8_lossy(stderr.as_slice());
    let out = utf8_lossy(stdout.as_slice());
    combined.append(out.as_str());
    combined
}

} // verus!
