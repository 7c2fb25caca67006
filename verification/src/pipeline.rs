//! Pipeline construction: turning the request's stages into one executable
//! chain, shell-wrapped or direct-exec, pipe-connected stage to stage.

use vstd::prelude::*;
use vstd::string::StringExecFns;

use crate::process_io::{duct_cmd, duct_pipe, expr_cmds};
use crate::request::{later_stages_nonempty, stages_wf};

verus! {

/// A stage's tokens joined into one shell command string, a single space
/// between consecutive tokens.
pub open spec fn joined_tokens(stage: Seq<Seq<char>>) -> Seq<char>
    decreases stage.len(),
{
    if stage.len() == 0 {
        Seq::empty()
    } else if stage.len() == 1 {
        stage[0]
    } else {
        joined_tokens(stage.drop_last()) + seq![' '] + stage.last()
    }
}

/// The argv a shell-interpreted stage runs with: the platform shell, its
/// command-string flag, and the stage's tokens joined into one trailing
/// command string, so the shell sees the whole stage as its command.
pub open spec fn shell_argv(stage: Seq<Seq<char>>) -> Seq<Seq<char>> {
    seq!["/bin/sh"@, "-c"@, joined_tokens(stage)]
}

/// The argv one stage runs with: shell-wrapped, or the stage's tokens as they
/// are (first token the program, the rest literal arguments).
pub open spec fn stage_argv(stage: Seq<Seq<char>>, use_shell: bool) -> Seq<Seq<char>> {
    if use_shell {
        shell_argv(stage)
    } else {
        stage
    }
}

/// The command chain a whole request builds: one argv per stage, in order.
pub open spec fn pipeline_cmds(stages: Seq<Seq<Seq<char>>>, use_shell: bool) -> Seq<
    Seq<Seq<char>>,
> {
    stages.map_values(|stage: Seq<Seq<char>>| stage_argv(stage, use_shell))
}

/// Join a stage's tokens into one command string, a single space between
/// consecutive tokens.
fn join_stage_tokens(command: &Vec<String>) -> (joined: String)
    ensures
        joined@ == joined_tokens(command.deep_view()),
{
    let ghost tokens = command.deep_view();
    let mut joined = String::new();
    let mut i: usize = 0;
    while i < command.len()
        invariant
            i <= command@.len(),
            tokens == command.deep_view(),
            joined@ == joined_tokens(tokens.take(i as int)),
        decreases command@.len() - i,
    {
        if i > 0 {
            joined.append(" ");
        }
        joined.append(command[i].as_str());
        proof {
            reveal_strlit(" ");
            assert(" "@ =~= seq![' ']);
            assert(tokens.take(i + 1).drop_last() =~= tokens.take(i as int));
            assert(tokens[i as int] == command@[i as int]@);
            if i == 0 {
                assert(joined@ =~= joined_tokens(tokens.take(1)));
            } else {
                assert(joined@ =~= joined_tokens(tokens.take(i + 1)));
            }
        }
        i = i + 1;
    }
    proof {
        assert(tokens.take(command@.len() as int) =~= tokens);
    }
    joined
}

/// Prepend the platform shell invocation to a stage's joined command string.
/// On POSIX the shell is `/bin/sh` and the flag is `-c`; the stage's tokens
/// become the one command-string operand after it.
pub(crate) fn shell_command_argv_vector(command: &Vec<String>) -> (argv: Vec<String>)
    ensures
        argv.deep_view() == shell_argv(command.deep_view()),
        argv@.len() == 3,
{
    let mut full_args: Vec<String> = Vec::new();
    full_args.push("/bin/sh".to_owned());
    full_args.push("-c".to_owned());
    full_args.push(join_stage_tokens(command));
    proof {
        let out = full_args.deep_view();
        let target = shell_argv(command.deep_view());
        assert(out[0] == full_args@[0]@);
        assert(out[1] == full_args@[1]@);
        assert(out[2] == full_args@[2]@);
        assert(out =~= target);
    }
    full_args
}

/// Build the expression one stage stands for.
fn stage_expression(stage: &Vec<String>, use_shell: bool) -> (e: duct::Expression)
    requires
        use_shell || stage@.len() >= 1,
    ensures
        expr_cmds(e) == seq![stage_argv(stage.deep_view(), use_shell)],
{
    if use_shell {
        let argv = shell_command_argv_vector(stage);
        duct_cmd(&argv)
    } else {
        duct_cmd(stage)
    }
}

/// Build the executable chain of a whole request: the first stage's
/// expression, pipe-connected to each later stage's in order.  Pure
/// construction; nothing is started.
pub(crate) fn handle_pipeline(cmd_line: &Vec<Vec<String>>, use_shell: bool) -> (e:
    duct::Expression)
    requires
        stages_wf(cmd_line.deep_view()),
        use_shell || later_stages_nonempty(cmd_line.deep_view()),
    ensures
        expr_cmds(e) == pipeline_cmds(cmd_line.deep_view(), use_shell),
{
    let ghost stages = cmd_line.deep_view();
    proof {
        assert(stages[0] == cmd_line@[0].deep_view());
    }
    let mut cmd_pipeline = stage_expression(&cmd_line[0], use_shell);
    assert(expr_cmds(cmd_pipeline) =~= pipeline_cmds(stages.take(1), use_shell));
    let mut i: usize = 1;
    while i < cmd_line.len()
        invariant
            1 <= i <= stages.len(),
            stages == cmd_line.deep_view(),
            use_shell || later_stages_nonempty(stages),
            expr_cmds(cmd_pipeline) == pipeline_cmds(stages.take(i as int), use_shell),
        decreases stages.len() - i,
    {
        proof {
            assert(stages[i as int] == cmd_line@[i as int].deep_view());
        }
        let next = stage_expression(&cmd_line[i], use_shell);
        cmd_pipeline = duct_pipe(cmd_pipeline, next);
        assert(expr_cmds(cmd_pipeline) =~= pipeline_cmds(stages.take(i + 1), use_shell));
        i = i + 1;
    }
    proof {
        assert(stages.take(stages.len() as int) =~= stages);
    }
    cmd_pipeline
}

} // verus!
