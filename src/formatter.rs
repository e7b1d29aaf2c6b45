use vstd::prelude::*;
use vstd::string::*;

use crate::error::ErrorKind;

verus! {

/// How the steps of a command group are combined into one remote command line.
#[derive(Debug, Clone, Copy, PartialEq, Eq, Structural)]
pub enum ExecutionPolicy {
    /// All steps joined with `" && "`.
    Chained,
    /// The first step is a wrapper prefix; the others are joined with
    /// `" && "` and passed to it as one single-quoted argument.
    WrappedShell,
}

/// The separator placed between two chained steps: `" && "`.
pub open spec fn and_separator() -> Seq<char> {
    seq![' ', '&', '&', ' ']
}

/// The text of each step.
pub open spec fn step_views(steps: Seq<String>) -> Seq<Seq<char>> {
    steps.map_values(|s: String| s@)
}

/// `steps` joined with `sep` between each two neighbours.
pub open spec fn join_spec(steps: Seq<Seq<char>>, sep: Seq<char>) -> Seq<char>
    decreases steps.len(),
{
    if steps.len() == 0 {
        Seq::empty()
    } else if steps.len() == 1 {
        steps[0]
    } else {
        join_spec(steps.drop_last(), sep) + sep + steps.last()
    }
}

/// The command line that `policy` makes of a non-empty list of steps.
pub open spec fn format_spec(steps: Seq<Seq<char>>, policy: ExecutionPolicy) -> Seq<char> {
    match policy {
        ExecutionPolicy::Chained => join_spec(steps, and_separator()),
        ExecutionPolicy::WrappedShell => steps[0] + seq![' ', '\''] + join_spec(
            steps.skip(1),
            and_separator(),
        ) + seq!['\''],
    }
}

/// Joins `steps[start..]` with `" && "`.
pub fn join_from(steps: &Vec<String>, start: usize) -> (r: String)
    requires
        start <= steps.len(),
    ensures
        r@ == join_spec(step_views(steps@).skip(start as int), and_separator()),
{
    let ghost views = step_views(steps@);
    let mut r = String::new();
    let mut i: usize = start;
    while i < steps.len()
        invariant
            start <= i <= steps.len(),
            views == step_views(steps@),
            r@ == join_spec(views.subrange(start as int, i as int), and_separator()),
        decreases steps.len() - i,
    {
        if i > start {
            r.append(" && ");
            proof {
                reveal_strlit(" && ");
            }
        }
        r.append(steps[i].as_str());
        proof {
            let prev = views.subrange(start as int, i as int);
            let next = views.subrange(start as int, i + 1);
            assert(next.drop_last() =~= prev);
            assert(next.last() == views[i as int]);
            if i == start {
                assert(r@ =~= next[0]);
            }
        }
        i = i + 1;
    }
    assert(views.subrange(start as int, steps.len() as int) =~= views.skip(start as int));
    r
}

/// Combines the steps of a command group into the single line that is sent
/// to the remote side. An empty list of steps is a configuration error.
pub fn format_commands(steps: &Vec<String>, policy: ExecutionPolicy) -> (r: Result<String, ErrorKind>)
    ensures
        steps.len() == 0 <==> r is Err,
        r is Err ==> r == Err::<String, ErrorKind>(ErrorKind::ConfigInvalid),
        r is Ok ==> r->Ok_0@ == format_spec(step_views(steps@), policy),
{
    if steps.len() == 0 {
        return Err(ErrorKind::ConfigInvalid);
    }
    match policy {
        ExecutionPolicy::Chained => {
            let line = join_from(steps, 0);
            assert(step_views(steps@).skip(0) =~= step_views(steps@));
            Ok(line)
        },
        ExecutionPolicy::WrappedShell => {
            let mut line = steps[0].clone();
            line.append(" '");
            let rest = join_from(steps, 1);
            line.append(rest.as_str());
            line.append("'");
            proof {
                reveal_strlit(" '");
                reveal_strlit("'");
            }
            Ok(line)
        },
    }
}

/// Formatting is deterministic: two calls on lists with the same steps and
/// the same policy give byte-identical lines. `first` and `second` are any
/// two results that the contract of `format_commands` admits for them.
pub proof fn lemma_format_deterministic(
    a: Seq<String>,
    b: Seq<String>,
    policy: ExecutionPolicy,
    first: String,
    second: String,
)
    requires
        a.len() > 0,
        step_views(a) == step_views(b),
        first@ == format_spec(step_views(a), policy),
        second@ == format_spec(step_views(b), policy),
    ensures
        first@ == second@,
{
}

} // verus!
