//! The privilege-escalation ladder that every helper command is run through:
//! a direct call, then a non-interactive elevated call, then an interactive
//! one, each rung tried only when the one before failed for want of rights.
use vstd::prelude::*;
use crate::text::{contains, has_infix, lower_of, texts, to_lowercase, trim, trim_spec};

verus! {

/// One rung of the ladder.
#[derive(Clone, Copy, Debug, PartialEq, Eq, Structural)]
pub enum Tier {
    /// The helper run as the user.
    Direct,
    /// The helper run through `sudo -n`, which never prompts.
    Sudo,
    /// The helper run through `pkexec`, which may prompt.
    Pkexec,
}

/// What launching one rung's process came to.
pub enum Attempt {
    /// The process could not be started; `error` describes why.
    LaunchFailed { error: String },
    /// The process ran to its end.
    Exited { success: bool, code: Option<i32>, stdout: String, stderr: String },
}

/// What the ladder does after an attempt.
pub enum Step {
    /// The command's outcome: whether it succeeded, and its message.
    Done(bool, String),
    /// Try the given rung next.
    Escalate(Tier),
}

/// The interpreter that runs the helper script.
pub const PYTHON: &'static str = "python3";

/// The helper script beside the install directory.
pub const SIBLING_SCRIPT: &'static str = "../nekroctl.py";

/// The helper script in the working directory.
pub const LOCAL_SCRIPT: &'static str = "nekroctl.py";

/// The helper script where nothing nearer is found.
pub const FALLBACK_SCRIPT: &'static str = "/home/felipe/Documents/Github/nekro-sense/tools/nekroctl.py";

/// The exit code with which the helper reports a permission failure.
pub const PERMISSION_EXIT: i32 = 3;

/// The exit code with which `sudo -n` reports that it could not go on.
pub const SUDO_UNAVAILABLE_EXIT: i32 = 127;

/// A direct run failed for want of rights: by its exit code, or by what its
/// lower-cased error text says.
pub open spec fn permission_denied_spec(code: Option<i32>, err: Seq<char>) -> bool {
    code == Some(PERMISSION_EXIT) || has_infix(err, "permission denied"@) || has_infix(
        err,
        "operation not permitted"@,
    ) || has_infix(err, "not authorized"@) || has_infix(err, "authentication is required"@)
        || has_infix(err, "must be root"@)
}

/// A `sudo -n` run failed because it would have had to ask for a password.
pub open spec fn needs_password_spec(code: Option<i32>, err: Seq<char>) -> bool {
    code == Some(SUDO_UNAVAILABLE_EXIT) || has_infix(err, "a password is required"@) || (
    has_infix(err, "password"@) && (has_infix(err, "authentication"@) || has_infix(
        err,
        "is required"@,
    ))) || has_infix(err, "no tty present"@) || has_infix(err, "unable to authenticate"@)
}

/// The rung after `tier`.
pub open spec fn next_tier(tier: Tier) -> Tier {
    match tier {
        Tier::Direct => Tier::Sudo,
        _ => Tier::Pkexec,
    }
}

/// Whether a failed run of `tier`, with this exit code and error text, sends
/// the command one rung up.
pub open spec fn escalates_spec(tier: Tier, code: Option<i32>, stderr: Seq<char>) -> bool {
    match tier {
        Tier::Direct => permission_denied_spec(code, lower_of(stderr)),
        Tier::Sudo => needs_password_spec(code, lower_of(stderr)),
        Tier::Pkexec => false,
    }
}

/// The outcome that an attempt at `tier` settles, or `None` where the ladder
/// goes on.
pub open spec fn step_outcome(tier: Tier, a: Attempt) -> Option<(bool, Seq<char>)> {
    match a {
        Attempt::LaunchFailed { error } => Some((false, error@)),
        Attempt::Exited { success, code, stdout, stderr } => if success {
            Some((true, trim_spec(stdout@)))
        } else if escalates_spec(tier, code, stderr@) {
            None
        } else {
            Some((false, trim_spec(stderr@)))
        },
    }
}

/// The program and arguments that run the helper at `tier`.
pub open spec fn invocation_spec(tier: Tier, script: Seq<char>, args: Seq<Seq<char>>) -> (
    Seq<char>,
    Seq<Seq<char>>,
) {
    match tier {
        Tier::Direct => (PYTHON@, seq![script] + args),
        Tier::Sudo => ("sudo"@, seq!["-n"@, PYTHON@, script] + args),
        Tier::Pkexec => ("pkexec"@, seq![PYTHON@, script] + args),
    }
}

/// Whether a failed direct run was refused for want of rights, given its
/// exit code and its error text already in lower case.
pub fn permission_denied_lowered(code: Option<i32>, low: &str) -> (r: bool)
    ensures
        r == permission_denied_spec(code, low@),
{
    match code {
        Some(c) => if c == PERMISSION_EXIT {
            return true;
        },
        None => {},
    }
    contains(low, "permission denied") || contains(low, "operation not permitted") || contains(
        low,
        "not authorized",
    ) || contains(low, "authentication is required") || contains(low, "must be root")
}

/// Whether a failed direct run was refused for want of rights.
pub fn is_permission_denied(code: Option<i32>, stderr: &str) -> (r: bool)
    ensures
        r == permission_denied_spec(code, lower_of(stderr@)),
{
    let low = to_lowercase(stderr);
    permission_denied_lowered(code, low.as_str())
}

/// Whether a failed `sudo -n` run would have needed a password, given its
/// exit code and its error text already in lower case.
pub fn needs_password_lowered(code: Option<i32>, low: &str) -> (r: bool)
    ensures
        r == needs_password_spec(code, low@),
{
    match code {
        Some(c) => if c == SUDO_UNAVAILABLE_EXIT {
            return true;
        },
        None => {},
    }
    contains(low, "a password is required") || (contains(low, "password") && (contains(
        low,
        "authentication",
    ) || contains(low, "is required"))) || contains(low, "no tty present") || contains(
        low,
        "unable to authenticate",
    )
}

/// Whether a failed `sudo -n` run would have needed a password.
pub fn needs_password(code: Option<i32>, stderr: &str) -> (r: bool)
    ensures
        r == needs_password_spec(code, lower_of(stderr@)),
{
    let low = to_lowercase(stderr);
    needs_password_lowered(code, low.as_str())
}

/// Decides, after an attempt at `tier`, whether the command is settled and
/// with what outcome, or which rung comes next.
pub fn next_step(tier: Tier, attempt: &Attempt) -> (r: Step)
    ensures
        match r {
            Step::Done(ok, out) => step_outcome(tier, *attempt) == Some((ok, out@)),
            Step::Escalate(t) => step_outcome(tier, *attempt) is None && t == next_tier(tier),
        },
{
    match attempt {
        Attempt::LaunchFailed { error } => Step::Done(false, error.clone()),
        Attempt::Exited { success, code, stdout, stderr } => {
            if *success {
                return Step::Done(true, trim(stdout.as_str()).to_owned());
            }
            let up = match tier {
                Tier::Direct => is_permission_denied(*code, stderr.as_str()),
                Tier::Sudo => needs_password(*code, stderr.as_str()),
                Tier::Pkexec => false,
            };
            if up {
                match tier {
                    Tier::Direct => Step::Escalate(Tier::Sudo),
                    _ => Step::Escalate(Tier::Pkexec),
                }
            } else {
                Step::Done(false, trim(stderr.as_str()).to_owned())
            }
        },
    }
}

/// The helper script to run: the one beside the install directory if it
/// exists, else the one in the working directory, else the fixed fallback.
pub fn helper_script(sibling_exists: bool, local_exists: bool) -> (r: &'static str)
    ensures
        r@ == (if sibling_exists {
            SIBLING_SCRIPT@
        } else if local_exists {
            LOCAL_SCRIPT@
        } else {
            FALLBACK_SCRIPT@
        }),
{
    if sibling_exists {
        SIBLING_SCRIPT
    } else if local_exists {
        LOCAL_SCRIPT
    } else {
        FALLBACK_SCRIPT
    }
}

/// The program and arguments that run the helper with `args` at `tier`.
pub fn invocation(tier: Tier, script: &str, args: &Vec<String>) -> (r: (String, Vec<String>))
    ensures
        (r.0@, texts(r.1@)) == invocation_spec(tier, script@, texts(args@)),
{
    let mut argv: Vec<String> = Vec::new();
    let program = match tier {
        Tier::Direct => PYTHON.to_owned(),
        Tier::Sudo => {
            argv.push("-n".to_owned());
            argv.push(PYTHON.to_owned());
            "sudo".to_owned()
        },
        Tier::Pkexec => {
            argv.push(PYTHON.to_owned());
            "pkexec".to_owned()
        },
    };
    argv.push(script.to_owned());
    let ghost head = texts(argv@);
    let mut i: usize = 0;
    while i < args.len()
        invariant
            i <= args@.len(),
            texts(argv@) =~= head + texts(args@).take(i as int),
        decreases args@.len() - i,
    {
        let ghost before = argv@;
        argv.push(args[i].clone());
        assert(texts(argv@) =~= texts(before).push(args@[i as int]@));
        i = i + 1;
        assert(texts(args@).take(i as int) =~= texts(args@).take(i - 1).push(args@[i - 1]@));
    }
    assert(texts(args@).take(i as int) =~= texts(args@));
    proof {
        let spec_args = invocation_spec(tier, script@, texts(args@)).1;
        assert(texts(argv@) =~= spec_args);
    }
    (program, argv)
}

/// Every attempt that settles the command settles it with one outcome, and a
/// run that succeeded settles it as a success at once: success is never
/// followed by a further rung.
pub proof fn lemma_success_is_final(tier: Tier, a: Attempt)
    ensures
        (a is Exited && a->success) ==> step_outcome(tier, a) == Some((true, trim_spec(a->stdout@))),
        a is LaunchFailed ==> step_outcome(tier, a) == Some((false, a->error@)),
{
}

/// The ladder climbs only from a run that failed in the way the rung's
/// classifier recognises; any other failure settles the command at that rung.
pub proof fn lemma_escalation_needs_classified_failure(tier: Tier, a: Attempt)
    ensures
        step_outcome(tier, a) is None <==> (a is Exited && !a->success && escalates_spec(
            tier,
            a->code,
            a->stderr@,
        )),
        step_outcome(Tier::Pkexec, a) is Some,
{
}

} // verus!
