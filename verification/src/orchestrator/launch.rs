//! The launch of a managed child: the command, environment and output streams
//! a process specification asks for.

use vstd::prelude::*;
use vstd::string::*;

use crate::env::{effective_env, env_keys_distinct, env_map, lemma_effective_env_distinct};
use crate::host::BootstrapEnv;
use crate::protocol::{
    PORK_CONTROL_CODEC_ENV, PorkControlCodec, codec_env_value, lemma_codec_text_round_trip, parsed_codec,
};
use crate::spec::{
    ProcessOutput, ProcessOutputView, ProcessSpec, opt_text, output_captures_stderr,
    output_captures_stdout, output_stderr_log, output_stdout_log, texts_of,
};

verus! {

/// Where one output stream of a child goes.
#[derive(Debug)]
pub enum StreamTarget {
    /// The stream is inherited from the parent process.
    Inherit,
    /// The stream is piped back to the parent process.
    Piped,
    /// The stream is appended to the log file at this path.
    AppendLog(String),
}

/// Where one output stream goes, as text.
pub enum StreamTargetView {
    /// Inherited from the parent.
    Inherit,
    /// Piped back to the parent.
    Piped,
    /// Appended to the log file at this path.
    AppendLog(Seq<char>),
}

impl View for StreamTarget {
    type V = StreamTargetView;

    open spec fn view(&self) -> StreamTargetView {
        match self {
            StreamTarget::Inherit => StreamTargetView::Inherit,
            StreamTarget::Piped => StreamTargetView::Piped,
            StreamTarget::AppendLog(path) => StreamTargetView::AppendLog(path@),
        }
    }
}

/// Where stdout goes under an output configuration: piped when captured,
/// appended to its log when one is set, inherited otherwise.
pub open spec fn stdout_target_of(output: ProcessOutputView) -> StreamTargetView {
    match output {
        ProcessOutputView::Inherit => StreamTargetView::Inherit,
        ProcessOutputView::Capture { stdout, .. } => if stdout {
            StreamTargetView::Piped
        } else {
            StreamTargetView::Inherit
        },
        ProcessOutputView::Log { stdout, .. } => match stdout {
            Some(path) => StreamTargetView::AppendLog(path),
            None => StreamTargetView::Inherit,
        },
    }
}

/// Where stderr goes under an output configuration: piped when captured,
/// appended to its log when one is set, inherited otherwise.
pub open spec fn stderr_target_of(output: ProcessOutputView) -> StreamTargetView {
    match output {
        ProcessOutputView::Inherit => StreamTargetView::Inherit,
        ProcessOutputView::Capture { stderr, .. } => if stderr {
            StreamTargetView::Piped
        } else {
            StreamTargetView::Inherit
        },
        ProcessOutputView::Log { stderr, .. } => match stderr {
            Some(path) => StreamTargetView::AppendLog(path),
            None => StreamTargetView::Inherit,
        },
    }
}

/// Returns where stdout goes under an output configuration.
pub fn stdout_target(output: &ProcessOutput) -> (target: StreamTarget)
    ensures
        target@ == stdout_target_of(output@),
        target is Piped <==> output_captures_stdout(output@),
        output_stdout_log(output@) matches Some(path) ==> target@ == StreamTargetView::AppendLog(
            path,
        ),
        target matches StreamTarget::AppendLog(path) ==> output_stdout_log(output@) == Some(path@),
        target is Inherit <==> !output_captures_stdout(output@) && output_stdout_log(output@) is None,
{
    match output {
        ProcessOutput::Inherit => StreamTarget::Inherit,
        ProcessOutput::Capture { stdout, .. } => if *stdout {
            StreamTarget::Piped
        } else {
            StreamTarget::Inherit
        },
        ProcessOutput::Log { stdout, .. } => match stdout {
            Some(path) => StreamTarget::AppendLog(path.as_str().to_owned()),
            None => StreamTarget::Inherit,
        },
    }
}

/// Returns where stderr goes under an output configuration.
pub fn stderr_target(output: &ProcessOutput) -> (target: StreamTarget)
    ensures
        target@ == stderr_target_of(output@),
        target is Piped <==> output_captures_stderr(output@),
        output_stderr_log(output@) matches Some(path) ==> target@ == StreamTargetView::AppendLog(
            path,
        ),
        target matches StreamTarget::AppendLog(path) ==> output_stderr_log(output@) == Some(path@),
        target is Inherit <==> !output_captures_stderr(output@) && output_stderr_log(output@) is None,
{
    match output {
        ProcessOutput::Inherit => StreamTarget::Inherit,
        ProcessOutput::Capture { stderr, .. } => if *stderr {
            StreamTarget::Piped
        } else {
            StreamTarget::Inherit
        },
        ProcessOutput::Log { stderr, .. } => match stderr {
            Some(path) => StreamTarget::AppendLog(path.as_str().to_owned()),
            None => StreamTarget::Inherit,
        },
    }
}

/// How a managed child is spawned.
#[derive(Debug)]
pub struct LaunchPlan {
    /// The program to run.
    pub executable: String,
    /// Its arguments, in order.
    pub args: Vec<String>,
    /// The working directory, when one is set.
    pub current_dir: Option<String>,
    /// The environment variables to set, in order; a later one wins.
    pub env: Vec<(String, String)>,
    /// Where stdout goes.
    pub stdout: StreamTarget,
    /// Where stderr goes.
    pub stderr: StreamTarget,
}

/// Plans the launch of a child from its specification and the names of the
/// host's handshake servers.
///
/// The child gets the spec's program, arguments, working directory and
/// environment overrides, then the two server names under the spec's bootstrap
/// variable names, and last the codec under [`PORK_CONTROL_CODEC_ENV`].
pub fn plan_launch(spec: &ProcessSpec, bootstrap_env: &BootstrapEnv) -> (plan: LaunchPlan)
    ensures
        plan.executable@ == spec@.executable,
        texts_of(plan.args@) == spec@.args,
        opt_text(plan.current_dir) == spec@.current_dir,
        plan.env@.len() >= 3,
        env_keys_distinct(plan.env@.subrange(0, plan.env@.len() - 3)),
        env_map(plan.env@.subrange(0, plan.env@.len() - 3)) == spec@.env,
        plan.env@[plan.env@.len() - 3].0@ == spec@.data_bootstrap_env,
        plan.env@[plan.env@.len() - 3].1@ == bootstrap_env.data_server_name@,
        plan.env@[plan.env@.len() - 2].0@ == spec@.control_bootstrap_env,
        plan.env@[plan.env@.len() - 2].1@ == bootstrap_env.control_server_name@,
        plan.env@[plan.env@.len() - 1].0@ == PORK_CONTROL_CODEC_ENV@,
        plan.env@[plan.env@.len() - 1].1@ == codec_env_value(spec@.control_codec),
        plan.stdout@ == stdout_target_of(spec@.output),
        plan.stderr@ == stderr_target_of(spec@.output),
        plan.stdout is Piped <==> output_captures_stdout(spec@.output),
        plan.stderr is Piped <==> output_captures_stderr(spec@.output),
        effective_env(plan.env@) == spec@.env.insert(
            spec@.data_bootstrap_env,
            bootstrap_env.data_server_name@,
        ).insert(spec@.control_bootstrap_env, bootstrap_env.control_server_name@).insert(
            PORK_CONTROL_CODEC_ENV@,
            codec_env_value(spec@.control_codec),
        ),
{
    let source_args = spec.args_ref();
    let mut args: Vec<String> = Vec::new();
    let mut i: usize = 0;
    while i < source_args.len()
        invariant
            i <= source_args@.len(),
            args@.len() == i,
            forall|k: int| 0 <= k < i ==> (#[trigger] args@[k])@ == source_args@[k]@,
        decreases source_args@.len() - i,
    {
        args.push(source_args[i].clone());
        i = i + 1;
    }
    assert(texts_of(args@) =~= texts_of(source_args@));
    let current_dir = match spec.current_dir_ref() {
        Some(dir) => Some(dir.to_owned()),
        None => None,
    };
    let overrides = spec.env_ref().pairs();
    let mut env: Vec<(String, String)> = Vec::new();
    let mut j: usize = 0;
    while j < overrides.len()
        invariant
            j <= overrides@.len(),
            env@.len() == j,
            forall|k: int|
                0 <= k < j ==> (#[trigger] env@[k]).0@ == overrides@[k].0@ && env@[k].1@
                    == overrides@[k].1@,
        decreases overrides@.len() - j,
    {
        let entry = &overrides[j];
        env.push((entry.0.clone(), entry.1.clone()));
        j = j + 1;
    }
    let ghost copied = env@;
    proof {
        let a = copied;
        let b = overrides@;
        assert forall|x: int, y: int|
            0 <= x < a.len() && 0 <= y < a.len() && x != y implies #[trigger] a[x].0@
                != #[trigger] a[y].0@ by {
            assert(b[x].0@ != b[y].0@);
        }
        assert forall|k: Seq<char>| #![auto] crate::env::env_has_key(a, k) == crate::env::env_has_key(b, k) by {
            if crate::env::env_has_key(a, k) {
                let x = choose|x: int| 0 <= x < a.len() && a[x].0@ == k;
                assert(b[x].0@ == k);
            }
            if crate::env::env_has_key(b, k) {
                let x = choose|x: int| 0 <= x < b.len() && b[x].0@ == k;
                assert(a[x].0@ == k);
            }
        }
        assert forall|k: Seq<char>| #[trigger] env_map(a).contains_key(k) implies env_map(a)[k]
            == env_map(b)[k] by {
            let x = choose|x: int| 0 <= x < a.len() && a[x].0@ == k;
            crate::env::lemma_env_map_at(a, x);
            crate::env::lemma_env_map_at(b, x);
        }
        assert(env_map(a) =~= env_map(b));
    }
    let bootstrap_pairs = bootstrap_env.env_pairs(
        spec.data_bootstrap_env_ref().as_str(),
        spec.control_bootstrap_env_ref().as_str(),
    );
    env.push((bootstrap_pairs[0].0.clone(), bootstrap_pairs[0].1.clone()));
    let ghost with_data = env@;
    env.push((bootstrap_pairs[1].0.clone(), bootstrap_pairs[1].1.clone()));
    let ghost with_control = env@;
    env.push((PORK_CONTROL_CODEC_ENV.to_owned(), spec.control_codec_ref().as_env_value().to_owned()));
    assert(env@.subrange(0, env@.len() - 3) =~= copied);
    proof {
        assert(env@.drop_last() =~= with_control);
        assert(with_control.drop_last() =~= with_data);
        assert(with_data.drop_last() =~= copied);
        lemma_effective_env_distinct(copied);
        assert(with_data.last().0@ == spec@.data_bootstrap_env);
        assert(with_data.last().1@ == bootstrap_env.data_server_name@);
        assert(with_control.last().0@ == spec@.control_bootstrap_env);
        assert(with_control.last().1@ == bootstrap_env.control_server_name@);
        assert(effective_env(with_data) == spec@.env.insert(
            spec@.data_bootstrap_env,
            bootstrap_env.data_server_name@,
        ));
        assert(effective_env(with_control) == effective_env(with_data).insert(
            spec@.control_bootstrap_env,
            bootstrap_env.control_server_name@,
        ));
        assert(env@.last().0@ == PORK_CONTROL_CODEC_ENV@);
        assert(env@.last().1@ == codec_env_value(spec@.control_codec));
        assert(effective_env(env@) == effective_env(with_control).insert(
            PORK_CONTROL_CODEC_ENV@,
            codec_env_value(spec@.control_codec),
        ));
    }
    LaunchPlan {
        executable: spec.executable().as_str().to_owned(),
        args,
        current_dir,
        env,
        stdout: stdout_target(spec.output_ref()),
        stderr: stderr_target(spec.output_ref()),
    }
}

/// Where a stream goes follows the output configuration: a stream is piped
/// back exactly when the configuration captures it, appended to a log exactly
/// when the configuration logs it there, and inherited otherwise.
pub proof fn law_stream_targets_follow_output(output: ProcessOutputView)
    ensures
        stdout_target_of(output) is Piped <==> output_captures_stdout(output),
        stderr_target_of(output) is Piped <==> output_captures_stderr(output),
        output_stdout_log(output) matches Some(path) ==> stdout_target_of(output)
            == StreamTargetView::AppendLog(path),
        output_stderr_log(output) matches Some(path) ==> stderr_target_of(output)
            == StreamTargetView::AppendLog(path),
        stdout_target_of(output) matches StreamTargetView::AppendLog(path) ==> output_stdout_log(
            output,
        ) == Some(path),
        stderr_target_of(output) matches StreamTargetView::AppendLog(path) ==> output_stderr_log(
            output,
        ) == Some(path),
        stdout_target_of(output) is Inherit <==> !output_captures_stdout(output) && output_stdout_log(
            output,
        ) is None,
        stderr_target_of(output) is Inherit <==> !output_captures_stderr(output) && output_stderr_log(
            output,
        ) is None,
{
}

/// A child launched from a plan resolves, from the environment the plan sets,
/// the control codec its spec selected: host and child speak the same codec.
pub proof fn law_child_resolves_planned_codec(
    env: Map<Seq<char>, Seq<char>>,
    codec: PorkControlCodec,
)
    ensures
        env.insert(PORK_CONTROL_CODEC_ENV@, codec_env_value(codec)).contains_key(
            PORK_CONTROL_CODEC_ENV@,
        ),
        parsed_codec(env.insert(PORK_CONTROL_CODEC_ENV@, codec_env_value(codec))[PORK_CONTROL_CODEC_ENV@])
            == Some(codec),
{
    lemma_codec_text_round_trip(codec);
}

/// A child launched from a plan finds the host's two handshake server names
/// under the spec's two bootstrap variables, provided the two variables and
/// the codec variable are three different names.
pub proof fn law_child_finds_planned_servers(
    env: Map<Seq<char>, Seq<char>>,
    data_env_name: Seq<char>,
    control_env_name: Seq<char>,
    data_server_name: Seq<char>,
    control_server_name: Seq<char>,
    codec: PorkControlCodec,
)
    requires
        data_env_name != control_env_name,
        data_env_name != PORK_CONTROL_CODEC_ENV@,
        control_env_name != PORK_CONTROL_CODEC_ENV@,
    ensures
        ({
            let seen = env.insert(data_env_name, data_server_name).insert(
                control_env_name,
                control_server_name,
            ).insert(PORK_CONTROL_CODEC_ENV@, codec_env_value(codec));
            &&& seen.contains_key(data_env_name) && seen[data_env_name] == data_server_name
            &&& seen.contains_key(control_env_name) && seen[control_env_name] == control_server_name
        }),
{
}

} // verus!
