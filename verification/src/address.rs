//! Changing the address in the configuration.
use vstd::prelude::*;
use crate::config::{Config, ConfigSourceView, ConfigView, PRIVATE_MODE, UNREADABLE};
use crate::disk::{Disk, Next, NextView, Outcome, OutcomeView, Task, TaskView};
use crate::paths::{config_path, staging_path, Environment};
use crate::text::trim;

verus! {

/// The steps of a change of address, in their order, with what they have to work on.
pub enum SetIpStep {
    /// Check that the new address is one.
    Check(String),
    /// Read the configuration, to change its address to this one.
    Read(String),
    /// Encode the settings with the new address.
    Encode(Config),
    /// Create the file in which the new configuration is prepared, for these bytes.
    Create(Vec<u8>),
    /// Write the new configuration to it and to disk.
    Write(Vec<u8>),
    /// Put it in the place of the old one.
    Replace,
}

/// The model of a [`SetIpStep`].
pub enum SetIpStepView {
    Check(Seq<char>),
    Read(Seq<char>),
    Encode(ConfigView),
    Create(Seq<u8>),
    Write(Seq<u8>),
    Replace,
}

impl View for SetIpStep {
    type V = SetIpStepView;

    open spec fn view(&self) -> SetIpStepView {
        match self {
            SetIpStep::Check(value) => SetIpStepView::Check(value@),
            SetIpStep::Read(value) => SetIpStepView::Read(value@),
            SetIpStep::Encode(cfg) => SetIpStepView::Encode(cfg@),
            SetIpStep::Create(data) => SetIpStepView::Create(data@),
            SetIpStep::Write(data) => SetIpStepView::Write(data@),
            SetIpStep::Replace => SetIpStepView::Replace,
        }
    }
}

/// The message of a change of address that succeeded.
pub const UPDATED: &'static str = "Tapo device address updated.";

impl SetIpStepView {
    /// The task of the step.
    pub open spec fn task(self, env: Environment) -> TaskView {
        match self {
            SetIpStepView::Check(value) => TaskView::CheckAddress(value),
            SetIpStepView::Read(_) => TaskView::ReadConfig(env.config_file()),
            SetIpStepView::Encode(cfg) => TaskView::Encode(cfg),
            SetIpStepView::Create(_) => TaskView::CreateOrEmpty {
                path: env.staging_file(),
                mode: PRIVATE_MODE,
            },
            SetIpStepView::Write(data) => TaskView::Write { data, sync: true },
            SetIpStepView::Replace => TaskView::Rename {
                from: env.staging_file(),
                to: env.config_file(),
            },
        }
    }

    /// Why the change of address ends when the task of the step fails.
    pub open spec fn failure(self) -> Seq<char> {
        match self {
            SetIpStepView::Check(_) => "Invalid IP address."@,
            SetIpStepView::Read(_) => UNREADABLE@,
            SetIpStepView::Encode(_) => "Cannot encode Tapo configuration."@,
            SetIpStepView::Create(_) => "Cannot create temporary Tapo configuration."@,
            SetIpStepView::Write(_) => "Cannot write Tapo configuration."@,
            SetIpStepView::Replace => "Cannot replace Tapo configuration."@,
        }
    }
}

/// What follows a step of a change of address. Blank text is no address, whatever its check says.
pub open spec fn set_ip_next(step: SetIpStepView, outcome: OutcomeView) -> NextView<
    SetIpStepView,
> {
    match (step, outcome) {
        (SetIpStepView::Check(value), OutcomeView::Done) if !crate::text::blank(value) => {
            NextView::Continue(SetIpStepView::Read(value))
        },
        (SetIpStepView::Read(value), OutcomeView::Source(source)) => match crate::config::accepted(
            source,
        ) {
            Ok(cfg) => NextView::Continue(SetIpStepView::Encode(cfg.at_address(value))),
            Err(reason) => NextView::Finish(Err(reason)),
        },
        (SetIpStepView::Encode(_), OutcomeView::Encoded(data)) => NextView::Continue(
            SetIpStepView::Create(data),
        ),
        (SetIpStepView::Create(data), OutcomeView::Done) => NextView::Continue(
            SetIpStepView::Write(data),
        ),
        (SetIpStepView::Write(_), OutcomeView::Done) => NextView::Continue(
            SetIpStepView::Replace,
        ),
        (SetIpStepView::Replace, OutcomeView::Done) => NextView::Finish(Ok(UPDATED@)),
        _ => NextView::Finish(Err(step.failure())),
    }
}

impl SetIpStep {
    /// Begins a change of address to `value`.
    pub fn first(value: &str) -> (r: SetIpStep)
        ensures
            r@ == SetIpStepView::Check(value@),
    {
        SetIpStep::Check(value.to_owned())
    }

    /// Gives the task of the step.
    pub fn task(&self, env: &Environment) -> (r: Task)
        ensures
            r@ == self@.task(*env),
    {
        match self {
            SetIpStep::Check(value) => Task::CheckAddress(value.clone()),
            SetIpStep::Read(_) => Task::ReadConfig(config_path(env)),
            SetIpStep::Encode(cfg) => Task::Encode(cfg.copy()),
            SetIpStep::Create(_) => Task::CreateOrEmpty {
                path: staging_path(env),
                mode: PRIVATE_MODE,
            },
            SetIpStep::Write(data) => Task::Write { data: data.clone(), sync: true },
            SetIpStep::Replace => Task::Rename { from: staging_path(env), to: config_path(env) },
        }
    }
}

/// Decides what follows a step of a change of address.
pub fn set_ip(step: SetIpStep, outcome: Outcome) -> (r: Next<SetIpStep>)
    ensures
        r@ == set_ip_next(step@, outcome@),
{
    match step {
        SetIpStep::Check(value) => match outcome {
            Outcome::Done => {
                proof {
                    crate::text::trimmed_empty_iff_blank(value@);
                }
                if trim(value.as_str()).is_empty() {
                    Next::Finish(Err("Invalid IP address."))
                } else {
                    Next::Continue(SetIpStep::Read(value))
                }
            },
            _ => Next::Finish(Err("Invalid IP address.")),
        },
        SetIpStep::Read(value) => match outcome {
            Outcome::Source(source) => match Config::read(source) {
                Ok(cfg) => Next::Continue(SetIpStep::Encode(cfg.readdressed(value.as_str()))),
                Err(reason) => Next::Finish(Err(reason)),
            },
            _ => Next::Finish(Err(UNREADABLE)),
        },
        SetIpStep::Encode(_) => match outcome {
            Outcome::Encoded(data) => Next::Continue(SetIpStep::Create(data)),
            _ => Next::Finish(Err("Cannot encode Tapo configuration.")),
        },
        SetIpStep::Create(data) => match outcome {
            Outcome::Done => Next::Continue(SetIpStep::Write(data)),
            _ => Next::Finish(Err("Cannot create temporary Tapo configuration.")),
        },
        SetIpStep::Write(_) => match outcome {
            Outcome::Done => Next::Continue(SetIpStep::Replace),
            _ => Next::Finish(Err("Cannot write Tapo configuration.")),
        },
        SetIpStep::Replace => match outcome {
            Outcome::Done => Next::Finish(Ok(UPDATED)),
            _ => Next::Finish(Err("Cannot replace Tapo configuration.")),
        },
    }
}

/// Where a change of address to `value` stands after some outcomes.
pub open spec fn set_ip_at(value: Seq<char>, outcomes: Seq<OutcomeView>) -> NextView<
    SetIpStepView,
>
    decreases outcomes.len(),
{
    if outcomes.len() == 0 {
        NextView::Continue(SetIpStepView::Check(value))
    } else {
        match set_ip_at(value, outcomes.drop_last()) {
            NextView::Continue(step) => set_ip_next(step, outcomes.last()),
            end => end,
        }
    }
}

/// Whether some outcomes lead a change of address to a step: the address is not blank once it has
/// been checked, all outcomes were successes, the settings are the old ones at the new address,
/// and the bytes are those that encoding gave.
pub open spec fn set_ip_history(
    value: Seq<char>,
    outcomes: Seq<OutcomeView>,
    step: SetIpStepView,
) -> bool {
    &&& outcomes.len() >= 1 ==> outcomes[0] is Done && !crate::text::blank(value)
    &&& outcomes.len() >= 2 ==> outcomes[1].settings() is Some
    &&& outcomes.len() >= 3 ==> outcomes[2] is Encoded
    &&& outcomes.len() >= 4 ==> outcomes[3] is Done
    &&& outcomes.len() >= 5 ==> outcomes[4] is Done
    &&& match step {
        SetIpStepView::Check(v) => outcomes.len() == 0 && v == value,
        SetIpStepView::Read(v) => outcomes.len() == 1 && v == value,
        SetIpStepView::Encode(cfg) => outcomes.len() == 2 && cfg
            == outcomes[1].settings()->0.at_address(value),
        SetIpStepView::Create(data) => outcomes.len() == 3 && outcomes[2]
            == OutcomeView::Encoded(data),
        SetIpStepView::Write(data) => outcomes.len() == 4 && outcomes[2] == OutcomeView::Encoded(
            data,
        ),
        SetIpStepView::Replace => outcomes.len() == 5,
    }
}

/// A change of address takes its steps in order, and each only when all before it have succeeded.
/// So an invalid address is rejected before the configuration is read. It asks for the encoding
/// of the old settings with the new address, verbatim, which are accepted, and writes just what
/// that gave.
pub proof fn set_ip_takes_steps_in_order(
    value: Seq<char>,
    outcomes: Seq<OutcomeView>,
    step: SetIpStepView,
)
    requires
        set_ip_at(value, outcomes) == NextView::Continue(step),
    ensures
        set_ip_history(value, outcomes, step),
        step matches SetIpStepView::Encode(cfg) ==> crate::config::accepted(
            ConfigSourceView::Parsed(cfg),
        ) == Ok::<ConfigView, Seq<char>>(cfg),
    decreases outcomes.len(),
{
    if outcomes.len() > 0 {
        let earlier = outcomes.drop_last();
        if let NextView::Continue(last) = set_ip_at(value, earlier) {
            set_ip_takes_steps_in_order(value, earlier, last);
            assert(forall|i: int| 0 <= i < earlier.len() ==> earlier[i] == outcomes[i]);
        }
    }
}

/// A change of address reports success only when every step has succeeded, and it reports an
/// invalid address exactly when the check, which comes first, has failed or the address is blank.
pub proof fn set_ip_succeeds_only_in_full(
    value: Seq<char>,
    outcomes: Seq<OutcomeView>,
    step: SetIpStepView,
    outcome: OutcomeView,
)
    requires
        set_ip_at(value, outcomes) == NextView::Continue(step),
    ensures
        set_ip_next(step, outcome) matches NextView::Finish(Ok(message)) ==> {
            &&& message == UPDATED@
            &&& step is Replace
            &&& outcome is Done
            &&& set_ip_history(value, outcomes, step)
        },
        set_ip_next(step, outcome) == NextView::<SetIpStepView>::Finish(
            Err("Invalid IP address."@),
        ) <==> step is Check && (!(outcome is Done) || crate::text::blank(value)),
        step is Check ==> outcomes.len() == 0,
{
    set_ip_takes_steps_in_order(value, outcomes, step);
    reveal_strlit("Invalid IP address.");
    reveal_strlit("Cannot read waybar/tapo.json. Run tapo-setup.sh first.");
    reveal_strlit("Invalid Tapo config; required: device_ip, username, password.");
    reveal_strlit("Tapo connection settings cannot be empty.");
    reveal_strlit("Cannot encode Tapo configuration.");
    reveal_strlit("Cannot create temporary Tapo configuration.");
    reveal_strlit("Cannot write Tapo configuration.");
    reveal_strlit("Cannot replace Tapo configuration.");
    assert("Invalid IP address."@.len() == 19);
}

/// A configuration that cannot be used ends a change to an address that passed its check, with its
/// own reason.
pub proof fn set_ip_reports_an_unusable_configuration(
    value: Seq<char>,
    source: ConfigSourceView,
    reason: Seq<char>,
)
    requires
        !crate::text::blank(value),
        crate::config::accepted(source) == Err::<ConfigView, Seq<char>>(reason),
    ensures
        set_ip_at(value, seq![OutcomeView::Done, OutcomeView::Source(source)]) == NextView::<
            SetIpStepView,
        >::Finish(Err(reason)),
{
    let o2 = seq![OutcomeView::Done, OutcomeView::Source(source)];
    let o1 = o2.drop_last();
    let o0 = o1.drop_last();
    assert(set_ip_at(value, o0) == NextView::Continue(SetIpStepView::Check(value)));
    assert(set_ip_at(value, o1) == NextView::Continue(SetIpStepView::Read(value)));
}

/// A change to an address that is not blank succeeds when all its steps do.
pub proof fn set_ip_succeeds_when_every_step_does(
    value: Seq<char>,
    source: ConfigSourceView,
    data: Seq<u8>,
)
    requires
        !crate::text::blank(value),
        crate::config::accepted(source) is Ok,
    ensures
        set_ip_at(
            value,
            seq![
                OutcomeView::Done,
                OutcomeView::Source(source),
                OutcomeView::Encoded(data),
                OutcomeView::Done,
                OutcomeView::Done,
                OutcomeView::Done,
            ],
        ) == NextView::<SetIpStepView>::Finish(Ok(UPDATED@)),
{
    let cfg = crate::config::accepted(source)->Ok_0;
    let o6 = seq![
        OutcomeView::Done,
        OutcomeView::Source(source),
        OutcomeView::Encoded(data),
        OutcomeView::Done,
        OutcomeView::Done,
        OutcomeView::Done,
    ];
    let o5 = o6.drop_last();
    let o4 = o5.drop_last();
    let o3 = o4.drop_last();
    let o2 = o3.drop_last();
    let o1 = o2.drop_last();
    assert(set_ip_at(value, o1.drop_last()) == NextView::Continue(SetIpStepView::Check(value)));
    assert(set_ip_at(value, o1) == NextView::Continue(SetIpStepView::Read(value)));
    assert(set_ip_at(value, o2) == NextView::Continue(
        SetIpStepView::Encode(cfg.at_address(value)),
    ));
    assert(set_ip_at(value, o3) == NextView::Continue(SetIpStepView::Create(data)));
    assert(set_ip_at(value, o4) == NextView::Continue(SetIpStepView::Write(data)));
    assert(set_ip_at(value, o5) == NextView::Continue(SetIpStepView::Replace));
}

/// Whether a change of address to `value` may have had some outcomes and have taken the disk
/// through some states.
pub open spec fn set_ip_run(
    env: Environment,
    value: Seq<char>,
    disks: Seq<Disk>,
    outcomes: Seq<OutcomeView>,
) -> bool
    decreases outcomes.len(),
{
    &&& disks.len() == outcomes.len() + 1
    &&& outcomes.len() > 0 ==> {
        let earlier = outcomes.drop_last();
        &&& set_ip_run(env, value, disks.drop_last(), earlier)
        &&& set_ip_at(value, earlier) matches NextView::Continue(step)
            && disks.drop_last().last().leads_to(step.task(env), outcomes.last(), disks.last())
    }
}

proof fn set_ip_run_inv(
    env: Environment,
    value: Seq<char>,
    disks: Seq<Disk>,
    outcomes: Seq<OutcomeView>,
)
    requires
        set_ip_run(env, value, disks, outcomes),
    ensures
        set_ip_at(value, outcomes) matches NextView::Finish(Ok(_)) || forall|path: Seq<u8>|
            path != env.staging_file() ==> #[trigger] disks[0].agrees(disks.last(), path),
        match set_ip_at(value, outcomes) {
            NextView::Continue(SetIpStepView::Write(data)) => {
                &&& disks.last().open == Some(env.staging_file())
                &&& disks.last().files == disks[0].files.insert(env.staging_file(), Seq::empty())
            },
            NextView::Continue(SetIpStepView::Replace) => disks.last().files
                == disks[0].files.insert(env.staging_file(), outcomes[2].data()),
            NextView::Continue(_) => disks.last() == disks[0],
            NextView::Finish(Ok(_)) => {
                &&& outcomes.len() == 6
                &&& !crate::text::blank(value)
                &&& outcomes[1].settings() is Some
                &&& outcomes[2] is Encoded
                &&& disks.last().files == disks[0].files.insert(
                    env.config_file(),
                    outcomes[2].data(),
                ).remove(env.staging_file())
            },
            NextView::Finish(Err(_)) => true,
        },
    decreases outcomes.len(),
{
    if outcomes.len() > 0 {
        let earlier = outcomes.drop_last();
        let before = disks.drop_last().last();
        set_ip_run_inv(env, value, disks.drop_last(), earlier);
        let step = set_ip_at(value, earlier)->Continue_0;
        set_ip_takes_steps_in_order(value, earlier, step);
        assert(forall|i: int| 0 <= i < earlier.len() ==> earlier[i] == outcomes[i]);
        if let SetIpStepView::Write(data) = step {
            assert(Seq::<u8>::empty() + data == data);
            if outcomes.last() is Done {
                assert(disks.last().files =~= disks[0].files.insert(env.staging_file(), data));
            }
        }
        if step is Replace && outcomes.last() is Done {
            assert(disks.last().files =~= disks[0].files.insert(
                env.config_file(),
                outcomes[2].data(),
            ).remove(env.staging_file()));
        } else {
            assert forall|path: Seq<u8>|
                path != env.staging_file() implies #[trigger] disks[0].agrees(
                disks.last(),
                path,
            ) by {
                assert(disks[0].agrees(before, path));
                assert(before.exposes(step.task(env), path) || before.agrees(disks.last(), path));
            }
        }
    }
}

/// A change of address that has failed, at whatever step, or is not yet through has left every
/// file as it was, the configuration among them, but for the one in which the new configuration is
/// prepared.
pub proof fn failed_change_keeps_the_configuration(
    env: Environment,
    value: Seq<char>,
    disks: Seq<Disk>,
    outcomes: Seq<OutcomeView>,
    path: Seq<u8>,
)
    requires
        set_ip_run(env, value, disks, outcomes),
        !(set_ip_at(value, outcomes) matches NextView::Finish(Ok(_))),
        path != env.staging_file(),
    ensures
        disks[0].agrees(disks.last(), path),
        env.config_file() != env.staging_file(),
{
    crate::paths::config_files_share_a_directory(env);
    set_ip_run_inv(env, value, disks, outcomes);
}

/// A change of address that succeeded has replaced the configuration by the encoding of the old
/// settings with the new address, and has left no other file behind. If parsing that encoding
/// gives back what was encoded, reading the configuration gives the old credentials and the new
/// address, verbatim.
pub proof fn changed_address_reads_back(
    env: Environment,
    value: Seq<char>,
    disks: Seq<Disk>,
    outcomes: Seq<OutcomeView>,
    parse: spec_fn(Seq<u8>) -> ConfigSourceView,
)
    requires
        set_ip_run(env, value, disks, outcomes),
        set_ip_at(value, outcomes) matches NextView::Finish(Ok(_)),
    ensures
        disks.last().files == disks[0].files.insert(env.config_file(), outcomes[2].data()).remove(
            env.staging_file(),
        ),
        outcomes[1].settings() matches Some(cfg) && (parse(
            outcomes[2].data(),
        ) == ConfigSourceView::Parsed(cfg.at_address(value)) ==> crate::config::accepted(
            parse(disks.last().files[env.config_file()]),
        ) == Ok::<ConfigView, Seq<char>>(cfg.at_address(value))),
{
    crate::paths::config_files_share_a_directory(env);
    set_ip_run_inv(env, value, disks, outcomes);
}

/// A change of address checks the text that was given, verbatim, reads the configuration, and
/// replaces it by a file beside it, which none but its owner can read and which is on disk before.
pub proof fn set_ip_replaces_the_configuration(
    env: Environment,
    value: Seq<char>,
    cfg: ConfigView,
    data: Seq<u8>,
)
    ensures
        SetIpStepView::Check(value).task(env) == TaskView::CheckAddress(value),
        SetIpStepView::Read(value).task(env) == TaskView::ReadConfig(env.config_file()),
        SetIpStepView::Encode(cfg).task(env) == TaskView::Encode(cfg),
        SetIpStepView::Create(data).task(env) == (TaskView::CreateOrEmpty {
            path: env.staging_file(),
            mode: 0o600,
        }),
        SetIpStepView::Write(data).task(env) == (TaskView::Write { data, sync: true }),
        SetIpStepView::Replace.task(env) == (TaskView::Rename {
            from: env.staging_file(),
            to: env.config_file(),
        }),
{
}

/// Each step of a change of address that succeeds is followed by the next one, with what it gave.
pub proof fn set_ip_goes_on_after_success(
    value: Seq<char>,
    source: ConfigSourceView,
    cfg: ConfigView,
    data: Seq<u8>,
)
    ensures
        (exists|i: int| 0 <= i < value.len() && !crate::text::white_space(#[trigger] value[i]))
            ==> set_ip_next(SetIpStepView::Check(value), OutcomeView::Done) == NextView::Continue(
            SetIpStepView::Read(value),
        ),
        crate::config::accepted(source) == Ok::<ConfigView, Seq<char>>(cfg) ==> set_ip_next(
            SetIpStepView::Read(value),
            OutcomeView::Source(source),
        ) == NextView::Continue(
            SetIpStepView::Encode(
                ConfigView { device_ip: value, username: cfg.username, password: cfg.password },
            ),
        ),
        set_ip_next(SetIpStepView::Encode(cfg), OutcomeView::Encoded(data)) == NextView::Continue(
            SetIpStepView::Create(data),
        ),
        set_ip_next(SetIpStepView::Create(data), OutcomeView::Done) == NextView::Continue(
            SetIpStepView::Write(data),
        ),
        set_ip_next(SetIpStepView::Write(data), OutcomeView::Done) == NextView::Continue(
            SetIpStepView::Replace,
        ),
        set_ip_next(SetIpStepView::Replace, OutcomeView::Done) == NextView::<
            SetIpStepView,
        >::Finish(Ok("Tapo device address updated."@)),
{
}

/// Each step of a change of address that does not succeed ends it with the reason for that step.
pub proof fn set_ip_ends_with_the_reason(
    value: Seq<char>,
    source: ConfigSourceView,
    reason: Seq<char>,
    cfg: ConfigView,
    data: Seq<u8>,
    outcome: OutcomeView,
)
    ensures
        !(outcome is Done) ==> set_ip_next(SetIpStepView::Check(value), outcome) == NextView::<
            SetIpStepView,
        >::Finish(Err("Invalid IP address."@)),
        crate::config::accepted(source) == Err::<ConfigView, Seq<char>>(reason) ==> set_ip_next(
            SetIpStepView::Read(value),
            OutcomeView::Source(source),
        ) == NextView::<SetIpStepView>::Finish(Err(reason)),
        !(outcome is Source) ==> set_ip_next(SetIpStepView::Read(value), outcome) == NextView::<
            SetIpStepView,
        >::Finish(Err("Cannot read waybar/tapo.json. Run tapo-setup.sh first."@)),
        !(outcome is Encoded) ==> set_ip_next(SetIpStepView::Encode(cfg), outcome) == NextView::<
            SetIpStepView,
        >::Finish(Err("Cannot encode Tapo configuration."@)),
        !(outcome is Done) ==> set_ip_next(SetIpStepView::Create(data), outcome) == NextView::<
            SetIpStepView,
        >::Finish(Err("Cannot create temporary Tapo configuration."@)),
        !(outcome is Done) ==> set_ip_next(SetIpStepView::Write(data), outcome) == NextView::<
            SetIpStepView,
        >::Finish(Err("Cannot write Tapo configuration."@)),
        !(outcome is Done) ==> set_ip_next(SetIpStepView::Replace, outcome) == NextView::<
            SetIpStepView,
        >::Finish(Err("Cannot replace Tapo configuration."@)),
{
}

/// A change of address that succeeded has changed the address that the configuration held, and
/// nothing else: reading the configuration then gives the credentials that it held at the start,
/// and the new address, verbatim.
pub proof fn set_ip_changes_the_address_alone(
    env: Environment,
    value: Seq<char>,
    disks: Seq<Disk>,
    outcomes: Seq<OutcomeView>,
    parse: spec_fn(Seq<u8>) -> ConfigSourceView,
)
    requires
        set_ip_run(env, value, disks, outcomes),
        set_ip_at(value, outcomes) matches NextView::Finish(Ok(_)),
        forall|i: int|
            #![trigger set_ip_at(value, outcomes.take(i))]
            0 <= i < outcomes.len() ==> (set_ip_at(
                value,
                outcomes.take(i),
            ) matches NextView::Continue(step) ==> disks[i].yields(
                step.task(env),
                outcomes[i],
                parse,
            )),
    ensures
        disks[0].files.contains_key(env.config_file()),
        crate::config::accepted(parse(disks[0].files[env.config_file()])) matches Ok(cfg)
            && crate::config::accepted(parse(disks.last().files[env.config_file()])) == Ok::<
            ConfigView,
            Seq<char>,
        >(ConfigView { device_ip: value, username: cfg.username, password: cfg.password }),
{
    crate::paths::config_files_share_a_directory(env);
    set_ip_run_inv(env, value, disks, outcomes);
    let o5 = outcomes.drop_last();
    let o4 = o5.drop_last();
    let o3 = o4.drop_last();
    let o2 = o3.drop_last();
    let o1 = o2.drop_last();
    let d5 = disks.drop_last();
    let d4 = d5.drop_last();
    let d3 = d4.drop_last();
    let d2 = d3.drop_last();
    let d1 = d2.drop_last();
    assert(set_ip_run(env, value, d5, o5));
    assert(set_ip_run(env, value, d4, o4));
    assert(set_ip_run(env, value, d3, o3));
    assert(set_ip_run(env, value, d2, o2));
    assert(set_ip_run(env, value, d1, o1));
    set_ip_run_inv(env, value, d1, o1);
    let reading = set_ip_at(value, o1)->Continue_0;
    let encoding = set_ip_at(value, o2)->Continue_0;
    set_ip_takes_steps_in_order(value, o1, reading);
    set_ip_takes_steps_in_order(value, o2, encoding);
    assert(o1 =~= outcomes.take(1));
    assert(o2 =~= outcomes.take(2));
    assert(set_ip_at(value, outcomes.take(1)) == NextView::Continue(reading));
    assert(set_ip_at(value, outcomes.take(2)) == NextView::Continue(encoding));
    assert(o2[1] == outcomes[1]);
    assert(d1.last() == disks[1] && d1[0] == disks[0]);
    assert(disks[1].yields(TaskView::ReadConfig(env.config_file()), outcomes[1], parse));
    assert(disks[2].yields(encoding.task(env), outcomes[2], parse));
}

/// The models of the steps are those of what they hold.
pub proof fn set_ip_steps_are_what_they_hold(value: String, cfg: Config, data: Vec<u8>)
    ensures
        SetIpStep::Check(value)@ == SetIpStepView::Check(value@),
        SetIpStep::Read(value)@ == SetIpStepView::Read(value@),
        SetIpStep::Encode(cfg)@ == SetIpStepView::Encode(cfg@),
        SetIpStep::Create(data)@ == SetIpStepView::Create(data@),
        SetIpStep::Write(data)@ == SetIpStepView::Write(data@),
        SetIpStep::Replace@ == SetIpStepView::Replace,
{
}

} // verus!
