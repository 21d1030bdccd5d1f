//! Importing a configuration file.
use vstd::prelude::*;
use crate::config::{Config, ConfigSourceView, ConfigView, PRIVATE_MODE, UNREADABLE};
use crate::disk::{Disk, Next, NextView, Outcome, OutcomeView, Task, TaskView};
use crate::paths::{config_dir, config_path, Environment};

verus! {

/// The steps of an import, in their order, with what they have to work on.
pub enum ImportStep {
    /// Read the file to import.
    Read,
    /// Create the directory of the configuration.
    CreateDir(Config),
    /// Create the configuration file, which must not be there yet.
    CreateFile(Config),
    /// Encode the settings.
    Encode(Config),
    /// Write the encoded settings.
    Write(Vec<u8>),
}

/// The model of an [`ImportStep`].
pub enum ImportStepView {
    Read,
    CreateDir(ConfigView),
    CreateFile(ConfigView),
    Encode(ConfigView),
    Write(Seq<u8>),
}

impl View for ImportStep {
    type V = ImportStepView;

    open spec fn view(&self) -> ImportStepView {
        match self {
            ImportStep::Read => ImportStepView::Read,
            ImportStep::CreateDir(cfg) => ImportStepView::CreateDir(cfg@),
            ImportStep::CreateFile(cfg) => ImportStepView::CreateFile(cfg@),
            ImportStep::Encode(cfg) => ImportStepView::Encode(cfg@),
            ImportStep::Write(data) => ImportStepView::Write(data@),
        }
    }
}

/// The message of an import that installed the configuration.
pub const INSTALLED: &'static str = "Private Tapo configuration installed.";

/// The message of an import that met an existing configuration.
pub const RETAINED: &'static str = "Existing Tapo configuration retained.";

impl ImportStepView {
    /// The task of the step, when the file at `source` is imported.
    pub open spec fn task(self, env: Environment, source: Seq<u8>) -> TaskView {
        match self {
            ImportStepView::Read => TaskView::ReadConfig(source),
            ImportStepView::CreateDir(_) => TaskView::CreateDir(env.config_folder()),
            ImportStepView::CreateFile(_) => TaskView::CreateNew {
                path: env.config_file(),
                mode: PRIVATE_MODE,
            },
            ImportStepView::Encode(cfg) => TaskView::Encode(cfg),
            ImportStepView::Write(data) => TaskView::Write { data, sync: false },
        }
    }

    /// Why the import ends when the task of the step fails.
    pub open spec fn failure(self) -> Seq<char> {
        match self {
            ImportStepView::Read => UNREADABLE@,
            ImportStepView::CreateDir(_) => "Cannot create configuration directory."@,
            ImportStepView::CreateFile(_) => "Cannot create private Tapo configuration."@,
            ImportStepView::Encode(_) => "Cannot encode Tapo configuration."@,
            ImportStepView::Write(_) => "Cannot write Tapo configuration."@,
        }
    }
}

/// What follows a step of an import.
pub open spec fn import_next(step: ImportStepView, outcome: OutcomeView) -> NextView<
    ImportStepView,
> {
    match (step, outcome) {
        (ImportStepView::Read, OutcomeView::Source(source)) => match crate::config::accepted(
            source,
        ) {
            Ok(cfg) => NextView::Continue(ImportStepView::CreateDir(cfg)),
            Err(reason) => NextView::Finish(Err(reason)),
        },
        (ImportStepView::CreateDir(cfg), OutcomeView::Done) => NextView::Continue(
            ImportStepView::CreateFile(cfg),
        ),
        (ImportStepView::CreateFile(cfg), OutcomeView::Done) => NextView::Continue(
            ImportStepView::Encode(cfg),
        ),
        (ImportStepView::CreateFile(_), OutcomeView::Exists) => NextView::Finish(Ok(RETAINED@)),
        (ImportStepView::Encode(_), OutcomeView::Encoded(data)) => NextView::Continue(
            ImportStepView::Write(data),
        ),
        (ImportStepView::Write(_), OutcomeView::Done) => NextView::Finish(Ok(INSTALLED@)),
        _ => NextView::Finish(Err(step.failure())),
    }
}

impl ImportStep {
    /// Gives the task of the step, when the file at `source` is imported.
    pub fn task(&self, env: &Environment, source: &Vec<u8>) -> (r: Task)
        ensures
            r@ == self@.task(*env, source@),
    {
        match self {
            ImportStep::Read => Task::ReadConfig(source.clone()),
            ImportStep::CreateDir(_) => Task::CreateDir(config_dir(env)),
            ImportStep::CreateFile(_) => Task::CreateNew {
                path: config_path(env),
                mode: PRIVATE_MODE,
            },
            ImportStep::Encode(cfg) => Task::Encode(cfg.copy()),
            ImportStep::Write(data) => Task::Write { data: data.clone(), sync: false },
        }
    }
}

/// Decides what follows a step of an import.
pub fn import_config(step: ImportStep, outcome: Outcome) -> (r: Next<ImportStep>)
    ensures
        r@ == import_next(step@, outcome@),
{
    match step {
        ImportStep::Read => match outcome {
            Outcome::Source(source) => match Config::read(source) {
                Ok(cfg) => Next::Continue(ImportStep::CreateDir(cfg)),
                Err(reason) => Next::Finish(Err(reason)),
            },
            _ => Next::Finish(Err(UNREADABLE)),
        },
        ImportStep::CreateDir(cfg) => match outcome {
            Outcome::Done => Next::Continue(ImportStep::CreateFile(cfg)),
            _ => Next::Finish(Err("Cannot create configuration directory.")),
        },
        ImportStep::CreateFile(cfg) => match outcome {
            Outcome::Done => Next::Continue(ImportStep::Encode(cfg)),
            Outcome::Exists => Next::Finish(Ok(RETAINED)),
            _ => Next::Finish(Err("Cannot create private Tapo configuration.")),
        },
        ImportStep::Encode(_) => match outcome {
            Outcome::Encoded(data) => Next::Continue(ImportStep::Write(data)),
            _ => Next::Finish(Err("Cannot encode Tapo configuration.")),
        },
        ImportStep::Write(_) => match outcome {
            Outcome::Done => Next::Finish(Ok(INSTALLED)),
            _ => Next::Finish(Err("Cannot write Tapo configuration.")),
        },
    }
}

/// Where an import stands after some outcomes.
pub open spec fn import_at(outcomes: Seq<OutcomeView>) -> NextView<ImportStepView>
    decreases outcomes.len(),
{
    if outcomes.len() == 0 {
        NextView::Continue(ImportStepView::Read)
    } else {
        match import_at(outcomes.drop_last()) {
            NextView::Continue(step) => import_next(step, outcomes.last()),
            end => end,
        }
    }
}

/// Whether some outcomes lead an import to a step: all were successes, the settings are those
/// that the file to import gave, and the bytes are those that encoding gave.
pub open spec fn import_history(outcomes: Seq<OutcomeView>, step: ImportStepView) -> bool {
    &&& outcomes.len() >= 2 ==> outcomes[1] is Done
    &&& outcomes.len() >= 3 ==> outcomes[2] is Done
    &&& match step {
        ImportStepView::Read => outcomes.len() == 0,
        ImportStepView::CreateDir(cfg) => outcomes.len() == 1 && outcomes[0].settings() == Some(
            cfg,
        ),
        ImportStepView::CreateFile(cfg) => outcomes.len() == 2 && outcomes[0].settings() == Some(
            cfg,
        ),
        ImportStepView::Encode(cfg) => outcomes.len() == 3 && outcomes[0].settings() == Some(cfg),
        ImportStepView::Write(data) => outcomes.len() == 4 && outcomes[0].settings() is Some
            && outcomes[3] == OutcomeView::Encoded(data),
    }
}

/// An import takes its steps in order, and each only when all before it have succeeded. It asks
/// for the encoding of just the settings that it read, which are accepted again, unchanged, and it
/// writes just what that gave. It writes nothing unless it has created the file itself.
pub proof fn import_takes_steps_in_order(outcomes: Seq<OutcomeView>, step: ImportStepView)
    requires
        import_at(outcomes) == NextView::Continue(step),
    ensures
        import_history(outcomes, step),
        step matches ImportStepView::Encode(cfg) ==> crate::config::accepted(
            ConfigSourceView::Parsed(cfg),
        ) == Ok::<ConfigView, Seq<char>>(cfg),
    decreases outcomes.len(),
{
    if outcomes.len() > 0 {
        let earlier = outcomes.drop_last();
        if let NextView::Continue(last) = import_at(earlier) {
            import_takes_steps_in_order(earlier, last);
            assert(forall|i: int| 0 <= i < earlier.len() ==> earlier[i] == outcomes[i]);
        }
    }
}

/// An import reports that it installed the configuration only when every step has succeeded.
pub proof fn import_installs_only_in_full(
    outcomes: Seq<OutcomeView>,
    step: ImportStepView,
    outcome: OutcomeView,
)
    requires
        import_at(outcomes) == NextView::Continue(step),
        import_next(step, outcome) == NextView::<ImportStepView>::Finish(Ok(INSTALLED@)),
    ensures
        step is Write,
        outcome is Done,
        import_history(outcomes, step),
{
    import_takes_steps_in_order(outcomes, step);
    reveal_strlit("Private Tapo configuration installed.");
    reveal_strlit("Existing Tapo configuration retained.");
    assert(INSTALLED@[0] == 'P');
    assert(RETAINED@[0] == 'E');
}

/// An import whose steps all succeed installs the configuration.
pub proof fn import_installs_when_every_step_succeeds(source: ConfigSourceView, data: Seq<u8>)
    requires
        crate::config::accepted(source) is Ok,
    ensures
        import_at(
            seq![
                OutcomeView::Source(source),
                OutcomeView::Done,
                OutcomeView::Done,
                OutcomeView::Encoded(data),
                OutcomeView::Done,
            ],
        ) == NextView::<ImportStepView>::Finish(Ok(INSTALLED@)),
{
    let cfg = crate::config::accepted(source)->Ok_0;
    let o5 = seq![
        OutcomeView::Source(source),
        OutcomeView::Done,
        OutcomeView::Done,
        OutcomeView::Encoded(data),
        OutcomeView::Done,
    ];
    let o4 = o5.drop_last();
    let o3 = o4.drop_last();
    let o2 = o3.drop_last();
    let o1 = o2.drop_last();
    assert(import_at(o1.drop_last()) == NextView::Continue(ImportStepView::Read));
    assert(import_at(o1) == NextView::Continue(ImportStepView::CreateDir(cfg)));
    assert(import_at(o2) == NextView::Continue(ImportStepView::CreateFile(cfg)));
    assert(import_at(o3) == NextView::Continue(ImportStepView::Encode(cfg)));
    assert(import_at(o4) == NextView::Continue(ImportStepView::Write(data)));
}

/// Whether an import of the file at `source` may have had some outcomes and have taken the disk
/// through some states.
pub open spec fn import_run(
    env: Environment,
    source: Seq<u8>,
    disks: Seq<Disk>,
    outcomes: Seq<OutcomeView>,
) -> bool
    decreases outcomes.len(),
{
    &&& disks.len() == outcomes.len() + 1
    &&& outcomes.len() > 0 ==> {
        let earlier = outcomes.drop_last();
        &&& import_run(env, source, disks.drop_last(), earlier)
        &&& import_at(earlier) matches NextView::Continue(step)
            && disks.drop_last().last().leads_to(
            step.task(env, source),
            outcomes.last(),
            disks.last(),
        )
    }
}

proof fn import_run_inv(
    env: Environment,
    source: Seq<u8>,
    disks: Seq<Disk>,
    outcomes: Seq<OutcomeView>,
)
    requires
        import_run(env, source, disks, outcomes),
    ensures
        forall|path: Seq<u8>|
            path != env.config_file() || disks[0].files.contains_key(path)
                ==> #[trigger] disks[0].agrees(disks.last(), path),
        match import_at(outcomes) {
            NextView::Continue(ImportStepView::Encode(_)) => {
                &&& !disks[0].files.contains_key(env.config_file())
                &&& disks.last().open == Some(env.config_file())
                &&& disks.last().files == disks[0].files.insert(env.config_file(), Seq::empty())
            },
            NextView::Continue(ImportStepView::Write(_)) => {
                &&& !disks[0].files.contains_key(env.config_file())
                &&& disks.last().open == Some(env.config_file())
                &&& disks.last().files == disks[0].files.insert(env.config_file(), Seq::empty())
            },
            NextView::Continue(_) => disks.last() == disks[0],
            NextView::Finish(Ok(message)) => message == INSTALLED@ ==> {
                &&& !disks[0].files.contains_key(env.config_file())
                &&& outcomes.len() == 5
                &&& outcomes[0].settings() is Some
                &&& outcomes[3] is Encoded
                &&& disks.last().files == disks[0].files.insert(
                    env.config_file(),
                    outcomes[3].data(),
                )
            },
            NextView::Finish(Err(_)) => true,
        },
    decreases outcomes.len(),
{
    if outcomes.len() > 0 {
        let earlier = outcomes.drop_last();
        let before = disks.drop_last().last();
        import_run_inv(env, source, disks.drop_last(), earlier);
        let step = import_at(earlier)->Continue_0;
        import_takes_steps_in_order(earlier, step);
        if import_next(step, outcomes.last()) == NextView::<ImportStepView>::Finish(
            Ok(INSTALLED@),
        ) {
            import_installs_only_in_full(earlier, step, outcomes.last());
            assert(Seq::<u8>::empty() + outcomes[3].data() == outcomes[3].data());
            assert(earlier[3] == outcomes[3] && earlier[0] == outcomes[0]);
            assert(disks.last().files =~= disks[0].files.insert(
                env.config_file(),
                outcomes[3].data(),
            ));
        }
        assert forall|path: Seq<u8>|
            path != env.config_file() || disks[0].files.contains_key(
                path,
            ) implies #[trigger] disks[0].agrees(disks.last(), path) by {
            assert(disks[0].agrees(before, path));
            assert(before.exposes(step.task(env, source), path) || before.agrees(
                disks.last(),
                path,
            ));
        }
    }
}

/// An import changes no file but the configuration, and that only if there was none. So an
/// existing configuration is retained, and so is the file that is imported, whatever fails.
pub proof fn import_keeps_existing_files(
    env: Environment,
    source: Seq<u8>,
    disks: Seq<Disk>,
    outcomes: Seq<OutcomeView>,
    path: Seq<u8>,
)
    requires
        import_run(env, source, disks, outcomes),
        path != env.config_file() || disks[0].files.contains_key(path),
    ensures
        disks[0].agrees(disks.last(), path),
{
    import_run_inv(env, source, disks, outcomes);
}

/// An import that reports so has installed the settings that it read: the configuration, which
/// was not there, holds their encoding. If parsing that encoding gives back what was encoded,
/// reading the configuration gives just those settings.
pub proof fn imported_settings_read_back(
    env: Environment,
    source: Seq<u8>,
    disks: Seq<Disk>,
    outcomes: Seq<OutcomeView>,
    parse: spec_fn(Seq<u8>) -> ConfigSourceView,
)
    requires
        import_run(env, source, disks, outcomes),
        import_at(outcomes) == NextView::<ImportStepView>::Finish(Ok(INSTALLED@)),
    ensures
        !disks[0].files.contains_key(env.config_file()),
        disks.last().files == disks[0].files.insert(env.config_file(), outcomes[3].data()),
        outcomes[0].settings() matches Some(cfg) && (parse(outcomes[3].data())
            == ConfigSourceView::Parsed(cfg) ==> crate::config::accepted(
            parse(disks.last().files[env.config_file()]),
        ) == Ok::<ConfigView, Seq<char>>(cfg)),
{
    import_run_inv(env, source, disks, outcomes);
}

/// An import that meets an existing configuration succeeds.
pub proof fn import_retains_an_existing_file(outcomes: Seq<OutcomeView>, cfg: ConfigView)
    requires
        import_at(outcomes) == NextView::Continue(ImportStepView::CreateFile(cfg)),
    ensures
        import_at(outcomes.push(OutcomeView::Exists)) == NextView::<ImportStepView>::Finish(
            Ok(RETAINED@),
        ),
{
    assert(outcomes.push(OutcomeView::Exists).drop_last() == outcomes);
}

/// An import reads the file that was named, verbatim, and creates and writes just the
/// configuration file, which none but its owner can read.
pub proof fn import_reads_the_named_file(
    env: Environment,
    source: Seq<u8>,
    cfg: ConfigView,
    data: Seq<u8>,
)
    ensures
        ImportStepView::Read.task(env, source) == TaskView::ReadConfig(source),
        ImportStepView::CreateDir(cfg).task(env, source) == TaskView::CreateDir(
            env.config_folder(),
        ),
        ImportStepView::CreateFile(cfg).task(env, source) == (TaskView::CreateNew {
            path: env.config_file(),
            mode: 0o600,
        }),
        ImportStepView::Encode(cfg).task(env, source) == TaskView::Encode(cfg),
        ImportStepView::Write(data).task(env, source) == (TaskView::Write { data, sync: false }),
{
}

/// Each step of an import that succeeds is followed by the next one, with what it gave.
pub proof fn import_goes_on_after_success(
    source: ConfigSourceView,
    cfg: ConfigView,
    data: Seq<u8>,
)
    ensures
        crate::config::accepted(source) == Ok::<ConfigView, Seq<char>>(cfg) ==> import_next(
            ImportStepView::Read,
            OutcomeView::Source(source),
        ) == NextView::Continue(ImportStepView::CreateDir(cfg)),
        import_next(ImportStepView::CreateDir(cfg), OutcomeView::Done) == NextView::Continue(
            ImportStepView::CreateFile(cfg),
        ),
        import_next(ImportStepView::CreateFile(cfg), OutcomeView::Done) == NextView::Continue(
            ImportStepView::Encode(cfg),
        ),
        import_next(ImportStepView::Encode(cfg), OutcomeView::Encoded(data))
            == NextView::Continue(ImportStepView::Write(data)),
        import_next(ImportStepView::Write(data), OutcomeView::Done) == NextView::<
            ImportStepView,
        >::Finish(Ok("Private Tapo configuration installed."@)),
        import_next(ImportStepView::CreateFile(cfg), OutcomeView::Exists) == NextView::<
            ImportStepView,
        >::Finish(Ok("Existing Tapo configuration retained."@)),
{
}

/// Each step of an import that does not succeed ends it with the reason for that step.
pub proof fn import_ends_with_the_reason(
    source: ConfigSourceView,
    reason: Seq<char>,
    cfg: ConfigView,
    data: Seq<u8>,
    outcome: OutcomeView,
)
    ensures
        crate::config::accepted(source) == Err::<ConfigView, Seq<char>>(reason) ==> import_next(
            ImportStepView::Read,
            OutcomeView::Source(source),
        ) == NextView::<ImportStepView>::Finish(Err(reason)),
        !(outcome is Source) ==> import_next(ImportStepView::Read, outcome) == NextView::<
            ImportStepView,
        >::Finish(Err("Cannot read waybar/tapo.json. Run tapo-setup.sh first."@)),
        !(outcome is Done) ==> import_next(ImportStepView::CreateDir(cfg), outcome) == NextView::<
            ImportStepView,
        >::Finish(Err("Cannot create configuration directory."@)),
        !(outcome is Done) && !(outcome is Exists) ==> import_next(
            ImportStepView::CreateFile(cfg),
            outcome,
        ) == NextView::<ImportStepView>::Finish(Err("Cannot create private Tapo configuration."@)),
        !(outcome is Encoded) ==> import_next(ImportStepView::Encode(cfg), outcome) == NextView::<
            ImportStepView,
        >::Finish(Err("Cannot encode Tapo configuration."@)),
        !(outcome is Done) ==> import_next(ImportStepView::Write(data), outcome) == NextView::<
            ImportStepView,
        >::Finish(Err("Cannot write Tapo configuration."@)),
{
}

/// An import that reports so has installed what the named file held at the start: reading the
/// configuration then gives just the settings that reading the named file gave.
pub proof fn import_installs_what_the_named_file_held(
    env: Environment,
    source: Seq<u8>,
    disks: Seq<Disk>,
    outcomes: Seq<OutcomeView>,
    parse: spec_fn(Seq<u8>) -> ConfigSourceView,
)
    requires
        import_run(env, source, disks, outcomes),
        import_at(outcomes) == NextView::<ImportStepView>::Finish(Ok(INSTALLED@)),
        forall|i: int|
            #![trigger import_at(outcomes.take(i))]
            0 <= i < outcomes.len() ==> (import_at(outcomes.take(i)) matches NextView::Continue(
                step,
            ) ==> disks[i].yields(step.task(env, source), outcomes[i], parse)),
    ensures
        disks[0].files.contains_key(source),
        crate::config::accepted(parse(disks[0].files[source])) is Ok,
        crate::config::accepted(parse(disks.last().files[env.config_file()]))
            == crate::config::accepted(parse(disks[0].files[source])),
{
    import_run_inv(env, source, disks, outcomes);
    let o4 = outcomes.drop_last();
    let o3 = o4.drop_last();
    assert(import_run(env, source, disks.drop_last(), o4));
    assert(import_at(o3) is Continue);
    let step = import_at(o3)->Continue_0;
    import_takes_steps_in_order(o3, step);
    assert(o3 =~= outcomes.take(3));
    assert(import_at(outcomes.take(3)) is Continue);
    assert(outcomes.take(0) =~= Seq::<OutcomeView>::empty());
    assert(import_at(outcomes.take(0)) == NextView::Continue(ImportStepView::Read));
    import_reads_the_named_file(env, source, outcomes[0].settings()->0, outcomes[3].data());
    assert(disks[0].yields(TaskView::ReadConfig(source), outcomes[0], parse));
    assert(o3[0] == outcomes[0]);
    assert(disks[3].yields(step.task(env, source), outcomes[3], parse));
}

/// The models of the steps are those of what they hold.
pub proof fn import_steps_are_what_they_hold(cfg: Config, data: Vec<u8>)
    ensures
        ImportStep::Read@ == ImportStepView::Read,
        ImportStep::CreateDir(cfg)@ == ImportStepView::CreateDir(cfg@),
        ImportStep::CreateFile(cfg)@ == ImportStepView::CreateFile(cfg@),
        ImportStep::Encode(cfg)@ == ImportStepView::Encode(cfg@),
        ImportStep::Write(data)@ == ImportStepView::Write(data@),
{
}

} // verus!
