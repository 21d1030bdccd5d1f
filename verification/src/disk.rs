//! The tasks that a procedure on the configuration file asks for, what comes of them, and what
//! they do to the files.
use vstd::prelude::*;
use crate::config::{Config, ConfigSource, ConfigSourceView, ConfigView};

verus! {

/// A task to perform. Paths are bytes.
pub enum Task {
    /// Check that a text is an IP address.
    CheckAddress(String),
    /// Read and parse a configuration file.
    ReadConfig(Vec<u8>),
    /// Create a directory and those above it, as far as they are not there.
    CreateDir(Vec<u8>),
    /// Create a file that must not be there yet, and open it.
    CreateNew { path: Vec<u8>, mode: u32 },
    /// Create a file, or empty the one that is there, and open it.
    CreateOrEmpty { path: Vec<u8>, mode: u32 },
    /// Encode settings as a JSON object.
    Encode(Config),
    /// Write to the file that was opened last, and on to disk if `sync` is set.
    Write { data: Vec<u8>, sync: bool },
    /// Put a file in the place of another.
    Rename { from: Vec<u8>, to: Vec<u8> },
}

/// The model of a [`Task`].
pub enum TaskView {
    CheckAddress(Seq<char>),
    ReadConfig(Seq<u8>),
    CreateDir(Seq<u8>),
    CreateNew { path: Seq<u8>, mode: u32 },
    CreateOrEmpty { path: Seq<u8>, mode: u32 },
    Encode(ConfigView),
    Write { data: Seq<u8>, sync: bool },
    Rename { from: Seq<u8>, to: Seq<u8> },
}

impl View for Task {
    type V = TaskView;

    open spec fn view(&self) -> TaskView {
        match self {
            Task::CheckAddress(text) => TaskView::CheckAddress(text@),
            Task::ReadConfig(path) => TaskView::ReadConfig(path@),
            Task::CreateDir(path) => TaskView::CreateDir(path@),
            Task::CreateNew { path, mode } => TaskView::CreateNew { path: path@, mode: *mode },
            Task::CreateOrEmpty { path, mode } => TaskView::CreateOrEmpty {
                path: path@,
                mode: *mode,
            },
            Task::Encode(cfg) => TaskView::Encode(cfg@),
            Task::Write { data, sync } => TaskView::Write { data: data@, sync: *sync },
            Task::Rename { from, to } => TaskView::Rename { from: from@, to: to@ },
        }
    }
}

/// What came of a task.
pub enum Outcome {
    /// It succeeded.
    Done,
    /// It failed because the file is already there.
    Exists,
    /// It failed.
    Failed,
    /// What reading and parsing a configuration file gave.
    Source(ConfigSource),
    /// The bytes that encoding gave.
    Encoded(Vec<u8>),
}

/// The model of an [`Outcome`].
pub enum OutcomeView {
    Done,
    Exists,
    Failed,
    Source(ConfigSourceView),
    Encoded(Seq<u8>),
}

impl View for Outcome {
    type V = OutcomeView;

    open spec fn view(&self) -> OutcomeView {
        match self {
            Outcome::Done => OutcomeView::Done,
            Outcome::Exists => OutcomeView::Exists,
            Outcome::Failed => OutcomeView::Failed,
            Outcome::Source(source) => OutcomeView::Source(source@),
            Outcome::Encoded(data) => OutcomeView::Encoded(data@),
        }
    }
}

impl OutcomeView {
    /// The settings that a configuration file gave, if the outcome is of one that gave any.
    pub open spec fn settings(self) -> Option<ConfigView> {
        match self {
            OutcomeView::Source(source) => match crate::config::accepted(source) {
                Ok(cfg) => Some(cfg),
                Err(_) => None,
            },
            _ => None,
        }
    }

    /// The bytes that encoding gave, if the outcome is of that.
    pub open spec fn data(self) -> Seq<u8> {
        match self {
            OutcomeView::Encoded(data) => data,
            _ => Seq::empty(),
        }
    }
}

impl TaskView {
    /// Whether an outcome says that the task was performed.
    pub open spec fn performed(self, outcome: OutcomeView) -> bool {
        match self {
            TaskView::ReadConfig(_) => outcome is Source,
            TaskView::Encode(_) => outcome is Encoded,
            _ => outcome is Done,
        }
    }
}

/// What follows a step.
pub enum Next<S> {
    /// Another step.
    Continue(S),
    /// The end, with a message or a reason for the failure.
    Finish(Result<&'static str, &'static str>),
}

/// The model of a [`Next`].
pub enum NextView<S> {
    Continue(S),
    Finish(Result<Seq<char>, Seq<char>>),
}

impl<S: View> View for Next<S> {
    type V = NextView<S::V>;

    open spec fn view(&self) -> NextView<S::V> {
        match self {
            Next::Continue(step) => NextView::Continue(step@),
            Next::Finish(Ok(message)) => NextView::Finish(Ok(message@)),
            Next::Finish(Err(reason)) => NextView::Finish(Err(reason@)),
        }
    }
}

/// The files, by their paths, and the file that was opened last. Two paths are taken to name two
/// files.
#[verifier::ext_equal]
pub struct Disk {
    pub files: Map<Seq<u8>, Seq<u8>>,
    pub open: Option<Seq<u8>>,
}

impl Disk {
    /// The disk after a task was performed.
    pub open spec fn after(self, task: TaskView) -> Disk {
        match task {
            TaskView::CreateNew { path, .. } => Disk {
                files: self.files.insert(path, Seq::empty()),
                open: Some(path),
            },
            TaskView::CreateOrEmpty { path, .. } => Disk {
                files: self.files.insert(path, Seq::empty()),
                open: Some(path),
            },
            TaskView::Write { data, .. } => match self.open {
                Some(path) => Disk {
                    files: self.files.insert(path, self.files[path] + data),
                    open: self.open,
                },
                None => self,
            },
            TaskView::Rename { from, to } => Disk {
                files: self.files.insert(to, self.files[from]).remove(from),
                open: self.open,
            },
            _ => self,
        }
    }

    /// Whether the file at a path, or its absence, is the same on another disk.
    pub open spec fn agrees(self, other: Disk, path: Seq<u8>) -> bool {
        &&& self.files.contains_key(path) <==> other.files.contains_key(path)
        &&& self.files.contains_key(path) ==> self.files[path] == other.files[path]
    }

    /// Whether a task that is not performed may spoil the file at a path: only the one that it
    /// was to create or to write, and never one that it was to create anew and that was there.
    pub open spec fn exposes(self, task: TaskView, path: Seq<u8>) -> bool {
        match task {
            TaskView::CreateNew { path: new, .. } => path == new && !self.files.contains_key(path),
            TaskView::CreateOrEmpty { path: new, .. } => path == new,
            TaskView::Write { .. } => self.open == Some(path),
            _ => false,
        }
    }

    /// Whether the outcome of a task is what this disk holds, given how files are parsed: a file
    /// that can be read gives what it parses to, and an encoding parses to what was encoded.
    pub open spec fn yields(
        self,
        task: TaskView,
        outcome: OutcomeView,
        parse: spec_fn(Seq<u8>) -> ConfigSourceView,
    ) -> bool {
        match (task, outcome) {
            (TaskView::ReadConfig(path), OutcomeView::Source(source)) => source is Unreadable || (
            self.files.contains_key(path) && source == parse(self.files[path])),
            (TaskView::Encode(cfg), OutcomeView::Encoded(data)) => parse(data)
                == ConfigSourceView::Parsed(cfg),
            _ => true,
        }
    }

    /// Whether a task with an outcome may lead from this disk to another.
    pub open spec fn leads_to(self, task: TaskView, outcome: OutcomeView, other: Disk) -> bool {
        if task.performed(outcome) {
            &&& task matches TaskView::CreateNew { path, .. } ==> !self.files.contains_key(path)
            &&& other == self.after(task)
        } else {
            forall|path: Seq<u8>|
                self.exposes(task, path) || #[trigger] self.agrees(other, path)
        }
    }
}

/// The models of tasks and outcomes are those of what they hold.
pub proof fn tasks_are_what_they_hold(
    text: String,
    path: Vec<u8>,
    other: Vec<u8>,
    mode: u32,
    sync: bool,
    cfg: Config,
    source: ConfigSource,
)
    ensures
        Task::CheckAddress(text)@ == TaskView::CheckAddress(text@),
        Task::ReadConfig(path)@ == TaskView::ReadConfig(path@),
        Task::CreateDir(path)@ == TaskView::CreateDir(path@),
        (Task::CreateNew { path, mode })@ == (TaskView::CreateNew { path: path@, mode }),
        (Task::CreateOrEmpty { path, mode })@ == (TaskView::CreateOrEmpty { path: path@, mode }),
        Task::Encode(cfg)@ == TaskView::Encode(cfg@),
        (Task::Write { data: path, sync })@ == (TaskView::Write { data: path@, sync }),
        (Task::Rename { from: path, to: other })@ == (TaskView::Rename { from: path@, to: other@ }),
        Outcome::Source(source)@ == OutcomeView::Source(source@),
        Outcome::Encoded(path)@ == OutcomeView::Encoded(path@),
        Outcome::Done@ == OutcomeView::Done,
        Outcome::Exists@ == OutcomeView::Exists,
        Outcome::Failed@ == OutcomeView::Failed,
{
}

/// The models of what follows a step are those of what it holds.
pub proof fn next_steps_are_what_they_hold<S: View>(step: S, text: &'static str)
    ensures
        Next::Continue(step)@ == NextView::Continue(step@),
        Next::<S>::Finish(Ok(text))@ == NextView::<S::V>::Finish(Ok(text@)),
        Next::<S>::Finish(Err(text))@ == NextView::<S::V>::Finish(Err(text@)),
{
}

} // verus!
