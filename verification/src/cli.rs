//! The command loop: which command the keys pressed at the prompts select,
//! what running a command does to the store, and where the loop goes next.
//!
//! Nothing here touches the terminal. The caller does what a state asks
//! for (it shows a prompt and reads a key or a line, or runs a command
//! against its store) and hands in what came of it as an `Event`.

use crate::models::{views, Task, TaskStatus, TaskView};
use crate::storage::{
    has_id, is_first_match, lemma_remove_present, lemma_update_present, position, removed,
    updated, Backing, FileStorage, MemoryStorage, StoreError, TaskStorage,
};
use crate::utils::{is_random_id, lemma_random_id_is_not_zero};
use vstd::prelude::*;

verus! {

/// What the user wants done.
#[derive(Debug, PartialEq, Eq)]
pub enum Command {
    Add { status: TaskStatus, description: String },
    Delete { id: String },
    Update { id: String, status: TaskStatus, description: String },
    List,
}

impl Clone for Command {
    fn clone(&self) -> (copy: Command)
        ensures
            copy == *self,
    {
        match self {
            Command::Add { status, description } => Command::Add {
                status: *status,
                description: description.clone(),
            },
            Command::Delete { id } => Command::Delete { id: id.clone() },
            Command::Update { id, status, description } => Command::Update {
                id: id.clone(),
                status: *status,
                description: description.clone(),
            },
            Command::List => Command::List,
        }
    }
}

/// The command given when the program was started, if one was given.
/// Without one the program runs the command loop.
#[derive(Debug, PartialEq, Eq)]
pub struct Cli {
    pub command: Option<Command>,
}

/// What the terminal delivered.
#[derive(Debug, PartialEq, Eq)]
pub enum Input {
    /// A key with a character was pressed.
    Key(char),
    /// The keypress could not be read.
    KeyFailed,
    /// A line of text was entered.
    Line(String),
}

/// A question of the Add command.
#[derive(Clone, Copy, Debug, PartialEq, Eq)]
pub enum AddPrompt {
    /// The numeric status menu is up and a key is awaited.
    Status,
    /// The status key could not be read; this was said, and any key is awaited.
    InvalidValue,
    /// The status is chosen and the line with the description is awaited.
    Description { status: TaskStatus },
}

/// What the user is asked while a command is being resolved.
#[derive(Clone, Copy, Debug, PartialEq, Eq)]
pub enum Prompt {
    /// The command menu is up and a key is awaited.
    Menu,
    /// The Add command asks for its parts.
    Add(AddPrompt),
}

/// Why no command came of the input.
#[derive(Clone, Copy, Debug, PartialEq, Eq)]
pub enum InputError {
    /// The keypress could not be read.
    KeyUnavailable,
    /// The key selects nothing.
    KeyNotSupported,
    /// The key selects a command that the loop cannot yet put together.
    NotSupportedYet,
}

/// What an input at a prompt led to.
#[derive(Debug, PartialEq, Eq)]
pub enum Resolution {
    /// The command is complete.
    Ready(Command),
    /// More is to be asked.
    Ask(Prompt),
}

/// What a command that ran has to show.
#[derive(Debug, PartialEq, Eq)]
pub enum Outcome {
    /// The store was changed; there is nothing to show.
    Done,
    /// The tasks that the store holds, in its order.
    Listed(Vec<Task>),
}

/// What running a command against a file-backed store came to.
#[derive(Debug, PartialEq, Eq)]
pub struct FileRun {
    /// What the command gave.
    pub result: Result<Outcome, StoreError>,
    /// The collection that the file must be rewritten with; `None` where
    /// the file is to be left as it is.
    pub rewrite: Option<Vec<Task>>,
}

impl FileRun {
    /// The collection that the file stands for after the run, where it
    /// stood for `before`.
    pub open spec fn held(self, before: Seq<TaskView>) -> Seq<TaskView> {
        match self.rewrite {
            Some(tasks) => views(tasks@),
            None => before,
        }
    }
}

/// What the loop is told of the work it asked for.
#[derive(Debug, PartialEq, Eq)]
pub enum Event {
    /// The terminal delivered an input.
    Input(Input),
    /// The command was run against the store, with this result.
    Ran(Result<Outcome, StoreError>),
}

/// Why the loop ended.
#[derive(Debug, PartialEq, Eq)]
pub enum Exit {
    /// The user asked to quit.
    Quit,
    /// After an input error the keypress could not be read.
    KeyUnavailable,
    /// The store failed.
    Storage(StoreError),
}

/// Where the command loop stands.
#[derive(Debug, PartialEq, Eq)]
pub enum LoopState {
    /// A prompt is up and its input is awaited.
    Prompting(Prompt),
    /// A command is complete and is to be run against the store.
    Running(Command),
    /// A command ran; its outcome is shown and any key is awaited.
    Paused(Outcome),
    /// An input error was reported; `q` quits and any other key resumes.
    Recovering(InputError),
    /// The loop has ended.
    Stopped(Exit),
}

/// The character with an upper-case letter from `A` to `Z` turned into its
/// lower-case form.
pub open spec fn lower(code: char) -> char {
    if 'A' <= code && code <= 'Z' {
        ((code as u8) + 32) as char
    } else {
        code
    }
}

/// What a key of the command menu selects; the key is taken as it is, an
/// upper-case letter selects nothing.
pub open spec fn menu_choice(code: char) -> Result<Resolution, InputError> {
    if code == 'a' {
        Ok(Resolution::Ask(Prompt::Add(AddPrompt::Status)))
    } else if code == 'l' {
        Ok(Resolution::Ready(Command::List))
    } else if code == 'd' || code == 'u' {
        Err(InputError::NotSupportedYet)
    } else {
        Err(InputError::KeyNotSupported)
    }
}

/// What an input at a question of the Add command leads to.
pub open spec fn add_choice(prompt: AddPrompt, input: Input) -> Result<Resolution, InputError> {
    match (prompt, input) {
        (AddPrompt::Status, Input::Key(code)) => match TaskStatus::for_key(code) {
            Some(status) => Ok(Resolution::Ask(Prompt::Add(AddPrompt::Description { status }))),
            None => Err(InputError::KeyNotSupported),
        },
        (AddPrompt::Status, Input::KeyFailed) => Ok(
            Resolution::Ask(Prompt::Add(AddPrompt::InvalidValue)),
        ),
        (AddPrompt::Description { status }, Input::Line(text)) => Ok(
            Resolution::Ready(Command::Add { status, description: text }),
        ),
        _ => Err(InputError::KeyNotSupported),
    }
}

/// What an input at a prompt leads to. At the menu a letter counts in
/// either case.
pub open spec fn resolved(prompt: Prompt, input: Input) -> Result<Resolution, InputError> {
    match prompt {
        Prompt::Menu => match input {
            Input::Key(code) => menu_choice(lower(code)),
            Input::KeyFailed => Err(InputError::KeyUnavailable),
            Input::Line(_) => Err(InputError::KeyNotSupported),
        },
        Prompt::Add(question) => add_choice(question, input),
    }
}

/// Where the loop goes on the input that follows an error report.
pub open spec fn resumed(input: Input) -> LoopState {
    match input {
        Input::Key(code) => if code == 'q' || code == 'Q' {
            LoopState::Stopped(Exit::Quit)
        } else {
            LoopState::Prompting(Prompt::Menu)
        },
        Input::KeyFailed => LoopState::Stopped(Exit::KeyUnavailable),
        Input::Line(_) => LoopState::Prompting(Prompt::Menu),
    }
}

/// Where the loop goes once a command has run.
pub open spec fn after_run(result: Result<Outcome, StoreError>) -> LoopState {
    match result {
        Ok(outcome) => LoopState::Paused(outcome),
        Err(error) => LoopState::Stopped(Exit::Storage(error)),
    }
}

/// Where the loop goes from `state` on `event`.
///
/// A prompt awaits an input, which completes a command, leads to a further
/// prompt, or is an input error. A command that is to be run awaits its
/// result. A pause ends on any input. After an input error `q` quits and
/// any other key resumes. An event that the state does not await leaves it
/// as it is, and a loop that has ended stays ended.
pub open spec fn next_state(state: LoopState, event: Event) -> LoopState {
    match (state, event) {
        (LoopState::Prompting(prompt), Event::Input(input)) => match resolved(prompt, input) {
            Ok(Resolution::Ready(command)) => LoopState::Running(command),
            Ok(Resolution::Ask(question)) => LoopState::Prompting(question),
            Err(error) => LoopState::Recovering(error),
        },
        (LoopState::Running(_), Event::Ran(result)) => after_run(result),
        (LoopState::Paused(_), Event::Input(_)) => LoopState::Prompting(Prompt::Menu),
        (LoopState::Recovering(_), Event::Input(input)) => resumed(input),
        _ => state,
    }
}

/// Whether `result` and the collection `after` are what running `command`
/// on a store that held `before` may give.
///
/// A store that is not reliable may fail with `StoreError::Io` on any
/// command, and nothing is then said of what it holds, except after List,
/// which changes nothing.
pub open spec fn ran(
    command: Command,
    before: Seq<TaskView>,
    after: Seq<TaskView>,
    result: Result<Outcome, StoreError>,
) -> bool {
    match command {
        Command::Add { status, description } => match result {
            Ok(outcome) => outcome is Done && exists|id: u128|
                #![trigger is_random_id(id)]
                is_random_id(id) && after == before.push(
                    TaskView { id, status, description: description@ },
                ),
            Err(error) => error is Io,
        },
        Command::Delete { id } => match result {
            Ok(outcome) => outcome is Done && removed(before, id@) == Some(after),
            Err(StoreError::NotFound) => removed(before, id@) is None && after == before,
            Err(StoreError::Io(_)) => true,
        },
        Command::Update { id, status, description } => match result {
            Ok(outcome) => outcome is Done && updated(before, id@, status, description@) == Some(
                after,
            ),
            Err(StoreError::NotFound) => updated(before, id@, status, description@) is None
                && after == before,
            Err(StoreError::Io(_)) => true,
        },
        Command::List => after == before && match result {
            Ok(outcome) => outcome matches Outcome::Listed(tasks) && views(tasks@) == before,
            Err(error) => error is Io,
        },
    }
}

/// The lower-case form of a letter from `A` to `Z`; any other character as
/// it is.
pub fn to_lower(code: char) -> (lowered: char)
    ensures
        lowered == lower(code),
{
    if code >= 'A' && code <= 'Z' {
        ((code as u8) + 32) as char
    } else {
        code
    }
}

/// Where the loop goes once a command has run: it pauses on the outcome, or
/// ends on the failure of the store.
pub fn after_command(result: Result<Outcome, StoreError>) -> (next: LoopState)
    ensures
        next == after_run(result),
{
    match result {
        Ok(outcome) => LoopState::Paused(outcome),
        Err(error) => LoopState::Stopped(Exit::Storage(error)),
    }
}

impl Cli {
    /// Resolves a key pressed at the command menu. The key is taken as it
    /// is: `a` asks for the parts of an Add, `l` is List, `d` and `u` select
    /// commands that are not supported yet, and any other key selects
    /// nothing.
    pub fn command_for_event(&self, code: char) -> (choice: Result<Resolution, InputError>)
        ensures
            choice == menu_choice(code),
    {
        match code {
            'a' => Ok(Resolution::Ask(Prompt::Add(AddPrompt::Status))),
            'l' => Ok(Resolution::Ready(Command::List)),
            'd' => Err(InputError::NotSupportedYet),
            'u' => Err(InputError::NotSupportedYet),
            _ => Err(InputError::KeyNotSupported),
        }
    }

    /// Takes the Add command one input further: the key pressed at the
    /// status menu chooses the status, and the line entered after it is the
    /// description, taken as it was entered. A status key that could not be
    /// read leads to the notice of an invalid value, and whatever follows
    /// that notice is an input error.
    pub fn make_add_command(&self, prompt: AddPrompt, input: Input) -> (choice: Result<
        Resolution,
        InputError,
    >)
        ensures
            choice == add_choice(prompt, input),
    {
        match prompt {
            AddPrompt::Status => match input {
                Input::Key(code) => match TaskStatus::from_key(code) {
                    Some(status) => Ok(
                        Resolution::Ask(Prompt::Add(AddPrompt::Description { status })),
                    ),
                    None => Err(InputError::KeyNotSupported),
                },
                Input::KeyFailed => Ok(Resolution::Ask(Prompt::Add(AddPrompt::InvalidValue))),
                Input::Line(_) => Err(InputError::KeyNotSupported),
            },
            AddPrompt::InvalidValue => Err(InputError::KeyNotSupported),
            AddPrompt::Description { status } => match input {
                Input::Line(text) => Ok(
                    Resolution::Ready(Command::Add { status, description: text }),
                ),
                _ => Err(InputError::KeyNotSupported),
            },
        }
    }

    /// Resolves the input that a prompt was answered with. At the command
    /// menu a letter counts in either case, and a keypress that could not be
    /// read is an input error.
    pub fn read_command(&self, prompt: Prompt, input: Input) -> (choice: Result<
        Resolution,
        InputError,
    >)
        ensures
            choice == resolved(prompt, input),
    {
        match prompt {
            Prompt::Menu => match input {
                Input::Key(code) => self.command_for_event(to_lower(code)),
                Input::KeyFailed => Err(InputError::KeyUnavailable),
                Input::Line(_) => Err(InputError::KeyNotSupported),
            },
            Prompt::Add(question) => self.make_add_command(question, input),
        }
    }

    /// Decides on the input that was listened for after an error report:
    /// `q`, in either case, quits; a keypress that could not be read ends
    /// the loop too; anything else resumes at the command menu.
    pub fn listen_for_key_on_error(&self, input: Input) -> (next: LoopState)
        ensures
            next == resumed(input),
    {
        match input {
            Input::Key(code) => if code == 'q' || code == 'Q' {
                LoopState::Stopped(Exit::Quit)
            } else {
                LoopState::Prompting(Prompt::Menu)
            },
            Input::KeyFailed => LoopState::Stopped(Exit::KeyUnavailable),
            Input::Line(_) => LoopState::Prompting(Prompt::Menu),
        }
    }

    /// Runs one command against a file-backed store, of which `found` is
    /// what was read where it keeps its tasks. The command runs on the
    /// collection that the backing stands for, and never fails for want of
    /// a backing. Where it changed the collection, which is where Add,
    /// Delete or Update succeeded, the whole collection is handed back for
    /// rewriting the file; otherwise the file is to be left as it is.
    pub fn run_command_on_file(
        &self,
        command: Command,
        task_storage: &FileStorage,
        found: Backing,
    ) -> (run: FileRun)
        ensures
            ran(command, found.tasks(), run.held(found.tasks()), run.result),
            !(run.result matches Err(StoreError::Io(_))),
            run.rewrite is Some <==> run.result == Ok::<Outcome, StoreError>(Outcome::Done),
    {
        let mut store = MemoryStorage { tasks: task_storage.load_tasks(found) };
        let result = self.run_command(command, &mut store);
        match result {
            Ok(Outcome::Done) => FileRun { result: Ok(Outcome::Done), rewrite: Some(store.tasks) },
            other => FileRun { result: other, rewrite: None },
        }
    }
}

impl LoopState {
    /// The state in which the loop starts: the command menu is up.
    pub fn start() -> (state: LoopState)
        ensures
            state == LoopState::Prompting(Prompt::Menu),
    {
        LoopState::Prompting(Prompt::Menu)
    }

    /// Whether the loop has ended.
    pub fn is_stopped(&self) -> (stopped: bool)
        ensures
            stopped == (self is Stopped),
    {
        match self {
            LoopState::Stopped(_) => true,
            _ => false,
        }
    }
}

impl InputError {
    /// The error in words, for showing to the user.
    pub fn message(&self) -> (text: String)
        ensures
            self is KeyUnavailable ==> text@ == "Key could not be read"@,
            self is KeyNotSupported ==> text@ == "Key not supported"@,
            self is NotSupportedYet ==> text@ == "Not supported yet"@,
    {
        match self {
            InputError::KeyUnavailable => "Key could not be read".to_owned(),
            InputError::KeyNotSupported => "Key not supported".to_owned(),
            InputError::NotSupportedYet => "Not supported yet".to_owned(),
        }
    }
}

/// Running commands against a store, one at a time or in the command loop.
pub trait CliInteraction {
    /// Takes the command loop one turn further, from `state` and what came
    /// of the work that the state asked for.
    fn loop_for_commands(&self, state: LoopState, event: Event) -> (next: LoopState)
        ensures
            next == next_state(state, event),
    ;

    /// Runs one command against the store. Add draws a new identifier for
    /// the task; List gives the tasks for showing.
    fn run_command<T: TaskStorage>(&self, command: Command, task_storage: &mut T) -> (result:
        Result<Outcome, StoreError>)
        ensures
            ran(command, old(task_storage).tasks(), final(task_storage).tasks(), result),
            result matches Err(StoreError::Io(_)) ==> !old(task_storage).reliable(),
            old(task_storage).reliable() ==> final(task_storage).reliable(),
    ;
}

impl CliInteraction for Cli {
    fn loop_for_commands(&self, state: LoopState, event: Event) -> (next: LoopState) {
        match state {
            LoopState::Prompting(prompt) => match event {
                Event::Input(input) => match self.read_command(prompt, input) {
                    Ok(Resolution::Ready(command)) => LoopState::Running(command),
                    Ok(Resolution::Ask(question)) => LoopState::Prompting(question),
                    Err(error) => LoopState::Recovering(error),
                },
                Event::Ran(_) => LoopState::Prompting(prompt),
            },
            LoopState::Running(command) => match event {
                Event::Ran(result) => after_command(result),
                Event::Input(_) => LoopState::Running(command),
            },
            LoopState::Paused(outcome) => match event {
                Event::Input(_) => LoopState::Prompting(Prompt::Menu),
                Event::Ran(_) => LoopState::Paused(outcome),
            },
            LoopState::Recovering(error) => match event {
                Event::Input(input) => self.listen_for_key_on_error(input),
                Event::Ran(_) => LoopState::Recovering(error),
            },
            LoopState::Stopped(exit) => LoopState::Stopped(exit),
        }
    }

    fn run_command<T: TaskStorage>(&self, command: Command, task_storage: &mut T) -> (result:
        Result<Outcome, StoreError>) {
        match command {
            Command::Add { status, description } => {
                let task = Task::new(status, description);
                match task_storage.write_task(task) {
                    Ok(()) => Ok(Outcome::Done),
                    Err(error) => Err(error),
                }
            },
            Command::Delete { id } => match task_storage.remove_task(id.as_str()) {
                Ok(()) => Ok(Outcome::Done),
                Err(error) => Err(error),
            },
            Command::Update { id, status, description } => match task_storage.update_task(
                id.as_str(),
                status,
                description.as_str(),
            ) {
                Ok(()) => Ok(Outcome::Done),
                Err(error) => Err(error),
            },
            Command::List => match task_storage.load_tasks() {
                Ok(tasks) => Ok(Outcome::Listed(tasks)),
                Err(error) => Err(error),
            },
        }
    }
}

/// Add, then List: the listing is what the store held with one task more
/// at its end. That task has the status and the description that were given
/// and a newly drawn identifier, which is never zero. On a store that held
/// nothing it is the only task listed.
pub proof fn lemma_add_then_list(
    status: TaskStatus,
    description: String,
    before: Seq<TaskView>,
    added: Seq<TaskView>,
    after: Seq<TaskView>,
    listed: Vec<Task>,
)
    requires
        ran(Command::Add { status, description }, before, added, Ok(Outcome::Done)),
        ran(Command::List, added, after, Ok(Outcome::Listed(listed))),
    ensures
        after == added,
        views(listed@) == added,
        listed@.len() == before.len() + 1,
        views(listed@).drop_last() == before,
        listed@.last().status == status,
        listed@.last().description@ == description@,
        is_random_id(listed@.last().id),
        listed@.last().id != 0,
{
    let id = choose|id: u128|
        #![trigger is_random_id(id)]
        is_random_id(id) && added == before.push(
            TaskView { id, status, description: description@ },
        );
    lemma_random_id_is_not_zero(id);
    assert(added.drop_last() =~= before);
    assert(views(listed@).last() == listed@.last()@);
}

/// Delete on a store that does not fail for want of its backing. By an
/// identifier that some task is written as, it succeeds and takes out the
/// first such task and nothing else; where that task was the only one, the
/// store holds nothing afterwards. By an identifier that no task is written
/// as, it fails with `StoreError::NotFound` and the store holds what it held.
pub proof fn lemma_delete(
    id: String,
    before: Seq<TaskView>,
    after: Seq<TaskView>,
    result: Result<Outcome, StoreError>,
)
    requires
        ran(Command::Delete { id }, before, after, result),
        !(result matches Err(StoreError::Io(_))),
    ensures
        has_id(before, id@) ==> ({
            &&& result == Ok::<Outcome, StoreError>(Outcome::Done)
            &&& position(before, id@) matches Some(index)
            &&& is_first_match(before, id@, index)
            &&& after == before.remove(index)
        }),
        has_id(before, id@) && before.len() == 1 ==> after == Seq::<TaskView>::empty(),
        !has_id(before, id@) ==> result == Err::<Outcome, StoreError>(StoreError::NotFound)
            && after == before,
{
    if has_id(before, id@) {
        lemma_remove_present(before, id@);
        if before.len() == 1 {
            assert(after =~= Seq::<TaskView>::empty());
        }
    }
}

/// Update on a store that does not fail for want of its backing. By an
/// identifier that some task is written as, it succeeds: the first such
/// task has the status and the description that were given and keeps its
/// identifier and its place, and every other task is what it was. By an
/// identifier that no task is written as, it fails with
/// `StoreError::NotFound` and the store holds what it held.
pub proof fn lemma_update(
    id: String,
    status: TaskStatus,
    description: String,
    before: Seq<TaskView>,
    after: Seq<TaskView>,
    result: Result<Outcome, StoreError>,
)
    requires
        ran(Command::Update { id, status, description }, before, after, result),
        !(result matches Err(StoreError::Io(_))),
    ensures
        has_id(before, id@) ==> ({
            &&& result == Ok::<Outcome, StoreError>(Outcome::Done)
            &&& position(before, id@) matches Some(index)
            &&& is_first_match(before, id@, index)
            &&& after.len() == before.len()
            &&& after[index] == (TaskView {
                id: before[index].id,
                status,
                description: description@,
            })
            &&& forall|at: int| 0 <= at < before.len() && at != index ==> after[at] == before[at]
        }),
        !has_id(before, id@) ==> result == Err::<Outcome, StoreError>(StoreError::NotFound)
            && after == before,
{
    if has_id(before, id@) {
        lemma_update_present(before, id@, status, description@);
    }
}

/// The loop ends only on `q` after an input error, on a keypress that could
/// not be read after an input error, or on the failure of the store; and
/// once it has ended no event moves it.
pub proof fn lemma_loop_end(state: LoopState, event: Event)
    ensures
        state is Stopped ==> next_state(state, event) == state,
        !(state is Stopped) && next_state(state, event) is Stopped ==> ({
            ||| state is Recovering && (event == Event::Input(Input::Key('q')) || event
                == Event::Input(Input::Key('Q'))) && next_state(state, event) == LoopState::Stopped(
                Exit::Quit,
            )
            ||| state is Recovering && event == Event::Input(Input::KeyFailed) && next_state(
                state,
                event,
            ) == LoopState::Stopped(Exit::KeyUnavailable)
            ||| state is Running && (event matches Event::Ran(Err(error)) && next_state(
                state,
                event,
            ) == LoopState::Stopped(Exit::Storage(error)))
        }),
{
}

} // verus!
