//! The order in which a recipe is laid down on disk.
//!
//! Creating a recipe is a fixed run of operations on the file system: the
//! recipe's directory, four files in it, a nested folder and one file in that
//! folder. The generator decides which operation comes next. Its caller carries
//! each operation out and reports how it went. The first operation that fails
//! ends the run with an error, and what was written before it stays on disk.

use crate::recipe::{
    changelog_text, config_text, generate_changelog, generate_config, generate_gitignore,
    generate_readme, generate_recipe_folder, gitignore_text, joined, readme_text, GeneratedFile,
    GeneratedFileView, Recipe, RecipeView, DEFAULT_BASE, DESCRIPTION, HELLO_TEXT, IGNORE_ENTRY,
    VERSION,
};
use vstd::prelude::*;

verus! {

/// Why a recipe could not be created.
#[derive(Clone, Copy, Debug, PartialEq, Eq, Structural)]
pub enum Error {
    /// The recipe's directory exists already.
    DirectoryExists,
    /// The file system refused to create a directory or to write a file.
    IOError,
    /// The folder nested in the recipe exists already.
    UnimplementedPath,
}

/// How the file system answered an operation.
#[derive(Clone, Copy, Debug, PartialEq, Eq, Structural)]
pub enum Event {
    /// The operation was carried out.
    Completed,
    /// Nothing was done: what was to be created is there already.
    AlreadyExists,
    /// Nothing was done, for any other reason.
    Failed,
}

/// How far a run has come: the operation that is to be carried out next, or
/// how the run ended.
#[derive(Clone, Copy, Debug, PartialEq, Eq, Structural)]
pub enum Stage {
    RootDir,
    Readme,
    Gitignore,
    Changelog,
    Config,
    RecipeDir,
    Hello,
    Done,
    Failed(Error),
}

/// What the user is told when a run enters a stage.
#[derive(Clone, Copy, Debug, PartialEq, Eq, Structural)]
pub enum Notice {
    /// The run begins.
    Initializing,
    /// The recipe's directory is there, and its files are written next.
    CheckingRecipes,
    /// The recipe's files are written, and the nested folder comes next.
    GeneratingRecipe,
    /// The recipe is complete and can be run.
    RunHint,
}

/// What the caller is to do next.
#[derive(Debug, PartialEq, Eq)]
pub enum Action {
    /// Create the directory of this path, which must not exist yet.
    CreateDir(String),
    /// Write this file, whether it exists or not.
    WriteFile(GeneratedFile),
    /// Stop: the run has ended in this way.
    Finish(Result<(), Error>),
}

/// An action as plain text values.
pub enum ActionView {
    CreateDir(Seq<char>),
    WriteFile(GeneratedFileView),
    Finish(Result<(), Error>),
}

impl View for Action {
    type V = ActionView;

    open spec fn view(&self) -> ActionView {
        match self {
            Action::CreateDir(path) => ActionView::CreateDir(path@),
            Action::WriteFile(file) => ActionView::WriteFile(file@),
            Action::Finish(outcome) => ActionView::Finish(*outcome),
        }
    }
}

/// A run in progress: the recipe that is being created and the stage that the
/// run has reached.
pub struct Generator {
    pub recipe: Recipe,
    pub stage: Stage,
}

/// A run in progress as plain values.
pub struct GeneratorView {
    pub recipe: RecipeView,
    pub stage: Stage,
}

impl View for Generator {
    type V = GeneratorView;

    open spec fn view(&self) -> GeneratorView {
        GeneratorView { recipe: self.recipe@, stage: self.stage }
    }
}

/// The stage that follows `stage` when its operation was carried out.
pub open spec fn successor(stage: Stage) -> Stage {
    match stage {
        Stage::RootDir => Stage::Readme,
        Stage::Readme => Stage::Gitignore,
        Stage::Gitignore => Stage::Changelog,
        Stage::Changelog => Stage::Config,
        Stage::Config => Stage::RecipeDir,
        Stage::RecipeDir => Stage::Hello,
        Stage::Hello => Stage::Done,
        Stage::Done => Stage::Done,
        Stage::Failed(error) => Stage::Failed(error),
    }
}

/// The error that ends a run whose operation at `stage` was answered by
/// `event`, which is not `Completed`.
pub open spec fn failure(stage: Stage, event: Event) -> Error {
    match (stage, event) {
        (Stage::RootDir, Event::AlreadyExists) => Error::DirectoryExists,
        (Stage::RecipeDir, Event::AlreadyExists) => Error::UnimplementedPath,
        _ => Error::IOError,
    }
}

/// A run that has ended carries out no further operation.
pub open spec fn is_final(stage: Stage) -> bool {
    stage is Done || stage is Failed
}

/// The stage that a run at `stage` reaches when its operation was answered by
/// `event`.
pub open spec fn next_stage(stage: Stage, event: Event) -> Stage {
    if is_final(stage) {
        stage
    } else if event is Completed {
        successor(stage)
    } else {
        Stage::Failed(failure(stage, event))
    }
}

/// The state that a run reaches from `state` on `event`.
pub open spec fn next_state(state: GeneratorView, event: Event) -> GeneratorView {
    GeneratorView { recipe: state.recipe, stage: next_stage(state.stage, event) }
}

/// The state in which the run for the recipe `name` under `base` begins.
pub open spec fn initial_state(base: Seq<char>, name: Seq<char>) -> GeneratorView {
    GeneratorView {
        recipe: RecipeView { name, path: joined(base, name) },
        stage: Stage::RootDir,
    }
}

/// The operation that is to be carried out at `stage` for `recipe`.
pub open spec fn action_at(recipe: RecipeView, stage: Stage) -> ActionView {
    let path = recipe.path;
    let folder = joined(path, "recipe"@);
    match stage {
        Stage::RootDir => ActionView::CreateDir(path),
        Stage::Readme => ActionView::WriteFile(
            GeneratedFileView {
                path: joined(path, "README.md"@),
                content: readme_text(recipe.name, path),
            },
        ),
        Stage::Gitignore => ActionView::WriteFile(
            GeneratedFileView {
                path: joined(path, ".gitignore"@),
                content: gitignore_text(IGNORE_ENTRY@),
            },
        ),
        Stage::Changelog => ActionView::WriteFile(
            GeneratedFileView {
                path: joined(path, "CHANGELOG.md"@),
                content: changelog_text(Seq::empty()),
            },
        ),
        Stage::Config => ActionView::WriteFile(
            GeneratedFileView {
                path: joined(path, "config.toml"@),
                content: config_text(recipe.name, path, VERSION@, DESCRIPTION@),
            },
        ),
        Stage::RecipeDir => ActionView::CreateDir(folder),
        Stage::Hello => ActionView::WriteFile(
            GeneratedFileView { path: joined(folder, "hello.md"@), content: HELLO_TEXT@ },
        ),
        Stage::Done => ActionView::Finish(Ok(())),
        Stage::Failed(error) => ActionView::Finish(Err(error)),
    }
}

/// What the user is told when a run enters `stage`.
pub open spec fn notice_at(stage: Stage) -> Option<Notice> {
    match stage {
        Stage::RootDir => Some(Notice::Initializing),
        Stage::Readme => Some(Notice::CheckingRecipes),
        Stage::RecipeDir => Some(Notice::GeneratingRecipe),
        Stage::Done => Some(Notice::RunHint),
        _ => None,
    }
}

/// The `.gitignore` of a new recipe holds one entry, `.DS_Store`, and nothing
/// else.
pub proof fn lemma_gitignore_entry(recipe: RecipeView)
    ensures
        action_at(recipe, Stage::Gitignore) == ActionView::WriteFile(
            GeneratedFileView { path: joined(recipe.path, ".gitignore"@), content: ".DS_Store"@ },
        ),
{
}

/// The file in the nested folder holds its placeholder as it is written:
/// the recipe's name is not filled in.
pub proof fn lemma_hello_text(recipe: RecipeView)
    ensures
        action_at(recipe, Stage::Hello) == ActionView::WriteFile(
            GeneratedFileView {
                path: joined(joined(recipe.path, "recipe"@), "hello.md"@),
                content: "Hello, {{ name }}!"@,
            },
        ),
{
}

/// The stage that a run at `stage` reaches on a series of answers.
pub open spec fn stage_after(stage: Stage, events: Seq<Event>) -> Stage
    decreases events.len(),
{
    if events.len() == 0 {
        stage
    } else {
        stage_after(next_stage(stage, events[0]), events.skip(1))
    }
}

/// A run ends after seven operations at most: whatever the file system
/// answers, the eighth action is to stop.
pub proof fn lemma_run_ends(stage: Stage, events: Seq<Event>)
    requires
        events.len() == 7,
    ensures
        is_final(stage_after(stage, events)),
{
    reveal_with_fuel(stage_after, 8);
}

impl Generator {
    /// The run that creates `recipe`, before its first operation.
    pub fn new(recipe: Recipe) -> (state: Generator)
        ensures
            state@ == (GeneratorView { recipe: recipe@, stage: Stage::RootDir }),
    {
        Generator { recipe, stage: Stage::RootDir }
    }

    /// The operation that is to be carried out next.
    pub fn action(&self) -> (action: Action)
        ensures
            action@ == action_at(self@.recipe, self@.stage),
    {
        let name = self.recipe.name.as_str();
        let path = self.recipe.path.as_str();
        match self.stage {
            Stage::RootDir => Action::CreateDir(self.recipe.path.clone()),
            Stage::Readme => Action::WriteFile(generate_readme(name, path)),
            Stage::Gitignore => Action::WriteFile(generate_gitignore(path, IGNORE_ENTRY)),
            Stage::Changelog => {
                proof {
                    reveal_strlit("");
                }
                Action::WriteFile(generate_changelog(path, ""))
            },
            Stage::Config => Action::WriteFile(generate_config(path, name)),
            Stage::RecipeDir => Action::CreateDir(generate_recipe_folder(path).0),
            Stage::Hello => Action::WriteFile(generate_recipe_folder(path).1),
            Stage::Done => Action::Finish(Ok(())),
            Stage::Failed(error) => Action::Finish(Err(error)),
        }
    }

    /// What the user is to be told now that the run has entered its stage.
    pub fn notice(&self) -> (notice: Option<Notice>)
        ensures
            notice == notice_at(self@.stage),
    {
        match self.stage {
            Stage::RootDir => Some(Notice::Initializing),
            Stage::Readme => Some(Notice::CheckingRecipes),
            Stage::RecipeDir => Some(Notice::GeneratingRecipe),
            Stage::Done => Some(Notice::RunHint),
            _ => None,
        }
    }

    /// How the run ended, if it has ended.
    pub fn outcome(&self) -> (outcome: Option<Result<(), Error>>)
        ensures
            outcome == match self@.stage {
                Stage::Done => Some(Ok::<(), Error>(())),
                Stage::Failed(error) => Some(Err::<(), Error>(error)),
                _ => None,
            },
    {
        match self.stage {
            Stage::Done => Some(Ok(())),
            Stage::Failed(error) => Some(Err(error)),
            _ => None,
        }
    }
}

/// The stage that a run at `stage` reaches when its operation was answered by
/// `event`.
pub fn advance(stage: Stage, event: Event) -> (next: Stage)
    ensures
        next == next_stage(stage, event),
{
    match stage {
        Stage::Done => Stage::Done,
        Stage::Failed(error) => Stage::Failed(error),
        _ => match event {
            Event::Completed => match stage {
                Stage::RootDir => Stage::Readme,
                Stage::Readme => Stage::Gitignore,
                Stage::Gitignore => Stage::Changelog,
                Stage::Changelog => Stage::Config,
                Stage::Config => Stage::RecipeDir,
                Stage::RecipeDir => Stage::Hello,
                _ => Stage::Done,
            },
            Event::AlreadyExists => match stage {
                Stage::RootDir => Stage::Failed(Error::DirectoryExists),
                Stage::RecipeDir => Stage::Failed(Error::UnimplementedPath),
                _ => Stage::Failed(Error::IOError),
            },
            Event::Failed => Stage::Failed(Error::IOError),
        },
    }
}

/// Begins the run that creates the recipe `name` under the default base
/// directory: the run's first state and its first operation.
pub fn start(name: &str) -> (run: (Generator, Action))
    ensures
        run.0@ == initial_state(DEFAULT_BASE@, name@),
        run.1@ == action_at(run.0@.recipe, run.0@.stage),
{
    start_in(DEFAULT_BASE, name)
}

/// Begins the run that creates the recipe `name` under the directory `base`.
pub fn start_in(base: &str, name: &str) -> (run: (Generator, Action))
    ensures
        run.0@ == initial_state(base@, name@),
        run.1@ == action_at(run.0@.recipe, run.0@.stage),
{
    let state = Generator::new(Recipe::in_dir(base, name));
    let action = state.action();
    (state, action)
}

/// Takes the run from `state` on: `event` is how the file system answered the
/// operation of `state`. Gives the state reached and the operation to carry
/// out there.
pub fn step(state: Generator, event: Event) -> (run: (Generator, Action))
    ensures
        run.0@ == next_state(state@, event),
        run.1@ == action_at(run.0@.recipe, run.0@.stage),
{
    let next = Generator { recipe: state.recipe, stage: advance(state.stage, event) };
    let action = next.action();
    (next, action)
}

} // verus!
