use vstd::prelude::*;

verus! {

/// A piece of engine work that the scene asks for, carried out by the host in order.
#[derive(Clone, Copy, Debug, PartialEq, Eq, Structural)]
pub enum SceneCommand {
    /// Move the player to the start marker and make it visible.
    PlacePlayerAtStart,
    /// Start the scene's start timer.
    StartTimer,
}

/// What beginning a run asks of the engine: the player is placed first,
/// then the timer starts.
pub open spec fn new_game_plan() -> Seq<SceneCommand> {
    seq![SceneCommand::PlacePlayerAtStart, SceneCommand::StartTimer]
}

/// State of the scene controller that starts and restarts a run.
#[derive(Debug)]
pub struct Main {
    score: i64,
}

impl View for Main {
    /// A scene is seen as the score of its current run.
    type V = int;

    closed spec fn view(&self) -> int {
        self.score as int
    }
}

impl Main {
    /// A scene before any run: the score is zero.
    pub fn new() -> (r: Main)
        ensures
            r@ == 0,
    {
        Main { score: 0 }
    }

    /// The score of the current run.
    pub fn score(&self) -> (r: i64)
        ensures
            r == self@,
    {
        self.score
    }

    /// Begins a new run: the score goes back to zero, and the engine work of
    /// starting the run is returned in the order in which it must happen.
    pub fn new_game(&mut self) -> (r: Vec<SceneCommand>)
        ensures
            final(self)@ == 0,
            r@ == new_game_plan(),
    {
        self.score = 0;
        let mut plan: Vec<SceneCommand> = Vec::new();
        plan.push(SceneCommand::PlacePlayerAtStart);
        plan.push(SceneCommand::StartTimer);
        assert(plan@ =~= new_game_plan());
        plan
    }
}

} // verus!
