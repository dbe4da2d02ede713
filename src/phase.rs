use vstd::prelude::*;
use crate::entities::Input;
use crate::geometry::{extent_ok, PlayArea, Vec2};
use crate::session::{fresh_session, Session, SessionView};
use crate::spawner::SPAWN_INTERVAL;

verus! {

/// The coarse game mode.
#[derive(Clone, Copy, Debug, PartialEq, Eq, Structural)]
pub enum Phase {
    Loading,
    MainMenu,
    Playing,
    Paused,
}

/// The phase and, while a game is on, its session.
pub struct GameView {
    pub phase: Phase,
    pub session: Option<SessionView>,
}

pub open spec fn in_game(phase: Phase) -> bool {
    phase == Phase::Playing || phase == Phase::Paused
}

impl GameView {
    /// A session exists exactly while a game is on (playing or paused).
    pub open spec fn wf(self) -> bool {
        &&& (self.session is Some <==> in_game(self.phase))
        &&& (self.session matches Some(s) ==> s.wf())
    }

    pub open spec fn with_phase(self, phase: Phase) -> GameView {
        GameView { phase, ..self }
    }

    /// Once assets are ready, loading gives way to the main menu.
    pub open spec fn loaded(self) -> GameView {
        if self.phase == Phase::Loading { self.with_phase(Phase::MainMenu) } else { self }
    }

    /// "Play" in the main menu starts a fresh session.
    pub open spec fn started(self, area: PlayArea, player_size: Vec2) -> GameView {
        if self.phase == Phase::MainMenu {
            GameView {
                phase: Phase::Playing,
                session: Some(fresh_session(area, player_size, SPAWN_INTERVAL)),
            }
        } else {
            self
        }
    }

    pub open spec fn paused(self) -> GameView {
        if self.phase == Phase::Playing { self.with_phase(Phase::Paused) } else { self }
    }

    pub open spec fn resumed(self) -> GameView {
        if self.phase == Phase::Paused { self.with_phase(Phase::Playing) } else { self }
    }

    /// Leaving a game for the main menu drops its session.
    pub open spec fn left_to_menu(self) -> GameView {
        if in_game(self.phase) {
            GameView { phase: Phase::MainMenu, session: None }
        } else {
            self
        }
    }

    /// "Quit" ends the process from the main menu or the pause overlay.
    pub open spec fn quits(self) -> bool {
        self.phase == Phase::MainMenu || self.phase == Phase::Paused
    }

    /// One frame: while playing the session ticks and the pause key then
    /// pauses; while paused the pause key resumes; other phases stand still.
    pub open spec fn ticked(
        self,
        dt: int,
        input: Input,
        area: Option<PlayArea>,
        size: Option<Vec2>,
        x: int,
    ) -> GameView {
        match self.phase {
            Phase::Playing => GameView {
                phase: if input.pause { Phase::Paused } else { Phase::Playing },
                session: Some(self.session.unwrap().step(dt, input, area, size, x)),
            },
            Phase::Paused => if input.pause { self.with_phase(Phase::Playing) } else { self },
            _ => self,
        }
    }

    /// Whether `x` is a spawn position the running session may pick.
    pub open spec fn spawn_choice(
        self,
        dt: int,
        area: Option<PlayArea>,
        size: Option<Vec2>,
        x: int,
    ) -> bool {
        self.phase == Phase::Playing ==> self.session.unwrap().spawn_choice(dt, area, size, x)
    }

    /// The score, while a game is on.
    pub open spec fn score(self) -> Option<u64> {
        match self.session {
            Some(s) => Some(s.score),
            None => None,
        }
    }
}

/// A tick never lowers the score while playing, and leaves it as it was
/// while paused.
pub proof fn lemma_score_never_drops(
    g: GameView,
    dt: int,
    input: Input,
    area: Option<PlayArea>,
    size: Option<Vec2>,
    x: int,
)
    requires
        g.wf(),
    ensures
        g.phase == Phase::Playing ==> g.ticked(dt, input, area, size, x).score().unwrap()
            >= g.score().unwrap(),
        g.phase == Phase::Paused ==> g.ticked(dt, input, area, size, x).score() == g.score(),
{
}

/// What one frame hands to the game: its duration, the input, the play area,
/// the object size and the spawn position drawn for it.
pub struct Frame {
    pub dt: int,
    pub input: Input,
    pub area: Option<PlayArea>,
    pub size: Option<Vec2>,
    pub x: int,
}

/// The game after the given frames, in order.
pub open spec fn run(g: GameView, frames: Seq<Frame>) -> GameView
    decreases frames.len(),
{
    if frames.len() == 0 {
        g
    } else {
        let f = frames.last();
        run(g, frames.drop_last()).ticked(f.dt, f.input, f.area, f.size, f.x)
    }
}

/// Over any run of frames during a game, whether it pauses and resumes on
/// the way, the game goes on and the score never drops.
pub proof fn lemma_score_never_drops_over_run(g: GameView, frames: Seq<Frame>)
    requires
        g.wf(),
        in_game(g.phase),
    ensures
        in_game(run(g, frames).phase),
        run(g, frames).session is Some,
        run(g, frames).score().unwrap() >= g.score().unwrap(),
    decreases frames.len(),
{
    if frames.len() > 0 {
        lemma_score_never_drops_over_run(g, frames.drop_last());
    }
}

/// Pausing and then resuming, with no tick in between, gives back the game
/// exactly as it was: score, player and store.
pub proof fn lemma_pause_then_resume(g: GameView)
    requires
        g.wf(),
        g.phase == Phase::Playing,
    ensures
        g.paused().resumed() == g,
{
}

/// The whole game: the phase state machine around a session.
pub struct Game {
    phase: Phase,
    session: Option<Session>,
}

impl View for Game {
    type V = GameView;

    closed spec fn view(&self) -> GameView {
        GameView {
            phase: self.phase,
            session: match self.session {
                Some(s) => Some(s@),
                None => None,
            },
        }
    }
}

impl Game {
    /// A game that is loading its assets.
    pub fn new() -> (r: Game)
        ensures
            r@ == (GameView { phase: Phase::Loading, session: None }),
            r@.wf(),
    {
        Game { phase: Phase::Loading, session: None }
    }

    pub fn phase(&self) -> (r: Phase)
        ensures
            r == self@.phase,
    {
        self.phase
    }

    pub fn session(&self) -> (r: Option<&Session>)
        ensures
            r matches Some(s) ==> self@.session == Some(s@),
            r is None ==> self@.session is None,
    {
        match &self.session {
            Some(s) => Some(s),
            None => None,
        }
    }

    pub fn score(&self) -> (r: Option<u64>)
        ensures
            r == self@.score(),
    {
        match &self.session {
            Some(s) => Some(s.score()),
            None => None,
        }
    }

    /// The presentation assets are ready.
    pub fn assets_loaded(&mut self)
        requires
            old(self)@.wf(),
        ensures
            final(self)@ == old(self)@.loaded(),
            final(self)@.wf(),
    {
        if self.phase == Phase::Loading {
            self.phase = Phase::MainMenu;
        }
    }

    /// "Play" from the main menu: a fresh session in `area` for a player
    /// sprite of native size `player_size`.
    pub fn start_game(&mut self, area: PlayArea, player_size: Vec2)
        requires
            old(self)@.wf(),
            area.wf(),
            extent_ok(player_size),
        ensures
            final(self)@ == old(self)@.started(area, player_size),
            final(self)@.wf(),
    {
        if self.phase == Phase::MainMenu {
            self.session = Some(Session::new(area, player_size, SPAWN_INTERVAL));
            self.phase = Phase::Playing;
        }
    }

    pub fn pause(&mut self)
        requires
            old(self)@.wf(),
        ensures
            final(self)@ == old(self)@.paused(),
            final(self)@.wf(),
    {
        if self.phase == Phase::Playing {
            self.phase = Phase::Paused;
        }
    }

    /// "Resume" from the pause overlay.
    pub fn resume(&mut self)
        requires
            old(self)@.wf(),
        ensures
            final(self)@ == old(self)@.resumed(),
            final(self)@.wf(),
    {
        if self.phase == Phase::Paused {
            self.phase = Phase::Playing;
        }
    }

    /// Leave a game for the main menu, dropping the player and every object.
    pub fn return_to_menu(&mut self)
        requires
            old(self)@.wf(),
        ensures
            final(self)@ == old(self)@.left_to_menu(),
            final(self)@.wf(),
    {
        if self.phase == Phase::Playing || self.phase == Phase::Paused {
            self.session = None;
            self.phase = Phase::MainMenu;
        }
    }

    /// "Quit": whether the process should end now.
    pub fn quit(&self) -> (r: bool)
        ensures
            r == self@.quits(),
    {
        self.phase == Phase::MainMenu || self.phase == Phase::Paused
    }

    /// One frame of `dt` microseconds with the input sampled for it, the play
    /// area (if known) and the native size of a falling object (if known).
    pub fn tick(&mut self, dt: u64, input: Input, area: Option<PlayArea>, size: Option<Vec2>)
        requires
            old(self)@.wf(),
            area matches Some(a) ==> a.wf(),
            size matches Some(z) ==> extent_ok(z),
        ensures
            exists|x: int|
                old(self)@.spawn_choice(dt as int, area, size, x) && final(self)@ == old(
                    self,
                )@.ticked(dt as int, input, area, size, x),
            final(self)@.wf(),
    {
        match self.phase {
            Phase::Playing => {
                let ghost before = self@;
                match &mut self.session {
                    Some(s) => s.advance(dt, input, area, size),
                    None => {},
                }
                if input.pause {
                    self.phase = Phase::Paused;
                }
                proof {
                    let run = before.session.unwrap();
                    let x = choose|x: int|
                        run.spawn_choice(dt as int, area, size, x) && self@.session.unwrap()
                            == run.step(dt as int, input, area, size, x);
                    assert(self@ == before.ticked(dt as int, input, area, size, x));
                    assert(before.spawn_choice(dt as int, area, size, x));
                }
            },
            Phase::Paused => {
                if input.pause {
                    self.phase = Phase::Playing;
                }
                assert(old(self)@.spawn_choice(dt as int, area, size, 0));
            },
            _ => {
                assert(old(self)@.spawn_choice(dt as int, area, size, 0));
            },
        }
    }
}

} // verus!
