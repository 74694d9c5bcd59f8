//! The tick orchestrator: a set of bodies, the scene they are created from,
//! and the state machine that decides when they exist.
//!
//! A transition is scheduled in one step and carried out at the start of
//! the next: leaving `Playing` destroys every body, entering `Playing`
//! creates the scene's bodies anew, and entering `Restart` schedules the
//! return to `Playing`.

use vstd::prelude::*;
use crate::body::{
    Arena, ArenaModel, BodyModel, BodySpec, BodySpecModel, ForceField, ForceFieldModel, Movable,
};
use crate::integrator::{tick, ticked};
use crate::scalar::Scalar;
use crate::vector::{Vec2, Vec2Model};

verus! {

/// Whether bodies exist and are simulated.
#[derive(Clone, Copy, Debug, PartialEq, Eq, Structural, Hash)]
pub enum GameState {
    /// Bodies exist and every step simulates them.
    Playing,
    /// No body exists; the next step returns to `Playing`.
    Restart,
}

impl Default for GameState {
    fn default() -> (state: GameState)
        ensures
            state == GameState::Playing,
    {
        GameState::Playing
    }
}

/// The two signals sampled once per tick.
#[derive(Clone, Copy, Debug)]
pub struct InputSignals {
    pub wind_active: bool,
    pub restart_requested: bool,
}

/// What a renderer needs to know of a body.
#[derive(Clone, Copy, Debug)]
pub struct BodySnapshot {
    pub position: Vec2,
    pub velocity: Vec2,
}

/// The mathematical content of a snapshot.
pub struct SnapshotModel {
    pub position: Vec2Model,
    pub velocity: Vec2Model,
}

impl View for BodySnapshot {
    type V = SnapshotModel;

    open spec fn view(&self) -> SnapshotModel {
        SnapshotModel { position: self.position@, velocity: self.velocity@ }
    }
}

/// Why a scene was rejected.
#[derive(Clone, Copy, Debug, PartialEq, Eq)]
pub enum SceneError {
    /// The body at `index` has a mass that is not positive.
    NonPositiveMass { index: usize },
}

/// The snapshot of a body.
pub open spec fn snapshot_of(b: BodyModel) -> SnapshotModel {
    SnapshotModel { position: b.position, velocity: b.velocity }
}

/// The models of a list of body specifications.
pub open spec fn scene_models(scene: Seq<BodySpec>) -> Seq<BodySpecModel> {
    Seq::new(scene.len(), |i: int| scene[i]@)
}

/// The models of a list of bodies.
pub open spec fn body_models(bodies: Seq<Movable>) -> Seq<BodyModel> {
    Seq::new(bodies.len(), |i: int| bodies[i]@)
}

/// Whether every body of the scene has a positive mass.
pub open spec fn scene_valid(scene: Seq<BodySpecModel>) -> bool {
    forall|i: int| 0 <= i < scene.len() ==> (#[trigger] scene[i]).mass > 0
}

/// The bodies of a scene, each at rest where the scene puts it.
pub open spec fn spawned(scene: Seq<BodySpecModel>) -> Seq<BodyModel> {
    Seq::new(scene.len(), |i: int| scene[i].body())
}

/// The state that follows `state` when a step ends: a requested restart
/// leaves `Playing`, and `Restart` always returns to `Playing`.
pub open spec fn scheduled(state: GameState, restart_requested: bool) -> Option<GameState> {
    match state {
        GameState::Playing => if restart_requested {
            Some(GameState::Restart)
        } else {
            None
        },
        GameState::Restart => Some(GameState::Playing),
    }
}

/// The mathematical content of a world.
pub struct WorldModel {
    pub field: ForceFieldModel,
    pub arena: ArenaModel,
    pub scene: Seq<BodySpecModel>,
    pub state: GameState,
    pub pending: Option<GameState>,
    pub bodies: Seq<BodyModel>,
}

impl WorldModel {
    /// The world at the start: `Playing`, with the scene's bodies at rest.
    pub open spec fn started(
        field: ForceFieldModel,
        arena: ArenaModel,
        scene: Seq<BodySpecModel>,
    ) -> WorldModel {
        WorldModel {
            field,
            arena,
            scene,
            state: GameState::Playing,
            pending: None,
            bodies: spawned(scene),
        }
    }

    /// The world after the pending transition, if there is one, has been
    /// carried out: leaving `Playing` destroys every body, and entering
    /// `Playing` creates the scene's bodies.
    pub open spec fn transitioned(self) -> WorldModel {
        match self.pending {
            None => self,
            Some(GameState::Playing) => WorldModel {
                state: GameState::Playing,
                pending: None,
                bodies: spawned(self.scene),
                ..self
            },
            Some(GameState::Restart) => WorldModel {
                state: GameState::Restart,
                pending: None,
                bodies: match self.state {
                    GameState::Playing => Seq::empty(),
                    GameState::Restart => self.bodies,
                },
                ..self
            },
        }
    }

    /// The world after the current state's work for one tick: in `Playing`
    /// every body is advanced; in either state the transition that follows
    /// is scheduled.
    pub open spec fn updated(self, dt: int, wind_active: bool, restart_requested: bool) -> WorldModel {
        WorldModel {
            pending: scheduled(self.state, restart_requested),
            bodies: match self.state {
                GameState::Playing => Seq::new(
                    self.bodies.len(),
                    |i: int| ticked(self.bodies[i], self.field, self.arena, wind_active, dt),
                ),
                GameState::Restart => self.bodies,
            },
            ..self
        }
    }

    /// The world after one step: first the pending transition, then the
    /// state's work.
    pub open spec fn stepped(self, dt: int, wind_active: bool, restart_requested: bool) -> WorldModel {
        self.transitioned().updated(dt, wind_active, restart_requested)
    }
}

/// A simulation: the constants, the scene, the state machine and the bodies
/// that currently exist. Every body of its scene has a positive mass.
#[derive(Debug)]
pub struct World {
    field: ForceField,
    arena: Arena,
    scene: Vec<BodySpec>,
    state: GameState,
    pending: Option<GameState>,
    bodies: Vec<Movable>,
}

impl View for World {
    type V = WorldModel;

    closed spec fn view(&self) -> WorldModel {
        WorldModel {
            field: self.field@,
            arena: self.arena@,
            scene: scene_models(self.scene@),
            state: self.state,
            pending: self.pending,
            bodies: body_models(self.bodies@),
        }
    }
}

/// Decides which transition follows a step spent in `state`.
pub fn next_state(state: GameState, restart_requested: bool) -> (next: Option<GameState>)
    ensures
        next == scheduled(state, restart_requested),
{
    match state {
        GameState::Playing => if restart_requested {
            Some(GameState::Restart)
        } else {
            None
        },
        GameState::Restart => Some(GameState::Playing),
    }
}

/// The scene of one body: at the origin, of mass 2, 32 units wide and 64
/// units high.
pub fn default_scene() -> (scene: Vec<BodySpec>)
    ensures
        scene_models(scene@) == seq![
            BodySpecModel {
                position: Vec2Model::zero(),
                mass: 2_000_000,
                half_width: 16_000_000,
                half_height: 32_000_000,
            },
        ],
{
    let mut scene: Vec<BodySpec> = Vec::new();
    scene.push(
        BodySpec {
            position: Vec2::zero(),
            mass: Scalar::from_int(2),
            half_width: Scalar::from_int(16),
            half_height: Scalar::from_int(32),
        },
    );
    proof {
        assert(scene_models(scene@) =~= seq![
            BodySpecModel {
                position: Vec2Model::zero(),
                mass: 2_000_000,
                half_width: 16_000_000,
                half_height: 32_000_000,
            },
        ]);
    }
    scene
}

/// Creates the bodies of a scene, or reports the first body whose mass is
/// not positive.
pub fn spawn_scene(scene: &Vec<BodySpec>) -> (r: Result<Vec<Movable>, SceneError>)
    ensures
        match r {
            Ok(bodies) => scene_valid(scene_models(scene@)) && body_models(bodies@) == spawned(
                scene_models(scene@),
            ),
            Err(SceneError::NonPositiveMass { index }) => {
                &&& index < scene.len()
                &&& scene[index as int]@.mass <= 0
                &&& forall|j: int| 0 <= j < index ==> (#[trigger] scene[j])@.mass > 0
            },
        },
{
    let mut bodies: Vec<Movable> = Vec::new();
    let mut i: usize = 0;
    while i < scene.len()
        invariant
            i <= scene.len(),
            bodies.len() == i,
            forall|j: int| 0 <= j < i ==> (#[trigger] scene[j])@.mass > 0,
            forall|j: int| 0 <= j < i ==> (#[trigger] bodies[j])@ == scene[j]@.body(),
        decreases scene.len() - i,
    {
        match Movable::spawn(&scene[i]) {
            Some(body) => {
                bodies.push(body);
            },
            None => {
                return Err(SceneError::NonPositiveMass { index: i });
            },
        }
        i += 1;
    }
    proof {
        assert(scene_valid(scene_models(scene@)));
        assert(body_models(bodies@) =~= spawned(scene_models(scene@)));
    }
    Ok(bodies)
}

impl World {
    #[verifier::type_invariant]
    spec fn has_valid_scene(self) -> bool {
        scene_valid(scene_models(self.scene@))
    }

    /// A world in `Playing` with the scene's bodies at rest. A scene with a
    /// body whose mass is not positive is rejected, naming the first such
    /// body.
    pub fn new(field: ForceField, arena: Arena, scene: Vec<BodySpec>) -> (r: Result<
        World,
        SceneError,
    >)
        ensures
            match r {
                Ok(world) => {
                    &&& scene_valid(scene_models(scene@))
                    &&& world@ == WorldModel::started(field@, arena@, scene_models(scene@))
                },
                Err(SceneError::NonPositiveMass { index }) => {
                    &&& index < scene.len()
                    &&& scene[index as int]@.mass <= 0
                    &&& forall|j: int| 0 <= j < index ==> (#[trigger] scene[j])@.mass > 0
                },
            },
    {
        match spawn_scene(&scene) {
            Ok(bodies) => Ok(
                World { field, arena, scene, state: GameState::Playing, pending: None, bodies },
            ),
            Err(e) => Err(e),
        }
    }

    /// Carries out the pending transition, if there is one.
    fn apply_transition(&mut self)
        ensures
            final(self)@ == old(self)@.transitioned(),
    {
        proof {
            use_type_invariant(&*self);
        }
        match self.pending {
            None => {},
            Some(GameState::Playing) => {
                match spawn_scene(&self.scene) {
                    Ok(bodies) => {
                        self.bodies = bodies;
                    },
                    Err(SceneError::NonPositiveMass { index }) => {
                        proof {
                            assert(scene_models(self.scene@)[index as int].mass > 0);
                        }
                    },
                }
                self.state = GameState::Playing;
                self.pending = None;
            },
            Some(GameState::Restart) => {
                match self.state {
                    GameState::Playing => {
                        self.bodies = Vec::new();
                        proof {
                            assert(body_models(self.bodies@) =~= Seq::<BodyModel>::empty());
                        }
                    },
                    GameState::Restart => {},
                }
                self.state = GameState::Restart;
                self.pending = None;
            },
        }
    }

    /// Does the current state's work for one tick.
    fn update(&mut self, dt: Scalar, input: InputSignals)
        ensures
            final(self)@ == old(self)@.updated(dt@, input.wind_active, input.restart_requested),
    {
        proof {
            use_type_invariant(&*self);
        }
        match self.state {
            GameState::Playing => {
                let mut next: Vec<Movable> = Vec::new();
                let mut i: usize = 0;
                while i < self.bodies.len()
                    invariant
                        i <= self.bodies.len(),
                        next.len() == i,
                        forall|j: int|
                            0 <= j < i ==> (#[trigger] next[j])@ == ticked(
                                self.bodies[j]@,
                                self.field@,
                                self.arena@,
                                input.wind_active,
                                dt@,
                            ),
                    decreases self.bodies.len() - i,
                {
                    let mut body: Movable = self.bodies[i];
                    tick(&mut body, &self.field, &self.arena, input.wind_active, dt);
                    next.push(body);
                    i += 1;
                }
                proof {
                    assert(body_models(next@) =~= old(self)@.updated(
                        dt@,
                        input.wind_active,
                        input.restart_requested,
                    ).bodies);
                }
                self.bodies = next;
            },
            GameState::Restart => {},
        }
        self.pending = next_state(self.state, input.restart_requested);
    }

    /// The snapshots of the bodies that exist, in order.
    pub fn snapshots(&self) -> (snaps: Vec<BodySnapshot>)
        ensures
            snaps@.len() == self@.bodies.len(),
            forall|i: int| 0 <= i < snaps@.len() ==> (#[trigger] snaps@[i])@ == snapshot_of(self@.bodies[i]),
    {
        let mut snaps: Vec<BodySnapshot> = Vec::new();
        let mut i: usize = 0;
        while i < self.bodies.len()
            invariant
                i <= self.bodies.len(),
                snaps.len() == i,
                forall|j: int|
                    0 <= j < i ==> (#[trigger] snaps@[j])@ == snapshot_of(self.bodies[j]@),
            decreases self.bodies.len() - i,
        {
            snaps.push(
                BodySnapshot {
                    position: self.bodies[i].position(),
                    velocity: self.bodies[i].velocity(),
                },
            );
            i += 1;
        }
        snaps
    }

    /// Advances the world by one tick of duration `dt`: carries out the
    /// pending transition, simulates every body if the state is `Playing`,
    /// and returns the snapshots of the bodies that then exist.
    pub fn step(&mut self, dt: Scalar, input: InputSignals) -> (snaps: Vec<BodySnapshot>)
        ensures
            final(self)@ == old(self)@.stepped(dt@, input.wind_active, input.restart_requested),
            snaps@.len() == final(self)@.bodies.len(),
            forall|i: int|
                0 <= i < snaps@.len() ==> (#[trigger] snaps@[i])@ == snapshot_of(
                    final(self)@.bodies[i],
                ),
    {
        self.apply_transition();
        self.update(dt, input);
        self.snapshots()
    }

    /// The constants of the forces.
    pub fn field(&self) -> (field: ForceField)
        ensures
            field@ == self@.field,
    {
        self.field
    }

    /// The arena.
    pub fn arena(&self) -> (arena: Arena)
        ensures
            arena@ == self@.arena,
    {
        self.arena
    }

    /// The transition that the next step will carry out, if any.
    pub fn pending(&self) -> (pending: Option<GameState>)
        ensures
            pending == self@.pending,
    {
        self.pending
    }

    /// The current state.
    pub fn state(&self) -> (state: GameState)
        ensures
            state == self@.state,
    {
        self.state
    }

    /// The number of bodies that exist.
    pub fn body_count(&self) -> (n: usize)
        ensures
            n == self@.bodies.len(),
    {
        self.bodies.len()
    }

    /// The body at `index`, if there is one.
    pub fn body(&self, index: usize) -> (body: Option<Movable>)
        ensures
            index < self@.bodies.len() ==> body.is_some() && body.unwrap()@ == self@.bodies[index as int],
            index >= self@.bodies.len() ==> body.is_none(),
    {
        if index < self.bodies.len() {
            Some(self.bodies[index])
        } else {
            None
        }
    }
}

/// A requested restart destroys every body and then creates the scene
/// anew. From a world in `Playing` with nothing scheduled, the step that
/// sees the request schedules the restart; the next step leaves no body;
/// and the step after that goes on from the very world that the scene
/// starts with.
pub proof fn lemma_restart_returns_to_start(
    w: WorldModel,
    dt1: int,
    wind1: bool,
    dt2: int,
    wind2: bool,
    restart2: bool,
    dt3: int,
    wind3: bool,
    restart3: bool,
)
    requires
        w.state == GameState::Playing,
        w.pending.is_none(),
    ensures
        ({
            let requested = w.stepped(dt1, wind1, true);
            let emptied = requested.stepped(dt2, wind2, restart2);
            let start = WorldModel::started(w.field, w.arena, w.scene);
            &&& requested.pending == Some(GameState::Restart)
            &&& emptied.state == GameState::Restart
            &&& emptied.bodies.len() == 0
            &&& emptied.transitioned() == start
            &&& start.bodies.len() == w.scene.len()
            &&& forall|i: int|
                0 <= i < w.scene.len() ==> {
                    &&& (#[trigger] start.bodies[i]).position == w.scene[i].position
                    &&& start.bodies[i].velocity == Vec2Model::zero()
                }
            &&& emptied.stepped(dt3, wind3, restart3) == start.stepped(dt3, wind3, restart3)
        }),
{
}

} // verus!
