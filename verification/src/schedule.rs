//! Stages, the systems registered to them, and the order in which a tick runs them.
//!
//! A tick is one pass through the five stages in their fixed order. Within a stage the
//! systems run in the order in which they were registered. After the last system of a
//! stage the command queue is drained, so that the structural changes a stage asked for
//! are in place before the next stage begins, and never while a system is at work.

use vstd::prelude::*;
use crate::player_state::PlayerStateId;

verus! {

/// The stages of a tick, in the order they run.
#[derive(Clone, Copy, Debug, PartialEq, Eq, Hash, Structural)]
pub enum CoreStage {
    First,
    PreUpdate,
    Update,
    PostUpdate,
    Last,
}

/// Names of the systems that can be registered.
#[derive(Clone, Copy, Debug, PartialEq, Eq, Hash, Structural)]
pub enum SystemId {
    /// Plays back the audio events. Run by the host.
    Music,
    Hydrate,
    UpdateLitKickBombs,
    UpdateIdleKickBombs,
    GrabItems,
    DropItems,
    ThrowDroppedItems,
    WalkTransition,
    WalkUpdate,
    /// Lets players in the given state use, drop or grab items. Run by the host.
    UseDropOrGrabItems(PlayerStateId),
    PlayerStateAge,
    Lifetimes,
    /// Draws the outlines of the physics colliders. Run by the host.
    DebugRenderColliders,
    DebugRenderDamageRegions,
    DebugRenderEmoteRegions,
}

/// Types whose layout the asset loader has to know.
#[derive(Clone, Copy, Debug, PartialEq, Eq, Hash, Structural)]
pub enum Schema {
    KickBombMeta,
    Item,
    ItemThrow,
    ItemGrab,
    DropItem,
    ItemUsed,
}

/// Shared resources that a game can hold.
#[derive(Clone, Copy, Debug, PartialEq, Eq, Hash, Structural)]
pub enum SharedResource {
    AudioCenter,
}

/// Names of the sessions of a game.
#[derive(Clone, Copy, Debug, PartialEq, Eq, Hash, Structural)]
pub enum SessionName {
    Audio,
    Match,
}

/// The systems of each stage as mathematical sequences.
#[verifier::ext_equal]
pub struct StagesView {
    pub first: Seq<SystemId>,
    pub pre_update: Seq<SystemId>,
    pub update: Seq<SystemId>,
    pub post_update: Seq<SystemId>,
    pub last: Seq<SystemId>,
}

impl StagesView {
    /// The systems of one stage, in registration order.
    pub open spec fn systems(self, stage: CoreStage) -> Seq<SystemId> {
        match stage {
            CoreStage::First => self.first,
            CoreStage::PreUpdate => self.pre_update,
            CoreStage::Update => self.update,
            CoreStage::PostUpdate => self.post_update,
            CoreStage::Last => self.last,
        }
    }

    /// The stages with `system` registered last in `stage`.
    pub open spec fn add(self, stage: CoreStage, system: SystemId) -> StagesView {
        match stage {
            CoreStage::First => StagesView { first: self.first.push(system), ..self },
            CoreStage::PreUpdate => StagesView { pre_update: self.pre_update.push(system), ..self },
            CoreStage::Update => StagesView { update: self.update.push(system), ..self },
            CoreStage::PostUpdate => StagesView { post_update: self.post_update.push(system), ..self },
            CoreStage::Last => StagesView { last: self.last.push(system), ..self },
        }
    }
}

/// The systems registered to each stage.
pub struct SystemStages {
    pub first: Vec<SystemId>,
    pub pre_update: Vec<SystemId>,
    pub update: Vec<SystemId>,
    pub post_update: Vec<SystemId>,
    pub last: Vec<SystemId>,
}

impl View for SystemStages {
    type V = StagesView;

    open spec fn view(&self) -> StagesView {
        StagesView {
            first: self.first@,
            pre_update: self.pre_update@,
            update: self.update@,
            post_update: self.post_update@,
            last: self.last@,
        }
    }
}

impl SystemStages {
    /// Stages without systems.
    pub fn new() -> (stages: SystemStages)
        ensures
            forall|stage: CoreStage| #[trigger] stages@.systems(stage).len() == 0,
    {
        SystemStages {
            first: Vec::new(),
            pre_update: Vec::new(),
            update: Vec::new(),
            post_update: Vec::new(),
            last: Vec::new(),
        }
    }

    /// Registers `system` to run in `stage`, after the systems registered there before.
    pub fn add_system_to_stage(&mut self, stage: CoreStage, system: SystemId)
        ensures
            final(self)@ == old(self)@.add(stage, system),
    {
        match stage {
            CoreStage::First => self.first.push(system),
            CoreStage::PreUpdate => self.pre_update.push(system),
            CoreStage::Update => self.update.push(system),
            CoreStage::PostUpdate => self.post_update.push(system),
            CoreStage::Last => self.last.push(system),
        }
    }

    /// The systems of one stage, in registration order.
    pub fn systems(&self, stage: CoreStage) -> (systems: &Vec<SystemId>)
        ensures
            systems@ == self@.systems(stage),
    {
        match stage {
            CoreStage::First => &self.first,
            CoreStage::PreUpdate => &self.pre_update,
            CoreStage::Update => &self.update,
            CoreStage::PostUpdate => &self.post_update,
            CoreStage::Last => &self.last,
        }
    }
}

/// The schemas `schemas` with `schema` registered as well: a schema that is registered
/// already is not added again.
pub open spec fn register_spec(schemas: Seq<Schema>, schema: Schema) -> Seq<Schema> {
    if schemas.contains(schema) {
        schemas
    } else {
        schemas.push(schema)
    }
}

/// The set of registered schemas, without repetition.
pub struct SchemaRegistry {
    pub schemas: Vec<Schema>,
}

impl SchemaRegistry {
    /// `schema` is registered.
    pub open spec fn has(&self, schema: Schema) -> bool {
        self.schemas@.contains(schema)
    }

    /// No schema is registered twice.
    pub open spec fn wf(&self) -> bool {
        self.schemas@.no_duplicates()
    }

    /// A registry without schemas.
    pub fn new() -> (registry: SchemaRegistry)
        ensures
            registry.schemas@.len() == 0,
            registry.wf(),
    {
        SchemaRegistry { schemas: Vec::new() }
    }

    /// Whether `schema` is registered.
    pub fn contains(&self, schema: Schema) -> (b: bool)
        ensures
            b == self.has(schema),
    {
        let mut k: usize = 0;
        while k < self.schemas.len()
            invariant
                k <= self.schemas@.len(),
                forall|j: int| 0 <= j < k ==> self.schemas@[j] != schema,
            decreases self.schemas@.len() - k,
        {
            if self.schemas[k] == schema {
                return true;
            }
            k = k + 1;
        }
        false
    }

    /// Registers `schema`. Registering a schema a second time changes nothing.
    pub fn register(&mut self, schema: Schema)
        ensures
            final(self).schemas@ == register_spec(old(self).schemas@, schema),
            final(self).has(schema),
            old(self).wf() ==> final(self).wf(),
    {
        if !self.contains(schema) {
            self.schemas.push(schema);
            assert(self.schemas@.last() == schema);
        }
    }
}

/// A session under construction: the systems it will run and the schemas it needs.
pub struct SessionBuilder {
    pub stages: SystemStages,
    pub schemas: SchemaRegistry,
}

impl SessionBuilder {
    pub fn new() -> (session: SessionBuilder)
        ensures
            forall|stage: CoreStage| #[trigger] session.stages@.systems(stage).len() == 0,
            session.schemas.schemas@.len() == 0,
    {
        SessionBuilder { stages: SystemStages::new(), schemas: SchemaRegistry::new() }
    }
}

/// A session of a game under its name.
pub struct NamedSession {
    pub name: SessionName,
    pub session: SessionBuilder,
}

/// A game under construction: its sessions and what they share.
pub struct Game {
    pub sessions: Vec<NamedSession>,
    pub shared_resources: Vec<SharedResource>,
    pub schemas: SchemaRegistry,
}

impl Game {
    /// Position of the first session named `name` from position `k` onward.
    pub open spec fn session_from(&self, name: SessionName, k: int) -> Option<int>
        decreases self.sessions@.len() - k,
    {
        if k < 0 || k >= self.sessions@.len() {
            None
        } else if self.sessions@[k].name == name {
            Some(k)
        } else {
            self.session_from(name, k + 1)
        }
    }

    /// Position of the first session named `name`.
    pub open spec fn session_index(&self, name: SessionName) -> Option<int> {
        self.session_from(name, 0)
    }

    /// There is a session named `name`.
    pub open spec fn has_session(&self, name: SessionName) -> bool {
        self.session_index(name) is Some
    }

    /// The shared resource `resource` has been set up.
    pub open spec fn shares(&self, resource: SharedResource) -> bool {
        self.shared_resources@.contains(resource)
    }

    /// A game without sessions.
    pub fn new() -> (game: Game)
        ensures
            game.sessions@.len() == 0,
            game.shared_resources@.len() == 0,
            game.schemas.schemas@.len() == 0,
    {
        Game { sessions: Vec::new(), shared_resources: Vec::new(), schemas: SchemaRegistry::new() }
    }

    /// Position of the first session named `name`, if there is one.
    pub fn find_session(&self, name: SessionName) -> (found: Option<usize>)
        ensures
            match found {
                Some(k) => self.session_index(name) == Some(k as int) && k < self.sessions@.len()
                    && self.sessions@[k as int].name == name,
                None => self.session_index(name) is None,
            },
    {
        let mut k: usize = 0;
        while k < self.sessions.len()
            invariant
                k <= self.sessions@.len(),
                self.session_from(name, k as int) == self.session_from(name, 0),
            decreases self.sessions@.len() - k,
        {
            if self.sessions[k].name == name {
                return Some(k);
            }
            k = k + 1;
        }
        None
    }

    /// Adds a session at the end.
    pub fn add_session(&mut self, name: SessionName, session: SessionBuilder)
        ensures
            final(self).sessions@ == old(self).sessions@.push(NamedSession { name, session }),
            final(self).shared_resources == old(self).shared_resources,
            final(self).schemas == old(self).schemas,
    {
        self.sessions.push(NamedSession { name, session });
    }

    /// Sets up a shared resource, unless it is set up already.
    pub fn init_shared_resource(&mut self, resource: SharedResource)
        ensures
            final(self).shares(resource),
            final(self).shared_resources@ == if old(self).shares(resource) {
                old(self).shared_resources@
            } else {
                old(self).shared_resources@.push(resource)
            },
            final(self).sessions == old(self).sessions,
            final(self).schemas == old(self).schemas,
    {
        let mut k: usize = 0;
        let mut present = false;
        while k < self.shared_resources.len()
            invariant
                k <= self.shared_resources@.len(),
                present <==> exists|j: int| 0 <= j < k && self.shared_resources@[j] == resource,
                *self == *old(self),
            decreases self.shared_resources@.len() - k,
        {
            if self.shared_resources[k] == resource {
                present = true;
            }
            k = k + 1;
        }
        if !present {
            self.shared_resources.push(resource);
            assert(self.shared_resources@.last() == resource);
        }
    }
}

} // verus!
