//! The order of release, checked as the program runs.
//!
//! Every object of the driver is created from others, and must be released before them.
//! A `Registry` records what was created from what, refuses a release that comes too
//! early, and gives the order in which everything that is left can be released.
use vstd::prelude::*;

verus! {

/// The kinds of object that have to be released.
#[derive(Clone, Copy, Debug, PartialEq, Eq, Structural)]
pub enum Kind {
    Instance,
    LogicalDevice,
    CommandPool,
    CommandBuffer,
    Image,
    RenderPass,
    Pipeline,
    Framebuffer,
}

/// Why the registry refused.
#[derive(Clone, Copy, Debug, PartialEq, Eq, Structural)]
pub enum LifetimeError {
    /// No entity has this number.
    UnknownEntity,
    /// The entity was released before.
    AlreadyDestroyed,
    /// The entity `by`, which is not released, was created from this one.
    StillInUse { by: usize },
    /// The entities named are not what an entity of this kind is created from.
    InvalidDependencies,
    /// One of the entities named was released before.
    DependencyDestroyed,
}

/// One recorded entity: its kind, the entities it was created from, and whether it has
/// not been released.
pub struct EntityModel {
    pub kind: Kind,
    pub dependencies: Seq<usize>,
    pub alive: bool,
}

#[derive(Debug)]
struct Entity {
    kind: Kind,
    dependencies: Vec<usize>,
    alive: bool,
}

impl View for Entity {
    type V = EntityModel;

    closed spec fn view(&self) -> EntityModel {
        EntityModel { kind: self.kind, dependencies: self.dependencies@, alive: self.alive }
    }
}

/// The kinds of the entities that an entity of `kind` is created from: what it refers to
/// first, the device that owns it last.
pub open spec fn expected_kinds(kind: Kind) -> Seq<Kind> {
    match kind {
        Kind::Instance => Seq::<Kind>::empty(),
        Kind::LogicalDevice => seq![Kind::Instance],
        Kind::CommandPool => seq![Kind::LogicalDevice],
        Kind::CommandBuffer => seq![Kind::CommandPool, Kind::LogicalDevice],
        Kind::Image => seq![Kind::LogicalDevice],
        Kind::RenderPass => seq![Kind::LogicalDevice],
        Kind::Pipeline => seq![Kind::RenderPass, Kind::LogicalDevice],
        Kind::Framebuffer => seq![Kind::RenderPass, Kind::Image, Kind::LogicalDevice],
    }
}

/// The entity `user` was created from the entity `used`.
pub open spec fn depends_on(graph: Seq<EntityModel>, user: int, used: int) -> bool {
    exists|k: int| 0 <= k < graph[user].dependencies.len() && #[trigger] graph[user].dependencies[k] == used
}

/// The entity that was named last when `id` was created: for all but instances and
/// devices, the device.
pub open spec fn owner_of(graph: Seq<EntityModel>, id: int) -> Option<usize> {
    if graph[id].dependencies.len() > 0 {
        Some(graph[id].dependencies.last())
    } else {
        None
    }
}

/// An entity of `kind` can be created from `dependencies`: they are as many as the kind
/// asks for, each was recorded before `bound` and is of the kind asked for, and those
/// before the last belong to the last.
pub open spec fn shape_ok(graph: Seq<EntityModel>, bound: int, kind: Kind, dependencies: Seq<usize>) -> bool {
    &&& dependencies.len() == expected_kinds(kind).len()
    &&& forall|k: int|
        0 <= k < dependencies.len() ==> (#[trigger] dependencies[k]) < bound
            && graph[dependencies[k] as int].kind == expected_kinds(kind)[k]
    &&& forall|k: int|
        0 <= k < dependencies.len() - 1 ==> owner_of(graph, (#[trigger] dependencies[k]) as int) == Some(
            dependencies.last(),
        )
}

/// None of `dependencies` has been released.
pub open spec fn all_alive(graph: Seq<EntityModel>, dependencies: Seq<usize>) -> bool {
    forall|k: int| 0 <= k < dependencies.len() ==> graph[(#[trigger] dependencies[k]) as int].alive
}

/// The entity `id` was created from earlier entities of the right kinds, and where it has
/// not been released, neither has any of them.
pub open spec fn entity_ok(graph: Seq<EntityModel>, id: int) -> bool {
    &&& shape_ok(graph, id, graph[id].kind, graph[id].dependencies)
    &&& graph[id].alive ==> all_alive(graph, graph[id].dependencies)
}

/// The record of a valid chain of creations and releases: every entity is created from
/// entities before it, and nothing that an unreleased entity was created from is released.
pub open spec fn well_formed(graph: Seq<EntityModel>) -> bool {
    &&& graph.len() <= usize::MAX
    &&& forall|id: int| 0 <= id < graph.len() ==> #[trigger] entity_ok(graph, id)
}

/// The entity `id` may be released: it has not been, and nothing that has not been
/// released was created from it.
pub open spec fn can_destroy(graph: Seq<EntityModel>, id: int) -> bool {
    &&& 0 <= id < graph.len()
    &&& graph[id].alive
    &&& forall|user: int| 0 <= user < graph.len() && graph[user].alive ==> !#[trigger] depends_on(graph, user, id)
}

/// `by` is the first entity that has not been released and was created from `id`.
pub open spec fn first_user(graph: Seq<EntityModel>, id: int, by: int) -> bool {
    &&& 0 <= by < graph.len()
    &&& graph[by].alive
    &&& depends_on(graph, by, id)
    &&& forall|user: int| 0 <= user < by && graph[user].alive ==> !#[trigger] depends_on(graph, user, id)
}

/// The record after the entity `id` is released.
pub open spec fn destroyed(graph: Seq<EntityModel>, id: int) -> Seq<EntityModel> {
    graph.update(id, EntityModel { alive: false, ..graph[id] })
}

/// The record after every entity is released.
pub open spec fn all_destroyed(graph: Seq<EntityModel>) -> Seq<EntityModel> {
    Seq::new(graph.len(), |id: int| EntityModel { alive: false, ..graph[id] })
}

/// The releases of `order` can be made one after the other: each entity may be released
/// when its turn comes.
pub open spec fn accepts(graph: Seq<EntityModel>, order: Seq<usize>) -> bool
    decreases order.len(),
{
    if order.len() == 0 {
        true
    } else {
        can_destroy(graph, order[0] as int) && accepts(destroyed(graph, order[0] as int), order.drop_first())
    }
}

/// The record after the releases of `order`, made one after the other.
pub open spec fn after_releases(graph: Seq<EntityModel>, order: Seq<usize>) -> Seq<EntityModel>
    decreases order.len(),
{
    if order.len() == 0 {
        graph
    } else {
        after_releases(destroyed(graph, order[0] as int), order.drop_first())
    }
}

/// The unreleased entities among the first `bound`, the one created last first.
pub open spec fn reverse_creation_order(graph: Seq<EntityModel>, bound: int) -> Seq<usize>
    decreases bound,
{
    if bound <= 0 {
        Seq::<usize>::empty()
    } else if graph[bound - 1].alive {
        seq![(bound - 1) as usize] + reverse_creation_order(graph, bound - 1)
    } else {
        reverse_creation_order(graph, bound - 1)
    }
}

/// A new entity that is created from unreleased entities of the right kinds keeps the
/// record valid.
pub proof fn lemma_create_keeps_well_formed(graph: Seq<EntityModel>, entity: EntityModel)
    requires
        well_formed(graph),
        graph.len() < usize::MAX,
        shape_ok(graph, graph.len() as int, entity.kind, entity.dependencies),
        entity.alive ==> all_alive(graph, entity.dependencies),
    ensures
        well_formed(graph.push(entity)),
{
    let after = graph.push(entity);
    assert forall|id: int| 0 <= id < after.len() implies #[trigger] entity_ok(after, id) by {
        if id < graph.len() {
            assert(entity_ok(graph, id));
        }
    }
}

/// A release that is allowed keeps the record valid.
pub proof fn lemma_destroy_keeps_well_formed(graph: Seq<EntityModel>, id: int)
    requires
        well_formed(graph),
        can_destroy(graph, id),
    ensures
        well_formed(destroyed(graph, id)),
{
    let after = destroyed(graph, id);
    assert forall|other: int| 0 <= other < after.len() implies #[trigger] entity_ok(after, other) by {
        assert(entity_ok(graph, other));
        if after[other].alive {
            assert(!depends_on(graph, other, id));
        }
    }
}

/// In a valid record an entity was created only from entities before it.
pub proof fn lemma_users_come_later(graph: Seq<EntityModel>, user: int, used: int)
    requires
        well_formed(graph),
        0 <= user < graph.len(),
        depends_on(graph, user, used),
    ensures
        0 <= used < user,
{
    assert(entity_ok(graph, user));
    let k = choose|k: int| 0 <= k < graph[user].dependencies.len() && #[trigger] graph[user].dependencies[k] == used;
}

/// Releasing an entity changes nothing of the order among the entities before it.
proof fn lemma_order_below_is_kept(graph: Seq<EntityModel>, id: int, bound: int)
    requires
        0 <= bound <= id < graph.len(),
    ensures
        reverse_creation_order(destroyed(graph, id), bound) == reverse_creation_order(graph, bound),
    decreases bound,
{
    if bound > 0 {
        lemma_order_below_is_kept(graph, id, bound - 1);
    }
}

/// Where only the first `bound` entities are left, releasing them in the reverse of the
/// order of creation is allowed at every step, and leaves nothing.
pub proof fn lemma_reverse_creation_order_is_accepted(graph: Seq<EntityModel>, bound: int)
    requires
        well_formed(graph),
        0 <= bound <= graph.len(),
        forall|id: int| bound <= id < graph.len() ==> !(#[trigger] graph[id]).alive,
    ensures
        accepts(graph, reverse_creation_order(graph, bound)),
        after_releases(graph, reverse_creation_order(graph, bound)) == all_destroyed(graph),
    decreases bound,
{
    if bound > 0 {
        let id = bound - 1;
        if graph[id].alive {
            assert forall|user: int| 0 <= user < graph.len() && graph[user].alive implies !#[trigger] depends_on(
                graph,
                user,
                id,
            ) by {
                if depends_on(graph, user, id) {
                    lemma_users_come_later(graph, user, id);
                }
            }
            let after = destroyed(graph, id);
            lemma_destroy_keeps_well_formed(graph, id);
            lemma_order_below_is_kept(graph, id, id);
            lemma_reverse_creation_order_is_accepted(after, id);
            assert(reverse_creation_order(graph, bound).drop_first() =~= reverse_creation_order(graph, id));
        } else {
            lemma_reverse_creation_order_is_accepted(graph, id);
        }
    }
}

/// For every valid chain of creations, releasing what is left in the reverse of the order
/// of creation never meets a refusal: when the turn of an entity comes, everything that
/// was created from it has been released. Afterwards nothing is left.
pub proof fn lemma_teardown_in_reverse_is_valid(graph: Seq<EntityModel>)
    requires
        well_formed(graph),
    ensures
        accepts(graph, reverse_creation_order(graph, graph.len() as int)),
        after_releases(graph, reverse_creation_order(graph, graph.len() as int)) == all_destroyed(graph),
        forall|id: int| 0 <= id < graph.len() ==> !(#[trigger] all_destroyed(graph)[id]).alive,
{
    lemma_reverse_creation_order_is_accepted(graph, graph.len() as int);
}

/// An entity cannot be released while an unreleased entity was created from it: an order
/// that begins with such a release is refused.
pub proof fn lemma_early_release_is_refused(graph: Seq<EntityModel>, order: Seq<usize>, user: int)
    requires
        order.len() > 0,
        0 <= user < graph.len(),
        graph[user].alive,
        depends_on(graph, user, order[0] as int),
    ensures
        !accepts(graph, order),
{
}

/// The record of what was created from what, and of what has been released.
#[derive(Debug)]
pub struct Registry {
    entities: Vec<Entity>,
}

impl View for Registry {
    type V = Seq<EntityModel>;

    closed spec fn view(&self) -> Seq<EntityModel> {
        Seq::new(self.entities@.len(), |id: int| self.entities@[id]@)
    }
}

/// The kinds that an entity of `kind` is created from.
pub fn expected_dependencies(kind: Kind) -> (kinds: Vec<Kind>)
    ensures
        kinds@ == expected_kinds(kind),
{
    let mut kinds: Vec<Kind> = Vec::new();
    match kind {
        Kind::Instance => {},
        Kind::LogicalDevice => {
            kinds.push(Kind::Instance);
        },
        Kind::CommandPool => {
            kinds.push(Kind::LogicalDevice);
        },
        Kind::CommandBuffer => {
            kinds.push(Kind::CommandPool);
            kinds.push(Kind::LogicalDevice);
        },
        Kind::Image => {
            kinds.push(Kind::LogicalDevice);
        },
        Kind::RenderPass => {
            kinds.push(Kind::LogicalDevice);
        },
        Kind::Pipeline => {
            kinds.push(Kind::RenderPass);
            kinds.push(Kind::LogicalDevice);
        },
        Kind::Framebuffer => {
            kinds.push(Kind::RenderPass);
            kinds.push(Kind::Image);
            kinds.push(Kind::LogicalDevice);
        },
    }
    kinds
}

impl Registry {
    /// The record is that of a valid chain of creations and releases.
    pub open spec fn wf(&self) -> bool {
        well_formed(self@)
    }

    /// A record of nothing.
    pub fn new() -> (registry: Registry)
        ensures
            registry.wf(),
            registry@ == Seq::<EntityModel>::empty(),
    {
        let registry = Registry { entities: Vec::new() };
        registry
    }

    /// How many entities were recorded, released or not.
    pub fn len(&self) -> (n: usize)
        ensures
            n == self@.len(),
    {
        self.entities.len()
    }

    /// Whether the entity `id` was recorded and has not been released.
    pub fn is_alive(&self, id: usize) -> (alive: bool)
        ensures
            alive == (id < self@.len() && self@[id as int].alive),
    {
        id < self.entities.len() && self.entities[id].alive
    }

    /// The kind of the entity `id`, if it was recorded.
    pub fn kind(&self, id: usize) -> (kind: Option<Kind>)
        ensures
            kind == (if id < self@.len() {
                Some(self@[id as int].kind)
            } else {
                None
            }),
    {
        if id < self.entities.len() {
            Some(self.entities[id].kind)
        } else {
            None
        }
    }

    fn uses(&self, user: usize, used: usize) -> (found: bool)
        requires
            user < self@.len(),
        ensures
            found == depends_on(self@, user as int, used as int),
    {
        let dependencies = &self.entities[user].dependencies;
        let mut k: usize = 0;
        while k < dependencies.len()
            invariant
                k <= dependencies.len(),
                user < self@.len(),
                dependencies@ == self@[user as int].dependencies,
                forall|j: int| 0 <= j < k ==> dependencies@[j] != used,
            decreases dependencies.len() - k,
        {
            if dependencies[k] == used {
                return true;
            }
            k += 1;
        }
        false
    }

    /// Records an entity of `kind` that was created from `dependencies`, and numbers it.
    /// The numbers count up from 0 in the order of creation.
    pub fn create(&mut self, kind: Kind, dependencies: Vec<usize>) -> (r: Result<usize, LifetimeError>)
        requires
            old(self).wf(),
        ensures
            final(self).wf(),
            match r {
                Ok(id) => {
                    &&& shape_ok(old(self)@, old(self)@.len() as int, kind, dependencies@)
                    &&& all_alive(old(self)@, dependencies@)
                    &&& id == old(self)@.len()
                    &&& final(self)@ == old(self)@.push(
                        EntityModel { kind, dependencies: dependencies@, alive: true },
                    )
                },
                Err(e) => {
                    &&& final(self)@ == old(self)@
                    &&& match e {
                        LifetimeError::InvalidDependencies => !shape_ok(
                            old(self)@,
                            old(self)@.len() as int,
                            kind,
                            dependencies@,
                        ),
                        LifetimeError::DependencyDestroyed => {
                            &&& shape_ok(old(self)@, old(self)@.len() as int, kind, dependencies@)
                            &&& !all_alive(old(self)@, dependencies@)
                        },
                        _ => false,
                    }
                },
            },
    {
        let expected = expected_dependencies(kind);
        let count = dependencies.len();
        if count != expected.len() {
            return Err(LifetimeError::InvalidDependencies);
        }
        let mut alive = true;
        let mut k: usize = 0;
        while k < count
            invariant
                k <= count,
                count == dependencies@.len(),
                expected@ == expected_kinds(kind),
                count == expected@.len(),
                self@ == old(self)@,
                self.wf(),
                self.entities@.len() == self@.len(),
                forall|j: int|
                    0 <= j < k ==> (#[trigger] dependencies@[j]) < self@.len() && self@[dependencies@[j] as int].kind
                        == expected_kinds(kind)[j],
                forall|j: int|
                    0 <= j < k && j < count - 1 ==> owner_of(self@, (#[trigger] dependencies@[j]) as int) == Some(
                        dependencies@.last(),
                    ),
                alive <==> forall|j: int| 0 <= j < k ==> self@[(#[trigger] dependencies@[j]) as int].alive,
            decreases count - k,
        {
            let dependency = dependencies[k];
            if dependency >= self.entities.len() {
                return Err(LifetimeError::InvalidDependencies);
            }
            if self.entities[dependency].kind != expected[k] {
                return Err(LifetimeError::InvalidDependencies);
            }
            if k + 1 < count {
                let theirs = &self.entities[dependency].dependencies;
                if theirs.len() == 0 || theirs[theirs.len() - 1] != dependencies[count - 1] {
                    return Err(LifetimeError::InvalidDependencies);
                }
            }
            if !self.entities[dependency].alive {
                alive = false;
            }
            k += 1;
        }
        if !alive {
            return Err(LifetimeError::DependencyDestroyed);
        }
        let ghost entity = EntityModel { kind, dependencies: dependencies@, alive: true };
        self.entities.push(Entity { kind, dependencies, alive: true });
        let recorded = self.entities.len();
        proof {
            assert(self@ =~= old(self)@.push(entity));
            lemma_create_keeps_well_formed(old(self)@, entity);
        }
        Ok(recorded - 1)
    }

    /// Releases the entity `id`, unless something that has not been released was created
    /// from it.
    pub fn destroy(&mut self, id: usize) -> (r: Result<(), LifetimeError>)
        requires
            old(self).wf(),
        ensures
            final(self).wf(),
            match r {
                Ok(_) => can_destroy(old(self)@, id as int) && final(self)@ == destroyed(old(self)@, id as int),
                Err(e) => {
                    &&& final(self)@ == old(self)@
                    &&& match e {
                        LifetimeError::UnknownEntity => id >= old(self)@.len(),
                        LifetimeError::AlreadyDestroyed => id < old(self)@.len() && !old(self)@[id as int].alive,
                        LifetimeError::StillInUse { by } => {
                            &&& id < old(self)@.len()
                            &&& old(self)@[id as int].alive
                            &&& first_user(old(self)@, id as int, by as int)
                        },
                        _ => false,
                    }
                },
            },
    {
        if id >= self.entities.len() {
            return Err(LifetimeError::UnknownEntity);
        }
        if !self.entities[id].alive {
            return Err(LifetimeError::AlreadyDestroyed);
        }
        let mut user: usize = 0;
        while user < self.entities.len()
            invariant
                user <= self.entities@.len(),
                self.entities@.len() == self@.len(),
                self@ == old(self)@,
                self.wf(),
                id < self@.len(),
                self@[id as int].alive,
                forall|other: int| 0 <= other < user && self@[other].alive ==> !#[trigger] depends_on(self@, other, id as int),
            decreases self.entities.len() - user,
        {
            if self.entities[user].alive && self.uses(user, id) {
                return Err(LifetimeError::StillInUse { by: user });
            }
            user += 1;
        }
        proof {
            lemma_destroy_keeps_well_formed(self@, id as int);
        }
        self.entities[id].alive = false;
        assert(self@ =~= destroyed(old(self)@, id as int));
        Ok(())
    }

    /// Releases everything that is left, what was created last first, and gives the order.
    /// Every release in it is one that `destroy` allows when its turn comes.
    pub fn teardown(&mut self) -> (order: Vec<usize>)
        requires
            old(self).wf(),
        ensures
            final(self).wf(),
            order@ == reverse_creation_order(old(self)@, old(self)@.len() as int),
            accepts(old(self)@, order@),
            after_releases(old(self)@, order@) == final(self)@,
            final(self)@ == all_destroyed(old(self)@),
    {
        let mut order: Vec<usize> = Vec::new();
        let mut bound: usize = self.entities.len();
        proof {
            lemma_reverse_creation_order_is_accepted(self@, self@.len() as int);
        }
        while bound > 0
            invariant
                self.wf(),
                bound <= self@.len(),
                self@.len() == old(self)@.len(),
                self.entities@.len() == self@.len(),
                forall|id: int|
                    0 <= id < self@.len() ==> (#[trigger] self@[id]).kind == old(self)@[id].kind
                        && self@[id].dependencies == old(self)@[id].dependencies,
                forall|id: int| 0 <= id < bound ==> (#[trigger] self@[id]).alive == old(self)@[id].alive,
                forall|id: int| bound <= id < self@.len() ==> !(#[trigger] self@[id]).alive,
                order@ + reverse_creation_order(old(self)@, bound as int) == reverse_creation_order(
                    old(self)@,
                    old(self)@.len() as int,
                ),
            decreases bound,
        {
            let id = bound - 1;
            let ghost before = self@;
            assert(self@[id as int] == self.entities@[id as int]@);
            if self.entities[id].alive {
                let released = self.destroy(id);
                proof {
                    if released is Err {
                        let by = released->Err_0->by;
                        lemma_users_come_later(before, by as int, id as int);
                    }
                }
                order.push(id);
            }
            bound = id;
        }
        order
    }
}

} // verus!
