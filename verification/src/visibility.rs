//! Visibility of the entities of the scene, clip by clip.
//!
//! All clips live in one scene. A camera that belongs to a clip must see
//! what belongs to that clip and nothing else. Every clip has a visibility
//! scope of its own, and every entity is tagged with the scope of the clip
//! it belongs to, which is its nearest ancestor that is a clip. What a
//! camera sees is narrowed down to the entities in the camera's own scope.

use vstd::prelude::*;
use vstd::set_lib::{lemma_int_range, lemma_len_subset, set_int_range};
use crate::entity::EntityId;
use crate::error::ErrorKind;

verus! {

/// The tag of an entity: the clip it belongs to, and the visibility scope
/// of that clip.
#[derive(Clone, Copy, Debug, PartialEq, Eq, Structural)]
pub struct ClipEntity {
    pub clip: EntityId,
    pub scope: usize,
}

/// What the scene knows of one entity.
#[derive(Clone, Copy, Debug, PartialEq, Eq, Structural)]
pub struct SceneNode {
    /// The entity this one hangs under, if any.
    pub parent: Option<EntityId>,
    /// The visibility scope of the clip, where the entity is a clip.
    pub clip_scope: Option<usize>,
    /// Whether the entity is a camera.
    pub is_camera: bool,
    /// The clip the entity belongs to, once that was looked up and found.
    pub clip_entity: Option<ClipEntity>,
    /// Whether the entity is new: it became a camera, or got a parent, and
    /// nobody has looked at it since.
    pub added: bool,
    /// Whether the entity belongs to a clip that a layer has selected.
    pub selected: bool,
}

/// The entities of the scene. An entity is named by its position here.
#[derive(Debug)]
pub struct Scene {
    pub nodes: Vec<SceneNode>,
}

/// The parent of an entity. An entity that the scene does not know has none.
pub open spec fn parent_of(nodes: Seq<SceneNode>, entity: EntityId) -> Option<EntityId> {
    if entity.index < nodes.len() {
        nodes[entity.index as int].parent
    } else {
        None
    }
}

/// Whether an entity is a clip.
pub open spec fn is_clip(nodes: Seq<SceneNode>, entity: EntityId) -> bool {
    entity.index < nodes.len() && nodes[entity.index as int].clip_scope.is_some()
}

/// The visibility scope of a clip.
pub open spec fn scope_of(nodes: Seq<SceneNode>, clip: EntityId) -> usize
    recommends
        is_clip(nodes, clip),
{
    nodes[clip.index as int].clip_scope.unwrap()
}

/// Whether every clip of the scene has a visibility scope of its own.
pub open spec fn scopes_are_unique(nodes: Seq<SceneNode>) -> bool {
    forall|i: int, j: int|
        0 <= i < nodes.len() && 0 <= j < nodes.len() && i != j && (#[trigger] nodes[i]).clip_scope.is_some()
            ==> nodes[i].clip_scope != (#[trigger] nodes[j]).clip_scope
}

/// The tag of an entity, if it has one.
pub open spec fn tag_of(nodes: Seq<SceneNode>, entity: EntityId) -> Option<ClipEntity> {
    if entity.index < nodes.len() {
        nodes[entity.index as int].clip_entity
    } else {
        None
    }
}

/// How the search for the clip of an entity ended.
#[derive(Clone, Copy, Debug, PartialEq, Eq, Structural)]
pub enum ClipSearch {
    /// The nearest ancestor that is a clip.
    Found(EntityId),
    /// The chain of parents ended and no clip was on it.
    NoClip,
    /// The search went up as many steps as it may and the chain of parents
    /// went on.
    GaveUp,
}

impl ClipSearch {
    /// The clip that was found, if one was.
    pub open spec fn spec_clip(self) -> Option<EntityId> {
        match self {
            ClipSearch::Found(clip) => Some(clip),
            _ => None,
        }
    }

    /// The clip that was found, if one was.
    pub fn clip(&self) -> (clip: Option<EntityId>)
        ensures
            clip == self.spec_clip(),
    {
        match self {
            ClipSearch::Found(clip) => Some(*clip),
            _ => None,
        }
    }

    /// What is wrong, if anything: a search that gave up has met parents
    /// that run in a circle, so the scene breaks its own rules.
    pub fn diagnostic(&self) -> (kind: Option<ErrorKind>)
        ensures
            kind == if self == ClipSearch::GaveUp {
                Some(ErrorKind::Consistency)
            } else {
                None
            },
    {
        match self {
            ClipSearch::GaveUp => Some(ErrorKind::Consistency),
            _ => None,
        }
    }
}

/// The search for the nearest clip among the ancestors of an entity, going
/// up at most `steps` parents. It gives up where there is a parent left to
/// look at and no step left to take.
pub open spec fn clip_search(nodes: Seq<SceneNode>, entity: EntityId, steps: nat) -> ClipSearch
    decreases steps,
{
    match parent_of(nodes, entity) {
        None => ClipSearch::NoClip,
        Some(parent) => if steps == 0 {
            ClipSearch::GaveUp
        } else if is_clip(nodes, parent) {
            ClipSearch::Found(parent)
        } else {
            clip_search(nodes, parent, (steps - 1) as nat)
        },
    }
}

/// The ancestor of an entity that is `distance` parents up, where the chain
/// of parents is that long. The entity is its own ancestor at distance zero.
pub open spec fn ancestor_at(nodes: Seq<SceneNode>, entity: EntityId, distance: nat) -> Option<
    EntityId,
>
    decreases distance,
{
    if distance == 0 {
        Some(entity)
    } else {
        match parent_of(nodes, entity) {
            None => None,
            Some(parent) => ancestor_at(nodes, parent, (distance - 1) as nat),
        }
    }
}

/// The clip an entity belongs to: its nearest ancestor that is a clip. The
/// search goes up as many steps as the scene has entities, so that it ends
/// even where the parents run in a circle. It gives up in such a circle
/// only, and the entity then belongs to no clip.
pub open spec fn parent_clip(nodes: Seq<SceneNode>, entity: EntityId) -> Option<EntityId> {
    clip_search(nodes, entity, nodes.len()).spec_clip()
}

/// Whether two scenes have the same shape: the same entities, the same
/// parents and the same clips.
pub open spec fn same_shape(a: Seq<SceneNode>, b: Seq<SceneNode>) -> bool {
    &&& a.len() == b.len()
    &&& forall|i: int|
        0 <= i < a.len() ==> (#[trigger] a[i]).parent == b[i].parent && a[i].clip_scope
            == b[i].clip_scope
}

/// The clip an entity belongs to depends on the shape of the scene alone.
pub proof fn lemma_clip_search_of_shape(
    a: Seq<SceneNode>,
    b: Seq<SceneNode>,
    entity: EntityId,
    steps: nat,
)
    requires
        same_shape(a, b),
    ensures
        clip_search(a, entity, steps) == clip_search(b, entity, steps),
    decreases steps,
{
    if entity.index < a.len() {
        assert(a[entity.index as int].parent == b[entity.index as int].parent);
    }
    match parent_of(a, entity) {
        None => {},
        Some(parent) => {
            if parent.index < a.len() {
                assert(a[parent.index as int].clip_scope == b[parent.index as int].clip_scope);
            }
            if steps > 0 {
                lemma_clip_search_of_shape(a, b, parent, (steps - 1) as nat);
            }
        },
    }
}

/// Searches for the clip an entity belongs to, and says how the search
/// ended. The walk up the parents is bounded by the size of the scene.
pub fn search_parent_clip(target: EntityId, scene: &Scene) -> (found: ClipSearch)
    ensures
        found == clip_search(scene.nodes@, target, scene.nodes@.len()),
{
    let n: usize = scene.nodes.len();
    let mut current: EntityId = target;
    let mut steps: usize = 0;
    loop
        invariant
            steps <= n,
            n == scene.nodes@.len(),
            clip_search(scene.nodes@, target, n as nat) == clip_search(
                scene.nodes@,
                current,
                (n - steps) as nat,
            ),
        decreases n - steps,
    {
        if current.index >= n {
            return ClipSearch::NoClip;
        }
        match scene.nodes[current.index].parent {
            None => {
                return ClipSearch::NoClip;
            },
            Some(parent) => {
                if steps == n {
                    return ClipSearch::GaveUp;
                }
                if parent.index < n && scene.nodes[parent.index].clip_scope.is_some() {
                    return ClipSearch::Found(parent);
                }
                current = parent;
                steps = steps + 1;
            },
        }
    }
}

/// Finds the clip an entity belongs to. Where the search gives up, the
/// entity belongs to no clip.
pub fn find_parent_clip(target: EntityId, scene: &Scene) -> (found: Option<EntityId>)
    ensures
        found == parent_clip(scene.nodes@, target),
{
    search_parent_clip(target, scene).clip()
}

/// What a search finds is a clip, and an ancestor of the entity it began
/// at, at most as many parents up as the search had steps.
pub proof fn lemma_found_is_ancestor(nodes: Seq<SceneNode>, entity: EntityId, steps: nat)
    requires
        clip_search(nodes, entity, steps) is Found,
    ensures
        is_clip(nodes, clip_search(nodes, entity, steps)->Found_0),
        exists|distance: nat|
            1 <= distance <= steps && #[trigger] ancestor_at(nodes, entity, distance) == Some(
                clip_search(nodes, entity, steps)->Found_0,
            ),
    decreases steps,
{
    let parent: EntityId = parent_of(nodes, entity).unwrap();
    if is_clip(nodes, parent) {
        assert(ancestor_at(nodes, parent, 0) == Some(parent));
        assert(ancestor_at(nodes, entity, 1) == Some(parent));
    } else {
        lemma_found_is_ancestor(nodes, parent, (steps - 1) as nat);
        let found: EntityId = clip_search(nodes, entity, steps)->Found_0;
        let up: nat = choose|distance: nat|
            1 <= distance <= steps - 1 && #[trigger] ancestor_at(nodes, parent, distance) == Some(
                found,
            );
        assert(ancestor_at(nodes, entity, up + 1) == Some(found));
    }
}

/// Where a search gives up, the entity has an ancestor at every distance up
/// to one more than the search had steps, each of them known to the scene.
proof fn lemma_gave_up_chain(nodes: Seq<SceneNode>, entity: EntityId, steps: nat, distance: nat)
    requires
        clip_search(nodes, entity, steps) == ClipSearch::GaveUp,
        distance <= steps,
    ensures
        ancestor_at(nodes, entity, distance).is_some(),
        ancestor_at(nodes, entity, distance).unwrap().index < nodes.len(),
    decreases steps,
{
    if distance > 0 {
        let parent: EntityId = parent_of(nodes, entity).unwrap();
        lemma_gave_up_chain(nodes, parent, (steps - 1) as nat, (distance - 1) as nat);
    }
}

/// The search for the clip of an entity gives up only where the parents run
/// in a circle: two of the ancestors of the entity, at different distances,
/// are then one and the same.
pub proof fn lemma_gave_up_means_circle(nodes: Seq<SceneNode>, entity: EntityId)
    requires
        clip_search(nodes, entity, nodes.len()) == ClipSearch::GaveUp,
    ensures
        exists|near: nat, far: nat|
            near < far <= nodes.len() && #[trigger] ancestor_at(nodes, entity, near)
                == #[trigger] ancestor_at(nodes, entity, far),
{
    let n: nat = nodes.len();
    let chain: Seq<int> = Seq::new(
        n + 1,
        |k: int| ancestor_at(nodes, entity, k as nat).unwrap().index as int,
    );
    assert forall|k: int| 0 <= k <= n implies 0 <= #[trigger] chain[k] < n by {
        lemma_gave_up_chain(nodes, entity, n, k as nat);
    }
    if chain.no_duplicates() {
        chain.unique_seq_to_set();
        lemma_int_range(0, n as int);
        assert(chain.to_set().subset_of(set_int_range(0, n as int))) by {
            assert forall|x: int| chain.to_set().contains(x) implies set_int_range(
                0,
                n as int,
            ).contains(x) by {
                let k: int = choose|k: int| 0 <= k < chain.len() && chain[k] == x;
                assert(0 <= chain[k] < n);
            }
        }
        lemma_len_subset(chain.to_set(), set_int_range(0, n as int));
        assert(false);
    }
    let (i, j): (int, int) = choose|i: int, j: int|
        0 <= i < chain.len() && 0 <= j < chain.len() && i != j && chain[i] == chain[j];
    let near: nat = (if i < j { i } else { j }) as nat;
    let far: nat = (if i < j { j } else { i }) as nat;
    lemma_gave_up_chain(nodes, entity, n, near);
    lemma_gave_up_chain(nodes, entity, n, far);
    assert(chain[near as int] == chain[far as int]);
    assert(ancestor_at(nodes, entity, near).unwrap() == ancestor_at(nodes, entity, far).unwrap());
}

/// Whether the tagging looks at an entity: it is new, it has no tag yet,
/// and it is a camera or hangs under a parent.
pub open spec fn wants_tag(node: SceneNode) -> bool {
    node.added && node.clip_entity.is_none() && (node.is_camera || node.parent.is_some())
}

/// The tag that goes with the outcome of a search: the clip that was found
/// and its scope, or nothing.
pub open spec fn tag_for(nodes: Seq<SceneNode>, found: Option<EntityId>) -> Option<ClipEntity> {
    match found {
        Some(clip) => if is_clip(nodes, clip) {
            Some(ClipEntity { clip, scope: scope_of(nodes, clip) })
        } else {
            None
        },
        None => None,
    }
}

/// An entity after the tagging: if the tagging looks at it, it carries the
/// tag of the clip it belongs to, where there is one; and it is new no
/// longer.
pub open spec fn tagged_node(nodes: Seq<SceneNode>, i: int) -> SceneNode {
    SceneNode {
        clip_entity: if wants_tag(nodes[i]) {
            tag_for(nodes, parent_clip(nodes, EntityId { index: i as usize }))
        } else {
            nodes[i].clip_entity
        },
        added: false,
        ..nodes[i]
    }
}

/// Tags every new camera and every entity with a new parent with the clip
/// it belongs to and the scope of that clip. An entity under no clip stays
/// without a tag. A tag that was given once is not looked at again.
pub fn add_clip_camera_component_system(scene: &mut Scene)
    ensures
        final(scene).nodes@.len() == old(scene).nodes@.len(),
        forall|i: int|
            0 <= i < old(scene).nodes@.len() ==> #[trigger] final(scene).nodes@[i] == tagged_node(
                old(scene).nodes@,
                i,
            ),
{
    let n: usize = scene.nodes.len();
    let mut i: usize = 0;
    while i < n
        invariant
            i <= n,
            n == scene.nodes@.len(),
            n == old(scene).nodes@.len(),
            same_shape(scene.nodes@, old(scene).nodes@),
            forall|k: int| i <= k < n ==> scene.nodes@[k] == old(scene).nodes@[k],
            forall|k: int|
                0 <= k < i ==> #[trigger] scene.nodes@[k] == tagged_node(old(scene).nodes@, k),
        decreases n - i,
    {
        let node: SceneNode = scene.nodes[i];
        let mut tag: Option<ClipEntity> = node.clip_entity;
        if node.added && node.clip_entity.is_none() && (node.is_camera || node.parent.is_some()) {
            proof {
                lemma_clip_search_of_shape(
                    scene.nodes@,
                    old(scene).nodes@,
                    EntityId { index: i },
                    n as nat,
                );
            }
            tag = match find_parent_clip(EntityId { index: i }, scene) {
                Some(clip) => {
                    if clip.index < n {
                        match scene.nodes[clip.index].clip_scope {
                            Some(scope) => Some(ClipEntity { clip, scope }),
                            None => None,
                        }
                    } else {
                        None
                    }
                },
                None => None,
            };
        }
        scene.nodes[i] = SceneNode { clip_entity: tag, added: false, ..node };
        i = i + 1;
    }
}

/// What a camera sees.
#[derive(Debug)]
pub struct VisibleEntities {
    /// The camera.
    pub camera: EntityId,
    /// The entities the camera sees, in drawing order.
    pub entities: Vec<EntityId>,
}

/// The visibility scope that an entity is tagged with, if it is tagged.
pub open spec fn tagged_scope(nodes: Seq<SceneNode>, entity: EntityId) -> Option<usize> {
    match tag_of(nodes, entity) {
        Some(tag) => Some(tag.scope),
        None => None,
    }
}

/// Whether an entity is tagged with the given scope.
pub open spec fn in_scope(nodes: Seq<SceneNode>, scope: usize, entity: EntityId) -> bool {
    tagged_scope(nodes, entity) == Some(scope)
}

/// What a camera sees after the narrowing. A camera with a tag sees the
/// entities in its own scope, in the order it saw them before. A camera
/// without a tag belongs to no clip and sees what it saw.
pub open spec fn narrowed(nodes: Seq<SceneNode>, camera: EntityId, entities: Seq<EntityId>) -> Seq<
    EntityId,
> {
    match tagged_scope(nodes, camera) {
        Some(scope) => entities.filter(|entity: EntityId| in_scope(nodes, scope, entity)),
        None => entities,
    }
}

/// Keeps of a list of entities those that are tagged with the given scope.
fn retain_scope(scene: &Scene, scope: usize, entities: &Vec<EntityId>) -> (kept: Vec<EntityId>)
    ensures
        kept@ == entities@.filter(|entity: EntityId| in_scope(scene.nodes@, scope, entity)),
{
    let ghost keep = |entity: EntityId| in_scope(scene.nodes@, scope, entity);
    let mut kept: Vec<EntityId> = Vec::new();
    let n: usize = entities.len();
    let mut i: usize = 0;
    proof {
        reveal(Seq::filter);
        assert(entities@.take(0) =~= Seq::<EntityId>::empty());
    }
    while i < n
        invariant
            i <= n,
            n == entities@.len(),
            keep == |entity: EntityId| in_scope(scene.nodes@, scope, entity),
            kept@ == entities@.take(i as int).filter(keep),
        decreases n - i,
    {
        let entity: EntityId = entities[i];
        let tagged: bool = entity.index < scene.nodes.len() && match scene.nodes[entity.index].clip_entity {
            Some(tag) => tag.scope == scope,
            None => false,
        };
        proof {
            reveal(Seq::filter);
            let longer: Seq<EntityId> = entities@.take(i as int + 1);
            assert(longer.drop_last() =~= entities@.take(i as int));
            assert(longer.last() == entity);
            assert(tagged == keep(entity));
        }
        if tagged {
            kept.push(entity);
        }
        i = i + 1;
    }
    assert(entities@.take(n as int) =~= entities@);
    kept
}

/// Narrows what every camera sees down to the scope of the camera. This
/// comes after it was worked out what each camera could see at all, and
/// before anything is drawn.
pub fn clip_visibility_system(scene: &Scene, cameras: &mut Vec<VisibleEntities>)
    ensures
        final(cameras)@.len() == old(cameras)@.len(),
        forall|c: int|
            0 <= c < old(cameras)@.len() ==> {
                &&& (#[trigger] final(cameras)@[c]).camera == old(cameras)@[c].camera
                &&& final(cameras)@[c].entities@ == narrowed(
                    scene.nodes@,
                    old(cameras)@[c].camera,
                    old(cameras)@[c].entities@,
                )
            },
{
    let n: usize = cameras.len();
    let mut c: usize = 0;
    while c < n
        invariant
            c <= n,
            n == cameras@.len(),
            n == old(cameras)@.len(),
            forall|k: int| c <= k < n ==> cameras@[k] == old(cameras)@[k],
            forall|k: int|
                0 <= k < c ==> {
                    &&& (#[trigger] cameras@[k]).camera == old(cameras)@[k].camera
                    &&& cameras@[k].entities@ == narrowed(
                        scene.nodes@,
                        old(cameras)@[k].camera,
                        old(cameras)@[k].entities@,
                    )
                },
        decreases n - c,
    {
        let camera: EntityId = cameras[c].camera;
        if camera.index < scene.nodes.len() {
            match scene.nodes[camera.index].clip_entity {
                Some(tag) => {
                    let kept: Vec<EntityId> = retain_scope(scene, tag.scope, &cameras[c].entities);
                    cameras[c].entities = kept;
                },
                None => {},
            }
        }
        c = c + 1;
    }
}

/// A camera with a tag never sees an entity in another scope or without a
/// tag, whatever it could see before the narrowing; what it still sees, it
/// saw before; and what it saw of its own scope, it still sees.
pub proof fn lemma_other_scope_is_hidden(
    nodes: Seq<SceneNode>,
    camera: EntityId,
    entities: Seq<EntityId>,
    entity: EntityId,
)
    requires
        tagged_scope(nodes, camera).is_some(),
    ensures
        tagged_scope(nodes, entity) != tagged_scope(nodes, camera) ==> !narrowed(
            nodes,
            camera,
            entities,
        ).contains(entity),
        narrowed(nodes, camera, entities).contains(entity) ==> entities.contains(entity),
        entities.contains(entity) && tagged_scope(nodes, entity) == tagged_scope(nodes, camera)
            ==> narrowed(nodes, camera, entities).contains(entity),
{
    let scope: usize = tagged_scope(nodes, camera).unwrap();
    let keep = |e: EntityId| in_scope(nodes, scope, e);
    let kept: Seq<EntityId> = entities.filter(keep);
    assert(narrowed(nodes, camera, entities) == kept);
    if kept.contains(entity) {
        let at: int = choose|at: int| 0 <= at < kept.len() && kept[at] == entity;
        entities.lemma_filter_pred(keep, at);
        entities.lemma_filter_contains_rev(keep, entity);
    }
    if entities.contains(entity) && tagged_scope(nodes, entity) == tagged_scope(nodes, camera) {
        let at: int = choose|at: int| 0 <= at < entities.len() && entities[at] == entity;
        assert(keep(entities[at]));
        entities.lemma_filter_contains(keep, at);
    }
}

/// A camera under one clip never sees an entity under another clip: in a
/// scene whose clips have scopes of their own, once both are tagged, the
/// entity is not among what the camera sees after the narrowing, whatever
/// the camera could see before.
pub proof fn lemma_clips_are_isolated(
    before: Seq<SceneNode>,
    camera: EntityId,
    entity: EntityId,
    entities: Seq<EntityId>,
)
    requires
        scopes_are_unique(before),
        camera.index < before.len(),
        entity.index < before.len(),
        wants_tag(before[camera.index as int]),
        wants_tag(before[entity.index as int]),
        parent_clip(before, camera).is_some(),
        parent_clip(before, entity).is_some(),
        parent_clip(before, camera) != parent_clip(before, entity),
    ensures
        !narrowed(
            Seq::new(before.len(), |i: int| tagged_node(before, i)),
            camera,
            entities,
        ).contains(entity),
{
    let after: Seq<SceneNode> = Seq::new(before.len(), |i: int| tagged_node(before, i));
    let own: EntityId = parent_clip(before, camera).unwrap();
    let other: EntityId = parent_clip(before, entity).unwrap();
    lemma_found_is_ancestor(before, camera, before.len());
    lemma_found_is_ancestor(before, entity, before.len());
    assert(before[own.index as int].clip_scope.is_some());
    assert(before[other.index as int].clip_scope.is_some());
    assert(own.index != other.index);
    assert(scope_of(before, own) != scope_of(before, other));
    assert(after[camera.index as int] == tagged_node(before, camera.index as int));
    assert(after[entity.index as int] == tagged_node(before, entity.index as int));
    assert(EntityId { index: camera.index as int as usize } == camera);
    assert(EntityId { index: entity.index as int as usize } == entity);
    lemma_other_scope_is_hidden(after, camera, entities, entity);
}

} // verus!
