use vstd::prelude::*;

use crate::color::Color;
use crate::draw_command::{sprite_command, DrawCommand, Sprite, Transform};
use crate::renderer::{Renderer, MAX_QUEUED};

verus! {

/// The part every game object shares: where it is, what it looks like, and
/// whether it takes part in updates and drawing.
#[derive(Clone, Copy, Debug, Default)]
pub struct Entity {
    pub transform: Transform,
    pub sprite: Sprite,
    pub is_active: bool,
    pub is_visible: bool,
}

/// A game object: the shared entity part plus data of the game's own.
#[derive(Clone, Debug)]
pub struct GameEntity<T> {
    pub entity: Entity,
    pub data: T,
}

/// Identifies an entity by the slot it occupies in its container.
#[derive(Clone, Copy, Debug, PartialEq, Eq, Structural, Hash)]
pub struct EntityId {
    pub index: usize,
}

/// Number of occupied slots.
pub open spec fn count_live<T>(slots: Seq<Option<GameEntity<T>>>) -> nat
    decreases slots.len(),
{
    if slots.len() == 0 {
        0
    } else {
        count_live(slots.drop_last()) + if slots.last() is Some {
            1nat
        } else {
            0nat
        }
    }
}

/// The commands that draw the visible entities among `slots`, in slot order,
/// each in opaque white.
pub open spec fn visible_commands<T>(slots: Seq<Option<GameEntity<T>>>) -> Seq<DrawCommand>
    decreases slots.len(),
{
    if slots.len() == 0 {
        seq![]
    } else {
        let rest = visible_commands(slots.drop_last());
        match slots.last() {
            Some(e) => if e.entity.is_visible {
                rest.push(
                    sprite_command(
                        e.entity.transform,
                        e.entity.sprite,
                        Color { r: 255, g: 255, b: 255, a: 255 },
                    ),
                )
            } else {
                rest
            },
            None => rest,
        }
    }
}

proof fn lemma_count_live_bounded<T>(slots: Seq<Option<GameEntity<T>>>)
    ensures
        count_live(slots) <= slots.len(),
    decreases slots.len(),
{
    if slots.len() > 0 {
        lemma_count_live_bounded(slots.drop_last());
    }
}

proof fn lemma_visible_bounded<T>(slots: Seq<Option<GameEntity<T>>>)
    ensures
        visible_commands(slots).len() <= count_live(slots),
    decreases slots.len(),
{
    if slots.len() > 0 {
        lemma_visible_bounded(slots.drop_last());
    }
}

proof fn lemma_count_live_update<T>(
    slots: Seq<Option<GameEntity<T>>>,
    i: int,
    x: Option<GameEntity<T>>,
)
    requires
        0 <= i < slots.len(),
    ensures
        count_live(slots.update(i, x)) + (if slots[i] is Some {
            1int
        } else {
            0int
        }) == count_live(slots) + (if x is Some {
            1int
        } else {
            0int
        }),
    decreases slots.len(),
{
    let u = slots.update(i, x);
    if i < slots.len() - 1 {
        assert(u.drop_last() =~= slots.drop_last().update(i, x));
        lemma_count_live_update(slots.drop_last(), i, x);
    } else {
        assert(u.drop_last() =~= slots.drop_last());
    }
}

/// A collection of entities of one kind, kept in slots that are reused after
/// their entity is destroyed.
pub struct EntityContainer<T> {
    entities: Vec<Option<GameEntity<T>>>,
    vacant: Vec<usize>,
    live: usize,
}

impl<T> EntityContainer<T> {
    /// The slots, each holding an entity or vacant.
    pub closed spec fn slots(&self) -> Seq<Option<GameEntity<T>>> {
        self.entities@
    }

    /// The vacated slots that creation reuses, the last one first.
    pub closed spec fn reusable(&self) -> Seq<usize> {
        self.vacant@
    }

    pub closed spec fn wf(&self) -> bool {
        &&& self.live == count_live(self.entities@)
        &&& self.vacant@.no_duplicates()
        &&& forall|k: int|
            0 <= k < self.vacant@.len() ==> {
                &&& #[trigger] self.vacant@[k] < self.entities@.len()
                &&& self.entities@[self.vacant@[k] as int] is None
            }
    }

    /// An empty container.
    pub fn new() -> (r: Self)
        ensures
            r.wf(),
            r.slots() == Seq::<Option<GameEntity<T>>>::empty(),
            r.reusable() == Seq::<usize>::empty(),
    {
        EntityContainer { entities: Vec::new(), vacant: Vec::new(), live: 0 }
    }

    /// Number of entities alive in the container.
    pub fn len(&self) -> (r: usize)
        requires
            self.wf(),
        ensures
            r == count_live(self.slots()),
    {
        self.live
    }

    /// The entity in `entity_id`'s slot, if that slot is occupied.
    pub fn get(&self, entity_id: EntityId) -> (r: Option<&GameEntity<T>>)
        requires
            entity_id.index < self.slots().len(),
        ensures
            r is Some <==> self.slots()[entity_id.index as int] is Some,
            r is Some ==> *r.unwrap() == self.slots()[entity_id.index as int].unwrap(),
    {
        self.entities[entity_id.index].as_ref()
    }

    /// Mutable access to the entity in `entity_id`'s slot, if that slot is
    /// occupied. The slot stays occupied by whatever the caller leaves there.
    pub fn get_mut(&mut self, entity_id: EntityId) -> (r: Option<&mut GameEntity<T>>)
        requires
            old(self).wf(),
            entity_id.index < old(self).slots().len(),
        ensures
            r is Some <==> old(self).slots()[entity_id.index as int] is Some,
            r is None ==> final(self).slots() == old(self).slots(),
            final(self).reusable() == old(self).reusable(),
            final(self).wf(),
            r is Some ==> {
                &&& *r.unwrap() == old(self).slots()[entity_id.index as int].unwrap()
                &&& final(self).slots() == old(self).slots().update(
                    entity_id.index as int,
                    Some(*final(r.unwrap())),
                )
            },
    {
        let i = entity_id.index;
        proof {
            assert forall|x: Option<GameEntity<T>>| x is Some && self.entities@[i as int] is Some
                implies #[trigger] count_live(self.entities@.update(i as int, x)) == count_live(self.entities@) by {
                lemma_count_live_update(self.entities@, i as int, x);
            }
            assert(self.entities@.update(i as int, self.entities@[i as int]) =~= self.entities@);
        }
        let slot = &mut self.entities[i];
        slot.as_mut()
    }

    /// Adds a visible, active entity with the given transform, sprite and data.
    /// It takes the most recently vacated slot, or a new slot at the end when
    /// none is vacant.
    pub fn create_entity(&mut self, transform: Transform, sprite: Sprite, data: T) -> (r: EntityId)
        requires
            old(self).wf(),
            old(self).slots().len() < usize::MAX,
        ensures
            final(self).wf(),
            ({
                let e = GameEntity {
                    entity: Entity { transform, sprite, is_active: true, is_visible: true },
                    data,
                };
                if old(self).reusable().len() > 0 {
                    &&& r.index == old(self).reusable().last()
                    &&& final(self).slots() == old(self).slots().update(r.index as int, Some(e))
                    &&& final(self).reusable() == old(self).reusable().drop_last()
                } else {
                    &&& r.index == old(self).slots().len()
                    &&& final(self).slots() == old(self).slots().push(Some(e))
                    &&& final(self).reusable() == old(self).reusable()
                }
            }),
            count_live(final(self).slots()) == count_live(old(self).slots()) + 1,
    {
        let e = GameEntity {
            entity: Entity { transform, sprite, is_active: true, is_visible: true },
            data,
        };
        proof {
            lemma_count_live_bounded(self.entities@);
        }
        match self.vacant.pop() {
            Some(index) => {
                proof {
                    let k = self.vacant@.len() as int;
                    assert(old(self).vacant@[k] == index);
                    lemma_count_live_update(self.entities@, index as int, Some(e));
                    assert forall|j: int| 0 <= j < self.vacant@.len() implies #[trigger] self.vacant@[j] != index by {
                        assert(old(self).vacant@[j] == self.vacant@[j]);
                    }
                }
                self.entities.set(index, Some(e));
                self.live = self.live + 1;
                proof {
                    assert forall|k: int| 0 <= k < self.vacant@.len() implies {
                        &&& #[trigger] self.vacant@[k] < self.entities@.len()
                        &&& self.entities@[self.vacant@[k] as int] is None
                    } by {
                        assert(old(self).vacant@[k] == self.vacant@[k]);
                    }
                    assert(self.vacant@ =~= old(self).vacant@.drop_last());
                }
                EntityId { index }
            },
            None => {
                let index = self.entities.len();
                self.entities.push(Some(e));
                self.live = self.live + 1;
                proof {
                    assert(self.entities@.drop_last() =~= old(self).entities@);
                    assert forall|k: int| 0 <= k < self.vacant@.len() implies {
                        &&& #[trigger] self.vacant@[k] < self.entities@.len()
                        &&& self.entities@[self.vacant@[k] as int] is None
                    } by {}
                }
                EntityId { index }
            },
        }
    }

    /// Removes the entity in `entity_id`'s slot, which must be occupied, and
    /// makes the slot the next one to be reused.
    pub fn destroy_entity(&mut self, entity_id: EntityId)
        requires
            old(self).wf(),
            entity_id.index < old(self).slots().len(),
            old(self).slots()[entity_id.index as int] is Some,
        ensures
            final(self).wf(),
            final(self).slots() == old(self).slots().update(entity_id.index as int, None),
            final(self).reusable() == old(self).reusable().push(entity_id.index),
            count_live(final(self).slots()) + 1 == count_live(old(self).slots()),
    {
        let index = entity_id.index;
        proof {
            lemma_count_live_update(self.entities@, index as int, None);
            assert forall|k: int| 0 <= k < self.vacant@.len() implies #[trigger] self.vacant@[k] != index by {}
        }
        self.entities.set(index, None);
        self.live = self.live - 1;
        self.vacant.push(index);
        proof {
            assert forall|k: int| 0 <= k < self.vacant@.len() implies {
                &&& #[trigger] self.vacant@[k] < self.entities@.len()
                &&& self.entities@[self.vacant@[k] as int] is None
            } by {
                if k < old(self).vacant@.len() {
                    assert(old(self).vacant@[k] == self.vacant@[k]);
                }
            }
            assert(self.vacant@.no_duplicates()) by {
                assert forall|a: int, b: int|
                    0 <= a < self.vacant@.len() && 0 <= b < self.vacant@.len() && a != b
                    implies self.vacant@[a] != self.vacant@[b] by {
                    if a < old(self).vacant@.len() && b < old(self).vacant@.len() {
                        assert(old(self).vacant@[a] == self.vacant@[a]);
                        assert(old(self).vacant@[b] == self.vacant@[b]);
                    } else if a < old(self).vacant@.len() {
                        assert(old(self).vacant@[a] == self.vacant@[a]);
                    } else {
                        assert(old(self).vacant@[b] == self.vacant@[b]);
                    }
                }
            }
        }
    }

    /// Queues a white sprite draw for every visible entity, in slot order.
    pub fn render(&self, renderer: &mut Renderer)
        requires
            self.wf(),
            old(renderer).wf(),
            old(renderer).queued().len() + count_live(self.slots()) <= MAX_QUEUED,
        ensures
            final(renderer).wf(),
            final(renderer).queued() == old(renderer).queued() + visible_commands(self.slots()),
            final(renderer).program() == old(renderer).program(),
            final(renderer).texture() == old(renderer).texture(),
    {
        let n = self.entities.len();
        let mut i: usize = 0;
        proof {
            assert(self.entities@.take(0) =~= Seq::<Option<GameEntity<T>>>::empty());
            assert(old(renderer).queued() + visible_commands(self.entities@.take(0)) =~= old(renderer).queued());
        }
        while i < n
            invariant
                n == self.entities@.len(),
                i <= n,
                self.wf(),
                renderer.wf(),
                renderer.queued() == old(renderer).queued() + visible_commands(self.entities@.take(i as int)),
                renderer.program() == old(renderer).program(),
                renderer.texture() == old(renderer).texture(),
                old(renderer).queued().len() + count_live(self.entities@) <= MAX_QUEUED,
            decreases n - i,
        {
            let ghost prefix = self.entities@.take(i as int + 1);
            proof {
                assert(prefix.drop_last() =~= self.entities@.take(i as int));
                assert(prefix.last() == self.entities@[i as int]);
                lemma_visible_bounded(prefix);
                lemma_count_live_prefix(self.entities@, i as int + 1);
            }
            match &self.entities[i] {
                Some(e) => {
                    if e.entity.is_visible {
                        let white = Color::white();
                        renderer.queue_draw_sprite(&e.entity.transform, &e.entity.sprite, white);
                    }
                },
                None => {},
            }
            proof {
                assert(renderer.queued() =~= old(renderer).queued() + visible_commands(prefix));
            }
            i = i + 1;
        }
        proof {
            assert(self.entities@.take(n as int) =~= self.entities@);
        }
    }
}

proof fn lemma_count_live_prefix<T>(slots: Seq<Option<GameEntity<T>>>, k: int)
    requires
        0 <= k <= slots.len(),
    ensures
        count_live(slots.take(k)) <= count_live(slots),
    decreases slots.len() - k,
{
    if k < slots.len() {
        lemma_count_live_prefix(slots, k + 1);
        assert(slots.take(k + 1).drop_last() =~= slots.take(k));
    } else {
        assert(slots.take(k) =~= slots);
    }
}

} // verus!
