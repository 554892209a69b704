//! Blocks: what a level places on the field and how much damage it takes.

use vstd::prelude::*;
use crate::events::MatchEvent;
use crate::geometry::{Position, Vector3};
use crate::physics::{CollidableKind, Collision};
use crate::trigger::{
    BlockTrigger,
    BlockTriggerTarget,
    BlockTriggerTargetInactive,
    TriggerGroup,
    TriggerType,
};

verus! {

/// Durability class of a block.
#[derive(Debug, Clone, Copy, PartialEq, Eq, Structural)]
pub enum BlockType {
    Simple,
    Hardling,
    Concrete,
    Obstacle,
    SimpleTop,
}

/// What a block does while it waits to be hit. An evader carries its speed.
#[derive(Debug, Clone, Copy, PartialEq, Eq, Structural)]
pub enum BlockBehaviour {
    SittingDuck,
    Spinner,
    Vanisher,
    Repuslor,
    EvaderR(i32),
    EvaderL(i32),
    EvaderU(i32),
    EvaderD(i32),
}

/// A block that a level asks to be placed.
#[derive(Debug, Clone, Copy, PartialEq, Eq)]
pub struct Block {
    /// Centre of the block.
    pub position: Position,
    pub block_type: BlockType,
    pub behaviour: BlockBehaviour,
    /// The block's part in a trigger group, if it has one.
    pub trigger_type: Option<TriggerType>,
    pub trigger_group: Option<TriggerGroup>,
}

impl Default for Block {
    fn default() -> (block: Block)
        ensures
            block == (Block {
                position: Position { x: 0, y: 0 },
                block_type: BlockType::Simple,
                behaviour: BlockBehaviour::SittingDuck,
                trigger_type: None,
                trigger_group: None,
            }),
    {
        Block {
            position: Position { x: 0, y: 0 },
            block_type: BlockType::Simple,
            behaviour: BlockBehaviour::SittingDuck,
            trigger_type: None,
            trigger_group: None,
        }
    }
}

/// Marks a block that cannot be destroyed.
#[derive(Debug, Clone, Copy, PartialEq, Eq, Structural)]
pub struct Obstacle;

/// Damage that a block can still take.
#[derive(Debug, Clone, Copy, PartialEq, Eq, Structural)]
pub struct Hittable {
    pub hit_points: u8,
    pub original_hit_points: u8,
    /// Set when only a ball that comes from above damages the block.
    pub only_top: bool,
}

impl Default for Hittable {
    fn default() -> (hittable: Hittable)
        ensures
            hittable == (Hittable { hit_points: 1, original_hit_points: 1, only_top: false }),
    {
        return Hittable { hit_points: 1, original_hit_points: 1, only_top: false };
    }
}

/// What a block of the given class can take, or `None` for an obstacle,
/// which takes no damage at all.
pub open spec fn durability(block_type: BlockType) -> Option<Hittable> {
    match block_type {
        BlockType::Simple => Some(
            Hittable { hit_points: 1, original_hit_points: 1, only_top: false },
        ),
        BlockType::Hardling => Some(
            Hittable { hit_points: 2, original_hit_points: 2, only_top: false },
        ),
        BlockType::Concrete => Some(
            Hittable { hit_points: 3, original_hit_points: 3, only_top: false },
        ),
        BlockType::SimpleTop => Some(
            Hittable { hit_points: 1, original_hit_points: 1, only_top: true },
        ),
        BlockType::Obstacle => None,
    }
}

impl Hittable {
    /// The durability that a new block of the given class starts with.
    pub fn for_block_type(block_type: &BlockType) -> (hittable: Option<Hittable>)
        ensures
            hittable == durability(*block_type),
    {
        match block_type {
            BlockType::Simple => Some(
                Hittable { hit_points: 1, original_hit_points: 1, only_top: false },
            ),
            BlockType::Hardling => Some(
                Hittable { hit_points: 2, original_hit_points: 2, only_top: false },
            ),
            BlockType::Concrete => Some(
                Hittable { hit_points: 3, original_hit_points: 3, only_top: false },
            ),
            BlockType::SimpleTop => Some(
                Hittable { hit_points: 1, original_hit_points: 1, only_top: true },
            ),
            BlockType::Obstacle => None,
        }
    }

    /// Whether a ball damages the block, given whether it comes from above.
    pub open spec fn damaged_by(self, ball_above: bool) -> bool {
        !self.only_top || ball_above
    }

    /// Takes the hit of a ball. The block loses a hit point if the ball
    /// damages it, and is destroyed once it has none left. Returns whether
    /// it is destroyed.
    pub fn take_hit(&mut self, ball_above: bool) -> (destroyed: bool)
        requires
            old(self).damaged_by(ball_above) ==> old(self).hit_points > 0,
        ensures
            final(self).hit_points == if old(self).damaged_by(ball_above) {
                old(self).hit_points - 1
            } else {
                old(self).hit_points as int
            },
            final(self).original_hit_points == old(self).original_hit_points,
            final(self).only_top == old(self).only_top,
            destroyed == (final(self).hit_points == 0),
    {
        if self.only_top == true && ball_above || self.only_top == false {
            self.hit_points -= 1;
        }
        self.hit_points == 0
    }

    /// Number of hit points lost so far.
    pub fn damage(&self) -> (lost: u8)
        requires
            self.hit_points <= self.original_hit_points,
        ensures
            lost == self.original_hit_points - self.hit_points,
    {
        self.original_hit_points - self.hit_points
    }
}

/// How the physics treats a block.
#[derive(Debug, Clone, Copy, PartialEq, Eq, Structural)]
pub enum BlockBody {
    /// The block stays where it is.
    Fixed,
    /// The block moves, along the one axis of the field that its velocity
    /// names.
    Dynamic,
}

/// What a block does on the field.
#[derive(Debug, Clone, Copy, PartialEq, Eq, Structural)]
pub enum BlockMotion {
    Spinner,
    Vanisher,
    Repulsor,
    /// Moves with the given velocity until something is in the way.
    Evader(Vector3),
}

/// What a block is made of when it is put on the field.
#[derive(Debug, Clone, Copy, PartialEq, Eq)]
pub struct BlockParts {
    pub body: Option<BlockBody>,
    pub motion: Option<BlockMotion>,
    pub trigger: Option<BlockTrigger>,
    pub target: Option<BlockTriggerTarget>,
    pub inactive: Option<BlockTriggerTargetInactive>,
    pub hittable: Option<Hittable>,
    pub obstacle: Option<Obstacle>,
}

/// How a block of the given behaviour moves, if it does anything at all.
/// An evader moves along x to the right or to the left, or along z up,
/// which is towards negative z, or down.
pub open spec fn motion_of(behaviour: BlockBehaviour) -> Option<BlockMotion> {
    match behaviour {
        BlockBehaviour::SittingDuck => None,
        BlockBehaviour::Spinner => Some(BlockMotion::Spinner),
        BlockBehaviour::Vanisher => Some(BlockMotion::Vanisher),
        BlockBehaviour::Repuslor => Some(BlockMotion::Repulsor),
        BlockBehaviour::EvaderR(speed) => Some(
            BlockMotion::Evader(Vector3 { x: speed as i64, y: 0, z: 0 }),
        ),
        BlockBehaviour::EvaderL(speed) => Some(
            BlockMotion::Evader(Vector3 { x: (-speed) as i64, y: 0, z: 0 }),
        ),
        BlockBehaviour::EvaderU(speed) => Some(
            BlockMotion::Evader(Vector3 { x: 0, y: 0, z: (-speed) as i64 }),
        ),
        BlockBehaviour::EvaderD(speed) => Some(
            BlockMotion::Evader(Vector3 { x: 0, y: 0, z: speed as i64 }),
        ),
    }
}

/// The body of a block of the given behaviour: an evader's is dynamic, a
/// sitting duck has none, and every other is fixed.
pub open spec fn body_of(behaviour: BlockBehaviour) -> Option<BlockBody> {
    match motion_of(behaviour) {
        None => None,
        Some(BlockMotion::Evader(_)) => Some(BlockBody::Dynamic),
        Some(_) => Some(BlockBody::Fixed),
    }
}

/// The group of a block: zero where the block names none.
pub open spec fn group_of(block: Block) -> TriggerGroup {
    match block.trigger_group {
        None => 0,
        Some(group) => group,
    }
}

/// What a block is made of: its body and motion follow from its behaviour,
/// its durability from its class, and its part in its trigger group makes it
/// a trigger or a receiver, which is at rest if it starts inactive.
pub open spec fn block_parts(block: Block) -> BlockParts {
    BlockParts {
        body: body_of(block.behaviour),
        motion: motion_of(block.behaviour),
        trigger: match block.trigger_type {
            Some(TriggerType::Start) => Some(
                BlockTrigger { group: group_of(block), trigger_type: TriggerType::Start },
            ),
            Some(TriggerType::Stop) => Some(
                BlockTrigger { group: group_of(block), trigger_type: TriggerType::Stop },
            ),
            Some(TriggerType::StartStop) => Some(
                BlockTrigger { group: group_of(block), trigger_type: TriggerType::StartStop },
            ),
            _ => None,
        },
        target: match block.trigger_type {
            Some(TriggerType::ReceiverStartingInactive) => Some(
                BlockTriggerTarget { group: group_of(block), auto_stop: false },
            ),
            Some(TriggerType::ReceiverStartingActive) => Some(
                BlockTriggerTarget { group: group_of(block), auto_stop: false },
            ),
            _ => None,
        },
        inactive: match block.trigger_type {
            Some(TriggerType::ReceiverStartingInactive) => Some(BlockTriggerTargetInactive),
            _ => None,
        },
        hittable: durability(block.block_type),
        obstacle: if block.block_type is Obstacle {
            Some(Obstacle)
        } else {
            None
        },
    }
}

/// Decides what a block is made of when it is put on the field.
pub fn block_spawn(block: &Block) -> (parts: BlockParts)
    ensures
        parts == block_parts(*block),
{
    let mut parts = BlockParts {
        body: None,
        motion: None,
        trigger: None,
        target: None,
        inactive: None,
        hittable: None,
        obstacle: None,
    };

    let group: TriggerGroup = match &block.trigger_group {
        None => 0,
        Some(g) => *g,
    };

    match block.behaviour {
        BlockBehaviour::Spinner => {
            parts.motion = Some(BlockMotion::Spinner);
            parts.body = Some(BlockBody::Fixed);
        },
        BlockBehaviour::Vanisher => {
            parts.motion = Some(BlockMotion::Vanisher);
            parts.body = Some(BlockBody::Fixed);
        },
        BlockBehaviour::Repuslor => {
            parts.motion = Some(BlockMotion::Repulsor);
            parts.body = Some(BlockBody::Fixed);
        },
        BlockBehaviour::EvaderR(s) => {
            parts.motion = Some(BlockMotion::Evader(Vector3 { x: s as i64, y: 0, z: 0 }));
            parts.body = Some(BlockBody::Dynamic);
        },
        BlockBehaviour::EvaderL(s) => {
            parts.motion = Some(BlockMotion::Evader(Vector3 { x: -(s as i64), y: 0, z: 0 }));
            parts.body = Some(BlockBody::Dynamic);
        },
        BlockBehaviour::EvaderU(s) => {
            parts.motion = Some(BlockMotion::Evader(Vector3 { x: 0, y: 0, z: -(s as i64) }));
            parts.body = Some(BlockBody::Dynamic);
        },
        BlockBehaviour::EvaderD(s) => {
            parts.motion = Some(BlockMotion::Evader(Vector3 { x: 0, y: 0, z: s as i64 }));
            parts.body = Some(BlockBody::Dynamic);
        },
        _ => {},
    }

    match &block.trigger_type {
        None => {},
        Some(t) => match t {
            TriggerType::ReceiverStartingInactive => {
                parts.target = Some(BlockTriggerTarget { group, auto_stop: false });
                parts.inactive = Some(BlockTriggerTargetInactive);
            },
            TriggerType::ReceiverStartingActive => {
                parts.target = Some(BlockTriggerTarget { group, auto_stop: false });
            },
            _ => {
                parts.trigger = Some(BlockTrigger { group, trigger_type: *t });
            },
        },
    };

    match block.block_type {
        BlockType::Obstacle => {
            parts.obstacle = Some(Obstacle);
        },
        _ => {
            parts.hittable = Hittable::for_block_type(&block.block_type);
        },
    }
    parts
}

/// What follows from a contact of a block.
#[derive(Debug, Clone, Copy, PartialEq, Eq, Structural)]
pub enum BlockContact {
    /// The block is gone, and the match is told.
    Removed(MatchEvent),
    /// The block took a hit and shakes.
    Shaken,
    /// Nothing happens.
    Untouched,
}

/// What follows when something touches a block. The ball damages the block
/// if it can, and then destroys it or shakes it. A directional death trigger
/// that the block crosses along its normal takes the block away.
pub open spec fn block_contact(
    hittable: Hittable,
    block: Block,
    collision: Collision,
    ball_above: bool,
    crossing: bool,
) -> BlockContact {
    match collision.other {
        CollidableKind::Ball => if hittable.hit_points == if hittable.damaged_by(ball_above) {
            1u8
        } else {
            0u8
        } {
            BlockContact::Removed(
                MatchEvent::BlockHit(collision.pos, block.block_type, block.behaviour),
            )
        } else {
            BlockContact::Shaken
        },
        CollidableKind::DirectionalDeathTrigger(_) => if crossing {
            BlockContact::Removed(MatchEvent::BlockLost)
        } else {
            BlockContact::Untouched
        },
        _ => BlockContact::Untouched,
    }
}

/// Decides what follows from a contact of a block. `ball_above` tells
/// whether the other thing stands above the block, and `crossing` whether
/// the block moves along the normal of the trigger that it touched.
pub fn block_handle_collisions(
    hittable: &mut Hittable,
    block: &Block,
    collision: &Collision,
    ball_above: bool,
    crossing: bool,
) -> (contact: BlockContact)
    requires
        collision.other is Ball && old(hittable).damaged_by(ball_above) ==> old(
            hittable
        ).hit_points > 0,
    ensures
        contact == block_contact(*old(hittable), *block, *collision, ball_above, crossing),
        final(hittable).original_hit_points == old(hittable).original_hit_points,
        final(hittable).only_top == old(hittable).only_top,
        final(hittable).hit_points == if collision.other is Ball && old(hittable).damaged_by(
            ball_above,
        ) {
            old(hittable).hit_points - 1
        } else {
            old(hittable).hit_points as int
        },
{
    match collision.other {
        CollidableKind::Ball => {
            if hittable.take_hit(ball_above) {
                BlockContact::Removed(
                    MatchEvent::BlockHit(collision.pos, block.block_type, block.behaviour),
                )
            } else {
                BlockContact::Shaken
            }
        },
        CollidableKind::DirectionalDeathTrigger(_) => {
            if crossing {
                BlockContact::Removed(MatchEvent::BlockLost)
            } else {
                BlockContact::Untouched
            }
        },
        _ => BlockContact::Untouched,
    }
}

} // verus!
