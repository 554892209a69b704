//! Levels: what a level is made of, which level is being played, and where
//! a level's pickups wait.

use vstd::prelude::*;
use crate::block::{Block, BlockBehaviour, BlockType};
use crate::config::{ARENA_WIDTH_H, BLOCK_GAP, BLOCK_WIDTH, POSITION_UNITS};
use crate::geometry::{Position, Vector3};
use crate::layout::{
    generate_block_grid,
    grid_blocks,
    grid_positions,
    grid_rows,
    interpret_grid,
    rows_cell_count,
    MAX_GRID_SIDE,
};
use crate::match_state::{MatchModel, MatchState};
use crate::pickup_map::{no_pickups, pickup_entries, PickupMap};
use crate::pickups::PickupType;
use crate::random::draw_position;

verus! {

/// How a level lists its blocks.
#[derive(Debug, PartialEq, Eq)]
pub enum TargetLayout {
    /// Columns, rows, class and behaviour of every block, and the gap.
    FilledGrid(usize, usize, BlockType, BlockBehaviour, i32),
    /// A layout text and the gap.
    SparseGrid(String, i32),
    /// The name of a layout that the game builds by its own rules.
    Custom(String),
}

/// Something that stands in the arena besides blocks.
#[derive(Debug, Clone, Copy, PartialEq, Eq, Structural)]
pub enum LevelObstacle {
    /// Centre, width, height.
    Box(Vector3, i64, i64),
    /// Centre, normal, width, and whether the normal flips when the field
    /// is turned in place.
    ForceField(Vector3, Vector3, i64, bool),
    /// Centre, normal, width.
    DirectionalDeathTrigger(Vector3, Vector3, i64),
}

/// When a level counts as won.
#[derive(Debug, Clone, Copy, PartialEq, Eq, Structural)]
pub enum WinCriteria {
    /// Share of the level's blocks, in percent, that the player must have
    /// hit once none is left.
    BlockHitPercentage(u8),
}

/// One level of the game.
pub struct LevelDefinition {
    pub background_asset: String,
    /// Speed at which the background scrolls, in hundredths of a world unit
    /// per second.
    pub background_scroll_velocity: i32,
    /// Number of balls that may be in play at once.
    pub simultaneous_balls: i32,
    pub win_criteria: WinCriteria,
    pub targets: TargetLayout,
    /// Time allowed for the level, in milliseconds.
    pub time_limit: Option<u64>,
    /// Pickups to spread over the level's blocks.
    pub global_pickups: Vec<PickupType>,
    /// For a count of remaining blocks, the pickup released when a block is
    /// hit at that count.
    pub distributed_global_pickups: PickupMap,
    pub obstacles: Vec<LevelObstacle>,
    pub default_wall_l: bool,
    pub default_wall_r: bool,
}

/// Number of draws made for a pickup before it is given up.
pub const PLACEMENT_ATTEMPTS: usize = 10;

/// Progress of spreading pickups over the counts `0..block_count`: the
/// window from which the next position is drawn, the positions taken, and
/// how far down the list of pickups the spreading has come.
pub struct PickupPlacement {
    pub placed: Vec<usize>,
    pub start: usize,
    pub end: usize,
    pub block_count: usize,
    /// Index of the pickup for which the next position is drawn.
    pub next: usize,
    /// Number of positions drawn for that pickup and refused.
    pub tries: usize,
    /// Number of pickups given up.
    pub dropped: usize,
}

/// Mathematical value of a spreading in progress: where the pickups wait so
/// far, and the progress of the placement.
pub struct Spreading {
    /// The pickup of each count that holds one.
    pub entries: Map<usize, PickupType>,
    /// The counts taken, in the order in which they were taken.
    pub placed: Seq<usize>,
    /// The window from which positions are drawn, `start..end`.
    pub start: int,
    pub end: int,
    /// Index of the pickup for which the next position is drawn.
    pub next: nat,
    /// Number of positions drawn for that pickup and refused.
    pub tries: nat,
    /// Number of pickups given up.
    pub dropped: nat,
}

impl Spreading {
    /// The start of spreading pickups over `block_count` counts: no pickup
    /// waits anywhere, and every count can be drawn.
    pub open spec fn begin(block_count: usize) -> Spreading {
        Spreading {
            entries: Map::empty(),
            placed: Seq::empty(),
            start: 0,
            end: block_count as int,
            next: 0,
            tries: 0,
            dropped: 0,
        }
    }

    /// Whether `pos` lies in the window.
    pub open spec fn in_window(self, pos: usize) -> bool {
        self.start <= pos < self.end
    }

    /// Whether a pickup can be put at `pos`: the position lies in the
    /// window and is not taken.
    pub open spec fn accepts(self, pos: usize) -> bool {
        self.in_window(pos) && !self.placed.contains(pos)
    }

    /// The window after `pos` has been taken: it starts at `pos`, unless
    /// `pos` is the last count, which leaves the start and ends the window
    /// behind itself.
    pub open spec fn narrowed(self, block_count: usize, pos: usize) -> (int, int) {
        if pos == block_count - 1 {
            (self.start, pos + 1)
        } else {
            (pos as int, self.end)
        }
    }

    /// The spreading after the position `pos` has been drawn. The position
    /// is for the pickup whose turn it is. If it can be put there, it is,
    /// the window narrows, and the turn passes on. If not, the draw is
    /// refused; the tenth refusal gives the pickup up and passes the turn
    /// on. Once every pickup has had its turn, a draw changes nothing.
    pub open spec fn draw(
        self,
        pickups: Seq<PickupType>,
        block_count: usize,
        pos: usize,
    ) -> Spreading {
        if self.next >= pickups.len() {
            self
        } else if self.accepts(pos) {
            Spreading {
                entries: self.entries.insert(pos, pickups[self.next as int]),
                placed: self.placed.push(pos),
                start: self.narrowed(block_count, pos).0,
                end: self.narrowed(block_count, pos).1,
                next: self.next + 1,
                tries: 0,
                dropped: self.dropped,
            }
        } else if self.tries + 1 >= PLACEMENT_ATTEMPTS {
            Spreading { next: self.next + 1, tries: 0, dropped: self.dropped + 1, ..self }
        } else {
            Spreading { tries: self.tries + 1, ..self }
        }
    }

    /// The spreading of `pickups` over `block_count` counts after the
    /// positions `draws` have been drawn, first to last.
    pub open spec fn after(
        pickups: Seq<PickupType>,
        block_count: usize,
        draws: Seq<usize>,
    ) -> Spreading
        decreases draws.len(),
    {
        if draws.len() == 0 {
            Spreading::begin(block_count)
        } else {
            Spreading::after(pickups, block_count, draws.drop_last()).draw(
                pickups,
                block_count,
                draws.last(),
            )
        }
    }

    /// Whether each of `draws` was made for a pickup and from the window as
    /// it stood when the position was drawn.
    pub open spec fn well_drawn(
        pickups: Seq<PickupType>,
        block_count: usize,
        draws: Seq<usize>,
    ) -> bool
        decreases draws.len(),
    {
        if draws.len() == 0 {
            true
        } else {
            let before = Spreading::after(pickups, block_count, draws.drop_last());
            &&& Spreading::well_drawn(pickups, block_count, draws.drop_last())
            &&& before.next < pickups.len()
            &&& before.in_window(draws.last())
        }
    }

    /// Number of pickups that wait nowhere: those given up, and those whose
    /// turn has not come.
    pub open spec fn left_out(self, pickups: Seq<PickupType>) -> int {
        pickups.len() - self.next + self.dropped
    }

    /// A spreading in good order: the window lies within the counts and is
    /// empty only where there are none, the counts taken lie within the
    /// counts and none is taken twice, exactly the counts taken hold a
    /// pickup, and of the pickups that have had their turn each was placed
    /// or given up.
    pub open spec fn wf(self, pickups: Seq<PickupType>, block_count: usize) -> bool {
        &&& 0 <= self.start <= self.end <= block_count
        &&& block_count > 0 ==> self.start < self.end
        &&& self.next <= pickups.len()
        &&& self.tries < PLACEMENT_ATTEMPTS
        &&& self.placed.len() + self.dropped == self.next
        &&& self.placed.no_duplicates()
        &&& forall|i: int| 0 <= i < self.placed.len() ==> self.placed[i] < block_count
        &&& forall|count: usize|
            self.entries.contains_key(count) <==> self.placed.contains(count)
        &&& forall|count: usize|
            #![trigger self.entries.contains_key(count)]
            self.entries.contains_key(count) ==> exists|i: int|
                0 <= i < self.next && self.entries[count] == #[trigger] pickups[i]
    }
}

/// A draw leaves a spreading in good order.
pub proof fn lemma_draw_keeps_order(
    state: Spreading,
    pickups: Seq<PickupType>,
    block_count: usize,
    pos: usize,
)
    requires
        state.wf(pickups, block_count),
    ensures
        state.draw(pickups, block_count, pos).wf(pickups, block_count),
{
    let drawn = state.draw(pickups, block_count, pos);
    if state.next < pickups.len() && state.accepts(pos) {
        let before = state.placed;
        let now = drawn.placed;
        assert forall|i: int, j: int| 0 <= i < j < now.len() implies now[i] != now[j] by {
            if j == before.len() {
                assert(before.contains(before[i]));
            }
        }
        assert forall|count: usize|
            drawn.entries.contains_key(count) <==> now.contains(count) by {
            if count == pos {
                assert(now[before.len() as int] == pos);
            } else if before.contains(count) {
                let at = choose|at: int| 0 <= at < before.len() && before[at] == count;
                assert(now[at] == count);
            } else if now.contains(count) {
                let at = choose|at: int| 0 <= at < now.len() && now[at] == count;
                assert(before[at] == count);
            }
        }
        assert forall|count: usize|
            #![trigger drawn.entries.contains_key(count)]
            drawn.entries.contains_key(count) implies exists|i: int|
            0 <= i < drawn.next && drawn.entries[count] == #[trigger] pickups[i] by {
            if count == pos {
                assert(drawn.entries[count] == pickups[state.next as int]);
            } else {
                assert(state.entries.contains_key(count));
                let i = choose|i: int|
                    0 <= i < state.next && state.entries[count] == #[trigger] pickups[i];
                assert(drawn.entries[count] == pickups[i]);
            }
        }
    } else if state.next < pickups.len() {
        assert forall|count: usize|
            #![trigger drawn.entries.contains_key(count)]
            drawn.entries.contains_key(count) implies exists|i: int|
            0 <= i < drawn.next && drawn.entries[count] == #[trigger] pickups[i] by {
            let i = choose|i: int|
                0 <= i < state.next && state.entries[count] == #[trigger] pickups[i];
            assert(drawn.entries[count] == pickups[i]);
        }
    }
}

/// Whatever is drawn, the spreading stays in good order: no count holds a
/// pickup but one of the level's that has had its turn, no count outside
/// `0..block_count` holds any, and as many counts hold one as pickups were
/// placed. The first position drawn, if it is a count at all, is where the
/// first pickup waits.
pub proof fn law_spreading_in_good_order(
    pickups: Seq<PickupType>,
    block_count: usize,
    draws: Seq<usize>,
)
    ensures
        Spreading::after(pickups, block_count, draws).wf(pickups, block_count),
        pickups.len() > 0 && draws.len() > 0 && draws[0] < block_count ==> {
            let end = Spreading::after(pickups, block_count, draws);
            &&& end.placed.len() > 0
            &&& end.placed[0] == draws[0]
            &&& end.entries.contains_key(draws[0])
            &&& end.entries[draws[0]] == pickups[0]
        },
    decreases draws.len(),
{
    if draws.len() > 0 {
        let front = draws.drop_last();
        let before = Spreading::after(pickups, block_count, front);
        let end = Spreading::after(pickups, block_count, draws);
        law_spreading_in_good_order(pickups, block_count, front);
        lemma_draw_keeps_order(before, pickups, block_count, draws.last());
        if pickups.len() > 0 && draws[0] < block_count {
            if front.len() == 0 {
                assert(before == Spreading::begin(block_count));
                assert(before.accepts(draws[0]));
                assert(end.placed[0] == draws[0]);
            } else {
                assert(front[0] == draws[0]);
                assert(before.placed.contains(before.placed[0]));
                assert(end.placed[0] == before.placed[0]);
            }
        }
    } else {
        assert(Spreading::begin(block_count).entries.dom() =~= Set::<usize>::empty());
    }
}

/// A pickup is given up only after ten positions in a row were drawn for it
/// and refused: a refused draw that is not the tenth leaves the turn where
/// it is, and the tenth passes it on with one more pickup given up.
pub proof fn law_ten_draws_before_giving_up(
    state: Spreading,
    pickups: Seq<PickupType>,
    block_count: usize,
    pos: usize,
)
    requires
        state.next < pickups.len(),
        !state.accepts(pos),
    ensures
        state.tries + 1 < PLACEMENT_ATTEMPTS ==> state.draw(pickups, block_count, pos) == (
        Spreading { tries: state.tries + 1, ..state }),
        state.tries + 1 >= PLACEMENT_ATTEMPTS ==> state.draw(pickups, block_count, pos) == (
        Spreading { next: state.next + 1, tries: 0, dropped: state.dropped + 1, ..state }),
{
}

impl PickupPlacement {
    /// The window lies within the counts, and so does every position taken.
    /// The window is empty only where there are no counts. Fewer draws are
    /// refused than give a pickup up, and no more pickups are given up than
    /// have had their turn.
    pub open spec fn wf(&self) -> bool {
        &&& self.start <= self.end <= self.block_count
        &&& self.block_count > 0 ==> self.start < self.end
        &&& forall|i: int| 0 <= i < self.placed@.len() ==> self.placed@[i] < self.block_count
        &&& self.tries < PLACEMENT_ATTEMPTS
        &&& self.dropped <= self.next
    }

    /// Whether `pos` is still free.
    pub open spec fn accepts(&self, pos: usize) -> bool {
        !self.placed@.contains(pos)
    }

    /// The start of spreading pickups over `block_count` counts: nothing is
    /// taken, every count can be drawn, and the first pickup has its turn.
    pub fn new(block_count: usize) -> (placement: PickupPlacement)
        ensures
            placement.wf(),
            placement.placed@ == Seq::<usize>::empty(),
            placement.start == 0,
            placement.end == block_count,
            placement.block_count == block_count,
            placement.next == 0,
            placement.tries == 0,
            placement.dropped == 0,
    {
        PickupPlacement {
            placed: Vec::new(),
            start: 0,
            end: block_count,
            block_count,
            next: 0,
            tries: 0,
            dropped: 0,
        }
    }

    /// Tells whether `pos` has been taken.
    pub fn is_taken(&self, pos: usize) -> (taken: bool)
        ensures
            taken == !self.accepts(pos),
    {
        let mut at: usize = 0;
        while at < self.placed.len()
            invariant
                at <= self.placed.len(),
                forall|i: int| 0 <= i < at ==> self.placed@[i] != pos,
            decreases self.placed.len() - at,
        {
            if self.placed[at] == pos {
                return true;
            }
            at += 1;
        }
        false
    }

    /// Decides on a position drawn from the window. A position already
    /// taken is refused and nothing changes. A free one is taken, and the
    /// window shrinks: it starts at the position from then on, unless the
    /// position is the last count, which leaves the start and ends the
    /// window behind itself. Whose turn it is does not change.
    pub fn offer(&mut self, pos: usize) -> (taken: bool)
        requires
            old(self).wf(),
            old(self).start <= pos < old(self).end,
        ensures
            taken == old(self).accepts(pos),
            final(self).wf(),
            final(self).block_count == old(self).block_count,
            final(self).next == old(self).next,
            final(self).tries == old(self).tries,
            final(self).dropped == old(self).dropped,
            !taken ==> *final(self) == *old(self),
            taken ==> final(self).placed@ == old(self).placed@.push(pos),
            taken && pos == old(self).block_count - 1 ==> final(self).start == old(self).start,
            taken && pos == old(self).block_count - 1 ==> final(self).end == pos + 1,
            taken && pos != old(self).block_count - 1 ==> final(self).start == pos,
            taken && pos != old(self).block_count - 1 ==> final(self).end == old(self).end,
    {
        if self.is_taken(pos) {
            false
        } else {
            if pos == self.block_count - 1 {
                self.end = pos + 1;
            } else {
                self.start = pos;
            }
            self.placed.push(pos);
            true
        }
    }
}

impl Default for LevelDefinition {
    fn default() -> (level: LevelDefinition)
        ensures
            level.background_asset@ == "ship3_003.glb#Scene10"@,
            level.background_scroll_velocity == 0,
            level.simultaneous_balls == 1,
            level.win_criteria == WinCriteria::BlockHitPercentage(100),
            level.targets == TargetLayout::FilledGrid(
                5,
                5,
                BlockType::Simple,
                BlockBehaviour::SittingDuck,
                BLOCK_GAP,
            ),
            level.time_limit is None,
            level.global_pickups@.len() == 0,
            level.pickups() == no_pickups(),
            level.obstacles@.len() == 0,
            level.default_wall_l,
            level.default_wall_r,
    {
        return LevelDefinition {
            background_asset: "ship3_003.glb#Scene10".to_owned(),
            background_scroll_velocity: 0,
            simultaneous_balls: 1,
            win_criteria: WinCriteria::BlockHitPercentage(100),
            targets: TargetLayout::FilledGrid(
                5,
                5,
                BlockType::Simple,
                BlockBehaviour::SittingDuck,
                BLOCK_GAP,
            ),
            time_limit: None,
            global_pickups: Vec::new(),
            distributed_global_pickups: PickupMap::new(),
            obstacles: Vec::new(),
            default_wall_l: true,
            default_wall_r: true,
        };
    }
}

impl LevelDefinition {
    /// Where the level's pickups wait: the pickup of each count of remaining
    /// blocks that has one.
    pub open spec fn pickups(&self) -> Map<usize, PickupType> {
        pickup_entries(self.distributed_global_pickups)
    }

    /// Whether `other` is this level but for where its pickups wait.
    pub open spec fn same_but_pickups(&self, other: &LevelDefinition) -> bool {
        &&& self.background_asset == other.background_asset
        &&& self.background_scroll_velocity == other.background_scroll_velocity
        &&& self.simultaneous_balls == other.simultaneous_balls
        &&& self.win_criteria == other.win_criteria
        &&& self.targets == other.targets
        &&& self.time_limit == other.time_limit
        &&& self.global_pickups == other.global_pickups
        &&& self.obstacles == other.obstacles
        &&& self.default_wall_l == other.default_wall_l
        &&& self.default_wall_r == other.default_wall_r
    }

    /// The spreading that the level and a placement in progress show.
    pub open spec fn spreading(&self, placement: &PickupPlacement) -> Spreading {
        Spreading {
            entries: self.pickups(),
            placed: placement.placed@,
            start: placement.start as int,
            end: placement.end as int,
            next: placement.next as nat,
            tries: placement.tries as nat,
            dropped: placement.dropped as nat,
        }
    }

    /// Whether the pickups wait where the positions `draws`, drawn one
    /// after the other, put them, with `left_out` pickups placed nowhere.
    /// Each position was drawn for a pickup and from the window as it then
    /// stood, and positions were drawn until every pickup had been placed
    /// or given up. Where there is no count to draw from, nothing is drawn
    /// and every pickup is left out.
    pub open spec fn spread_by(
        &self,
        block_count: usize,
        draws: Seq<usize>,
        left_out: usize,
    ) -> bool {
        let end = Spreading::after(self.global_pickups@, block_count, draws);
        &&& Spreading::well_drawn(self.global_pickups@, block_count, draws)
        &&& block_count > 0 ==> end.next == self.global_pickups@.len()
        &&& self.pickups() == end.entries
        &&& left_out == end.left_out(self.global_pickups@)
    }

    /// What holds of where the pickups wait once they have been spread over
    /// the counts below `block_count` by positions drawn at random: they
    /// wait where some run of draws puts them.
    pub open spec fn pickups_spread(&self, block_count: usize, left_out: usize) -> bool {
        exists|draws: Seq<usize>| self.spread_by(block_count, draws, left_out)
    }

    /// The pickup that is released when a block is hit while
    /// `remaining_block_count` blocks remain, if one waits there.
    pub fn pickup_at(&self, remaining_block_count: usize) -> (pickup: Option<&PickupType>)
        ensures
            pickup == if self.pickups().contains_key(remaining_block_count) {
                Some(&self.pickups()[remaining_block_count])
            } else {
                None
            },
    {
        self.distributed_global_pickups.get(&remaining_block_count)
    }

    /// Takes every pickup from where it waits.
    pub fn clear_pickups(&mut self)
        ensures
            final(self).pickups() == no_pickups(),
            final(self).same_but_pickups(old(self)),
    {
        self.distributed_global_pickups.clear();
    }

    /// Takes the position `pos`, drawn for the pickup whose turn it is. The
    /// pickup is put there if the position lies in the window and is free.
    /// If not, the draw is refused, and the tenth refusal gives the pickup
    /// up. Once every pickup has had its turn, nothing changes.
    pub fn take_draw(&mut self, placement: &mut PickupPlacement, pos: usize)
        requires
            old(placement).wf(),
        ensures
            final(placement).wf(),
            final(placement).block_count == old(placement).block_count,
            final(self).same_but_pickups(old(self)),
            final(self).spreading(final(placement)) == old(self).spreading(old(placement)).draw(
                old(self).global_pickups@,
                old(placement).block_count,
                pos,
            ),
    {
        if placement.next >= self.global_pickups.len() {
            return ;
        }
        let pickup: PickupType = self.global_pickups[placement.next];
        let mut placed = false;
        if placement.start <= pos && pos < placement.end {
            placed = self.place_pickup(placement, pos, pickup);
        }
        if placed {
            placement.next += 1;
            placement.tries = 0;
        } else if placement.tries + 1 >= PLACEMENT_ATTEMPTS {
            placement.next += 1;
            placement.tries = 0;
            placement.dropped += 1;
        } else {
            placement.tries += 1;
        }
    }

    /// Spreads the level's pickups over the counts of remaining blocks
    /// below `block_count`, taking the positions of `draws` one after the
    /// other in place of positions drawn at random. Returns the number of
    /// pickups that wait nowhere in the end: those given up after ten
    /// refused draws, and those for which no position was left in `draws`.
    pub fn distribute_drawn_pickups(&mut self, block_count: usize, draws: &Vec<usize>) -> (left_out:
        usize)
        ensures
            final(self).same_but_pickups(old(self)),
            final(self).pickups() == Spreading::after(
                old(self).global_pickups@,
                block_count,
                draws@,
            ).entries,
            left_out == Spreading::after(
                old(self).global_pickups@,
                block_count,
                draws@,
            ).left_out(old(self).global_pickups@),
    {
        self.distributed_global_pickups.clear();
        let mut placement = PickupPlacement::new(block_count);
        let ghost pickups = self.global_pickups@;
        let mut at: usize = 0;
        assert(draws@.take(0) =~= Seq::<usize>::empty());
        while at < draws.len()
            invariant
                at <= draws.len(),
                self.same_but_pickups(old(self)),
                pickups == self.global_pickups@,
                placement.wf(),
                placement.block_count == block_count,
                placement.next <= pickups.len(),
                self.spreading(&placement) == Spreading::after(
                    pickups,
                    block_count,
                    draws@.take(at as int),
                ),
            decreases draws.len() - at,
        {
            assert(draws@.take(at + 1).drop_last() =~= draws@.take(at as int));
            self.take_draw(&mut placement, draws[at]);
            at += 1;
        }
        assert(draws@.take(at as int) =~= draws@);
        self.global_pickups.len() - placement.next + placement.dropped
    }

    /// Spreads the level's pickups over the counts of remaining blocks
    /// below `block_count`, each at a count drawn at random from a window
    /// that shrinks as pickups are placed. A pickup whose draw falls on a
    /// taken count is drawn for again, ten times at most, and then given up.
    /// With no count to draw from, nothing is drawn and every pickup is left
    /// out. Returns the number of pickups left out.
    ///
    /// Whatever is drawn, the pickups wait in the end where
    /// `distribute_drawn_pickups` puts them for the positions drawn.
    pub fn distribute_global_pickups(&mut self, block_count: usize) -> (left_out: usize)
        ensures
            final(self).same_but_pickups(old(self)),
            final(self).pickups_spread(block_count, left_out),
    {
        self.distributed_global_pickups.clear();
        let mut placement = PickupPlacement::new(block_count);
        let ghost pickups = self.global_pickups@;
        let ghost mut draws: Seq<usize> = Seq::empty();
        if block_count == 0 {
            assert(self.spread_by(block_count, draws, self.global_pickups.len()));
            return self.global_pickups.len();
        }
        while placement.next < self.global_pickups.len()
            invariant
                self.same_but_pickups(old(self)),
                pickups == self.global_pickups@,
                placement.wf(),
                placement.block_count == block_count,
                block_count > 0,
                placement.next <= pickups.len(),
                Spreading::well_drawn(pickups, block_count, draws),
                self.spreading(&placement) == Spreading::after(pickups, block_count, draws),
            decreases pickups.len() - placement.next, PLACEMENT_ATTEMPTS - placement.tries,
        {
            let pos: usize = draw_position(placement.start, placement.end);
            proof {
                assert(draws.push(pos).drop_last() =~= draws);
                draws = draws.push(pos);
            }
            self.take_draw(&mut placement, pos);
        }
        assert(self.spread_by(block_count, draws, placement.dropped));
        placement.dropped
    }

    /// Puts `pickup` at the position `pos` drawn for it, if the position is
    /// free. Returns whether it was.
    pub fn place_pickup(
        &mut self,
        placement: &mut PickupPlacement,
        pos: usize,
        pickup: PickupType,
    ) -> (placed: bool)
        requires
            old(placement).wf(),
            old(placement).start <= pos < old(placement).end,
        ensures
            placed == old(placement).accepts(pos),
            final(placement).wf(),
            final(placement).block_count == old(placement).block_count,
            final(placement).next == old(placement).next,
            final(placement).tries == old(placement).tries,
            final(placement).dropped == old(placement).dropped,
            final(self).same_but_pickups(old(self)),
            !placed ==> *final(placement) == *old(placement),
            !placed ==> final(self).pickups() == old(self).pickups(),
            placed ==> final(placement).placed@ == old(placement).placed@.push(pos),
            placed ==> final(self).pickups() == old(self).pickups().insert(pos, pickup),
            placed && pos == old(placement).block_count - 1 ==> final(placement).start
                == old(placement).start,
            placed && pos == old(placement).block_count - 1 ==> final(placement).end == pos + 1,
            placed && pos != old(placement).block_count - 1 ==> final(placement).start == pos,
            placed && pos != old(placement).block_count - 1 ==> final(placement).end
                == old(placement).end,
    {
        if placement.offer(pos) {
            self.distributed_global_pickups.insert(pos, pickup);
            true
        } else {
            false
        }
    }
}

/// The first of a run of positions drawn from the window is a count.
proof fn lemma_first_draw_is_a_count(
    pickups: Seq<PickupType>,
    block_count: usize,
    draws: Seq<usize>,
)
    requires
        Spreading::well_drawn(pickups, block_count, draws),
        draws.len() > 0,
    ensures
        draws[0] < block_count,
    decreases draws.len(),
{
    let front = draws.drop_last();
    if front.len() > 0 {
        lemma_first_draw_is_a_count(pickups, block_count, front);
        assert(front[0] == draws[0]);
    }
}

/// Where pickups were spread by positions drawn at random, they wait in
/// good order: no count outside `0..block_count` holds a pickup, none holds
/// one that is not the level's, and no more pickups are left out than the
/// level has. Where there is a count to draw from, the level's first pickup
/// waits somewhere. Where there is none, every pickup is left out.
pub proof fn law_spread_pickups_are_in_order(
    level: LevelDefinition,
    block_count: usize,
    left_out: usize,
)
    requires
        level.pickups_spread(block_count, left_out),
    ensures
        forall|count: usize|
            #![trigger level.pickups().contains_key(count)]
            level.pickups().contains_key(count) ==> count < block_count
                && level.global_pickups@.contains(level.pickups()[count]),
        left_out <= level.global_pickups@.len(),
        block_count > 0 && level.global_pickups@.len() > 0 ==> exists|count: usize|
            level.pickups().contains_key(count) && level.pickups()[count]
                == level.global_pickups@[0],
        block_count == 0 ==> level.pickups() == no_pickups() && left_out
            == level.global_pickups@.len(),
{
    let pickups = level.global_pickups@;
    let draws = choose|draws: Seq<usize>| level.spread_by(block_count, draws, left_out);
    let end = Spreading::after(pickups, block_count, draws);
    law_spreading_in_good_order(pickups, block_count, draws);
    assert forall|count: usize|
        #![trigger level.pickups().contains_key(count)]
        level.pickups().contains_key(count) implies count < block_count && pickups.contains(
        level.pickups()[count],
    ) by {
        assert(end.placed.contains(count));
        let i = choose|i: int| 0 <= i < end.next && end.entries[count] == #[trigger] pickups[i];
    }
    if block_count > 0 && pickups.len() > 0 {
        lemma_first_draw_is_a_count(pickups, block_count, draws);
        assert(level.pickups().contains_key(draws[0]));
    }
    if block_count == 0 {
        assert forall|count: usize| !level.pickups().contains_key(count) by {
            if level.pickups().contains_key(count) {
                assert(end.placed.contains(count));
            }
        }
        assert(level.pickups() =~= no_pickups());
        lemma_nothing_placed_without_counts(pickups, draws);
    }
}

/// Without a count to draw from, nothing is drawn.
proof fn lemma_nothing_placed_without_counts(pickups: Seq<PickupType>, draws: Seq<usize>)
    requires
        Spreading::well_drawn(pickups, 0, draws),
    ensures
        draws.len() == 0,
    decreases draws.len(),
{
    if draws.len() > 0 {
        law_spreading_in_good_order(pickups, 0, draws.drop_last());
    }
}

/// The block of the given class and behaviour at `position`, with no part
/// in any trigger group.
pub open spec fn plain_block(
    position: Position,
    block_type: BlockType,
    behaviour: BlockBehaviour,
) -> Block {
    Block { position, block_type, behaviour, trigger_type: None, trigger_group: None }
}

/// The blocks of a grid filled with blocks of one class and behaviour.
pub open spec fn filled_grid_blocks(
    cols: int,
    rows: int,
    block_type: BlockType,
    behaviour: BlockBehaviour,
    gap: int,
) -> Seq<Block> {
    grid_positions(rows, cols, gap).map_values(
        |position: Position| plain_block(position, block_type, behaviour),
    )
}

/// Builds the blocks of a grid of `cols` columns and `rows` rows, all of
/// one class and behaviour.
pub fn make_filled_grid(
    cols: usize,
    rows: usize,
    block_type: &BlockType,
    behaviour: &BlockBehaviour,
    gap: i32,
) -> (blocks: Vec<Block>)
    requires
        rows <= MAX_GRID_SIDE,
        cols <= MAX_GRID_SIDE,
    ensures
        blocks@ == filled_grid_blocks(
            cols as int,
            rows as int,
            *block_type,
            *behaviour,
            gap as int,
        ),
        blocks@.len() == rows * cols,
{
    let positions = generate_block_grid(rows, cols, gap);
    let mut blocks: Vec<Block> = Vec::new();
    let ghost all = filled_grid_blocks(
        cols as int,
        rows as int,
        *block_type,
        *behaviour,
        gap as int,
    );

    let mut at: usize = 0;
    while at < positions.len()
        invariant
            at <= positions.len(),
            positions@ == grid_positions(rows as int, cols as int, gap as int),
            all == filled_grid_blocks(
                cols as int,
                rows as int,
                *block_type,
                *behaviour,
                gap as int,
            ),
            blocks@ == all.take(at as int),
        decreases positions.len() - at,
    {
        blocks.push(
            Block {
                position: positions[at],
                behaviour: *behaviour,
                block_type: *block_type,
                trigger_type: None,
                trigger_group: None,
            },
        );
        at += 1;
        assert(blocks@ =~= all.take(at as int));
    }
    assert(all.take(positions.len() as int) =~= all);
    blocks
}

/// Number of blocks that the player has to clear: all but the obstacles.
pub open spec fn target_count(blocks: Seq<Block>) -> nat
    decreases blocks.len(),
{
    if blocks.len() == 0 {
        0
    } else {
        target_count(blocks.drop_last()) + if blocks.last().block_type is Obstacle {
            0nat
        } else {
            1nat
        }
    }
}

/// There are no more targets than blocks.
pub proof fn lemma_target_count_bound(blocks: Seq<Block>)
    ensures
        target_count(blocks) <= blocks.len(),
    decreases blocks.len(),
{
    if blocks.len() > 0 {
        lemma_target_count_bound(blocks.drop_last());
    }
}

/// Counts the blocks that the player has to clear.
pub fn count_targets(blocks: &Vec<Block>) -> (count: usize)
    ensures
        count == target_count(blocks@),
{
    let mut count: usize = 0;
    let mut at: usize = 0;
    while at < blocks.len()
        invariant
            at <= blocks.len(),
            count == target_count(blocks@.take(at as int)),
            count <= at,
        decreases blocks.len() - at,
    {
        assert(blocks@.take(at + 1).drop_last() =~= blocks@.take(at as int));
        match blocks[at].block_type {
            BlockType::Obstacle => {},
            _ => {
                count += 1;
            },
        }
        at += 1;
    }
    assert(blocks@.take(blocks.len() as int) =~= blocks@);
    count
}

/// The blocks that a layout text describes, or none where it holds no
/// cell.
pub open spec fn layout_blocks(layout: Seq<char>, gap: int) -> Seq<Block> {
    if rows_cell_count(grid_rows(layout)) == 0 {
        Seq::empty()
    } else {
        grid_blocks(layout, gap)
    }
}

/// Builds the blocks of a layout text and counts those that the player has
/// to clear. A text without a cell gives no blocks.
pub fn make_grid_from_string_layout(layout: &String, gap: i32) -> (made: (Vec<Block>, i32))
    requires
        layout@.len() <= MAX_GRID_SIDE,
    ensures
        made.0@ == layout_blocks(layout@, gap as int),
        made.1 == target_count(made.0@),
{
    if let Some(res) = interpret_grid(layout, gap) {
        proof {
            crate::layout::lemma_block_count_bound(layout@, gap as int);
            lemma_target_count_bound(res@);
        }
        let count = count_targets(&res);
        return (res, count as i32);
    }
    (Vec::new(), 0)
}

/// The blocks of the conveyor level: two that evade to the left, entering
/// from beyond the right wall, and below them two that evade to the right,
/// entering from beyond the left wall.
pub open spec fn conveyor_blocks() -> Seq<Block> {
    seq![
        plain_block(
            Position { x: 20600, y: -5000i64 },
            BlockType::Simple,
            BlockBehaviour::EvaderL(CONVEYOR_SPEED),
        ),
        plain_block(
            Position { x: 27000, y: -5000i64 },
            BlockType::Simple,
            BlockBehaviour::EvaderL(CONVEYOR_SPEED),
        ),
        plain_block(
            Position { x: -20600i64, y: -7000i64 },
            BlockType::Simple,
            BlockBehaviour::EvaderR(CONVEYOR_SPEED),
        ),
        plain_block(
            Position { x: -27000i64, y: -7000i64 },
            BlockType::Simple,
            BlockBehaviour::EvaderR(CONVEYOR_SPEED),
        ),
    ]
}

/// Speed of the blocks of the conveyor level.
pub const CONVEYOR_SPEED: i32 = 1000;

/// Number of blocks in each row of the conveyor level.
pub const CONVEYOR_ROW: usize = 2;

/// Name of the conveyor level among the custom layouts.
pub open spec fn conveyor_name() -> Seq<char> {
    "Conveyor"@
}

/// Sets up the conveyor level: builds its blocks, takes the level's pickups
/// from where they wait, and tells the match how many blocks there are.
pub fn level_span_conveyor(stats: &mut MatchState, level: &mut LevelDefinition) -> (blocks: Vec<
    Block,
>)
    ensures
        blocks@ == conveyor_blocks(),
        final(level).same_but_pickups(old(level)),
        final(level).pickups() == no_pickups(),
        final(stats)@ == (MatchModel { blocks: 4, ..old(stats)@ }),
{
    let speed: i32 = CONVEYOR_SPEED;
    let count_per_row: usize = CONVEYOR_ROW;
    let mut blocks: Vec<Block> = Vec::new();
    let pitch: i64 = POSITION_UNITS * (2 * BLOCK_WIDTH + BLOCK_GAP as i64);
    let mut pos = Position { x: POSITION_UNITS * (ARENA_WIDTH_H + 300), y: -5000 };
    let mut at: usize = 0;
    while at < count_per_row
        invariant
            at <= count_per_row == 2,
            speed == CONVEYOR_SPEED,
            pitch == 6400,
            pos.x == 20600 + at * 6400,
            pos.y == -5000,
            blocks@ == conveyor_blocks().take(at as int),
        decreases count_per_row - at,
    {
        blocks.push(
            Block {
                position: pos,
                behaviour: BlockBehaviour::EvaderL(speed),
                block_type: BlockType::Simple,
                trigger_type: None,
                trigger_group: None,
            },
        );
        pos.x += pitch;
        at += 1;
        assert(blocks@ =~= conveyor_blocks().take(at as int));
    }

    let mut pos = Position { x: POSITION_UNITS * (-ARENA_WIDTH_H - 300), y: -7000 };
    let mut at: usize = 0;
    while at < count_per_row
        invariant
            at <= count_per_row == 2,
            speed == CONVEYOR_SPEED,
            pitch == 6400,
            pos.x == -20600 - at * 6400,
            pos.y == -7000,
            blocks@ == conveyor_blocks().take(2 + at),
        decreases count_per_row - at,
    {
        blocks.push(
            Block {
                position: pos,
                behaviour: BlockBehaviour::EvaderR(speed),
                block_type: BlockType::Simple,
                trigger_type: None,
                trigger_group: None,
            },
        );
        pos.x -= pitch;
        at += 1;
        assert(blocks@ =~= conveyor_blocks().take(2 + at));
    }
    assert(conveyor_blocks().take(4) =~= conveyor_blocks());

    level.clear_pickups();
    stats.set_block_count((2 * count_per_row) as i32);
    blocks
}

/// Whether the blocks of a level can be built: a grid's sides, its number
/// of blocks and a layout text's length stay within what the positions and
/// the match's block counter can hold.
pub open spec fn spawnable(targets: TargetLayout) -> bool {
    match targets {
        TargetLayout::FilledGrid(cols, rows, _, _, _) => rows <= MAX_GRID_SIDE && cols
            <= MAX_GRID_SIDE && rows * cols <= i32::MAX,
        TargetLayout::SparseGrid(layout, _) => layout@.len() <= MAX_GRID_SIDE,
        TargetLayout::Custom(_) => true,
    }
}

/// The blocks that a level places, or none for a custom layout that the
/// game does not know.
pub open spec fn level_blocks(targets: TargetLayout) -> Seq<Block> {
    match targets {
        TargetLayout::FilledGrid(cols, rows, block_type, behaviour, gap) => filled_grid_blocks(
            cols as int,
            rows as int,
            block_type,
            behaviour,
            gap as int,
        ),
        TargetLayout::SparseGrid(layout, gap) => layout_blocks(layout@, gap as int),
        TargetLayout::Custom(name) => if name@ == conveyor_name() {
            conveyor_blocks()
        } else {
            Seq::empty()
        },
    }
}

/// The number of blocks that a level asks the player to clear, or `None`
/// for a custom layout that the game does not know.
pub open spec fn level_block_count(targets: TargetLayout) -> Option<int> {
    match targets {
        TargetLayout::FilledGrid(cols, rows, _, _, _) => Some(rows * cols),
        TargetLayout::SparseGrid(layout, gap) => Some(
            target_count(layout_blocks(layout@, gap as int)) as int,
        ),
        TargetLayout::Custom(name) => if name@ == conveyor_name() {
            Some(4)
        } else {
            None
        },
    }
}

/// The match's counters once a level is set up: the block counter shows
/// what the level asks the player to clear.
pub open spec fn stats_after_spawn(stats: MatchModel, targets: TargetLayout) -> MatchModel {
    match level_block_count(targets) {
        Some(count) => MatchModel { blocks: count, ..stats },
        None => stats,
    }
}

impl LevelDefinition {
    /// What holds of where the pickups wait once the level `before` has
    /// been set up, with `left_out` pickups placed nowhere: they are spread
    /// over the counts of blocks to clear, but a custom layout has none, or
    /// keeps what it had if the game does not know it, and leaves none out.
    pub open spec fn pickups_after_spawn(&self, before: &LevelDefinition, left_out: usize) -> bool {
        match level_block_count(before.targets) {
            Some(count) => if before.targets is Custom {
                self.pickups() == no_pickups() && left_out == 0
            } else {
                self.pickups_spread(count as usize, left_out)
            },
            None => self.pickups() == before.pickups() && left_out == 0,
        }
    }
}

/// What setting up a level gives: the blocks to put on the field, and the
/// number of the level's pickups that found no place among them.
pub struct SpawnedLevel {
    pub blocks: Vec<Block>,
    pub pickups_left_out: usize,
}

/// Tells whether `level_spawn` may be called for this level.
pub fn can_spawn(level: &LevelDefinition) -> (ok: bool)
    ensures
        ok == spawnable(level.targets),
{
    match &level.targets {
        TargetLayout::FilledGrid(cols, rows, _, _, _) => {
            if *rows > MAX_GRID_SIDE || *cols > MAX_GRID_SIDE {
                return false;
            }
            let wide: u64 = *rows as u64;
            let high: u64 = *cols as u64;
            assert(wide * high <= 0x3fff_fffe * 0x3fff_fffe) by (nonlinear_arith)
                requires
                    wide <= 0x3fff_fffe,
                    high <= 0x3fff_fffe,
            ;
            wide * high <= i32::MAX as u64
        },
        TargetLayout::SparseGrid(layout, _) => layout.as_str().unicode_len() <= MAX_GRID_SIDE,
        TargetLayout::Custom(_) => true,
    }
}

/// Sets up a level at the start of a match: builds the blocks that the
/// level places, spreads the level's pickups over the counts of blocks that
/// the player has to clear, and tells the match how many those are. The
/// conveyor level has no pickups. For a custom layout that the game does not
/// know, nothing is built and nothing changes.
pub fn level_spawn(stats: &mut MatchState, level: &mut LevelDefinition) -> (spawned: SpawnedLevel)
    requires
        spawnable(old(level).targets),
    ensures
        spawned.blocks@ == level_blocks(old(level).targets),
        final(stats)@ == stats_after_spawn(old(stats)@, old(level).targets),
        final(level).same_but_pickups(old(level)),
        final(level).pickups_after_spawn(old(level), spawned.pickups_left_out),
{
    match &level.targets {
        TargetLayout::FilledGrid(cols, rows, block_type, behaviour, gap) => {
            let blocks = make_filled_grid(*cols, *rows, block_type, behaviour, *gap);
            let count: i32 = blocks.len() as i32;
            let pickups_left_out = level.distribute_global_pickups(count as usize);
            stats.set_block_count(count);
            SpawnedLevel { blocks, pickups_left_out }
        },
        TargetLayout::SparseGrid(layout, gap) => {
            let (blocks, count) = make_grid_from_string_layout(layout, *gap);
            let pickups_left_out = level.distribute_global_pickups(count as usize);
            stats.set_block_count(count);
            SpawnedLevel { blocks, pickups_left_out }
        },
        TargetLayout::Custom(name) => {
            if *name == "Conveyor".to_owned() {
                SpawnedLevel { blocks: level_span_conveyor(stats, level), pickups_left_out: 0 }
            } else {
                SpawnedLevel { blocks: Vec::new(), pickups_left_out: 0 }
            }
        },
    }
}

/// The levels of a game, in the order in which they are played, and the
/// index of the one being played.
pub struct Levels {
    pub definitions: Vec<LevelDefinition>,
    pub current_level: usize,
}

impl Levels {
    /// There is a level, and the current one is among them.
    pub open spec fn wf(&self) -> bool {
        self.current_level < self.definitions@.len()
    }

    /// Whether a level comes after the one that the index names.
    pub open spec fn has_next(&self) -> bool {
        self.current_level + 1 < self.definitions@.len()
    }

    /// The index after a move to the next level: one further if a level
    /// comes next, and where it was if not.
    pub open spec fn next_index(&self) -> usize {
        if self.has_next() {
            (self.current_level + 1) as usize
        } else {
            self.current_level
        }
    }

    /// The level that the index names.
    pub open spec fn current(&self) -> LevelDefinition
        recommends
            self.wf(),
    {
        self.definitions@[self.current_level as int]
    }

    /// The levels with `level` in place of the one that the index names.
    pub open spec fn with_current(&self, level: LevelDefinition) -> Seq<LevelDefinition>
        recommends
            self.wf(),
    {
        self.definitions@.update(self.current_level as int, level)
    }

    /// The level being played, if the index names one.
    pub fn get_current_level(&self) -> (level: Option<&LevelDefinition>)
        ensures
            level == if self.wf() {
                Some(&self.current())
            } else {
                None
            },
    {
        if self.current_level < self.definitions.len() {
            Some(&self.definitions[self.current_level])
        } else {
            None
        }
    }

    /// The level being played, to be changed, if the index names one.
    pub fn get_current_level_mut(&mut self) -> (level: Option<&mut LevelDefinition>)
        ensures
            level is Some <==> old(self).wf(),
            level is None ==> *final(self) == *old(self),
            level matches Some(current) ==> *current == old(self).current(),
            level matches Some(current) ==> final(self).current_level == old(self).current_level,
            level matches Some(current) ==> final(self).definitions@ == old(self).with_current(
                *final(current),
            ),
    {
        if self.current_level < self.definitions.len() {
            Some(&mut self.definitions[self.current_level])
        } else {
            None
        }
    }

    /// Moves on to the next level, if the current one is not the last.
    /// Returns whether it moved.
    pub fn next_level(&mut self) -> (moved: bool)
        requires
            old(self).definitions@.len() > 0,
        ensures
            moved == old(self).has_next(),
            final(self).current_level == old(self).next_index(),
            final(self).definitions == old(self).definitions,
            old(self).wf() ==> final(self).wf(),
    {
        if self.current_level < self.definitions.len() - 1 {
            self.current_level += 1;
            true
        } else {
            false
        }
    }
}

} // verus!
