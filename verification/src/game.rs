use vstd::prelude::*;

use crate::collision::detect_collision;
use crate::collision::spec_collision;
use crate::direction::Direction;
use crate::direction::check_directions;
use crate::queue::InputQueue;
use crate::segment::Segment;
use crate::segment::contains_segment;
use crate::spawn::has_free_cell;
use crate::spawn::is_free;
use crate::spawn::respawn_apple;
use crate::speed::current_interval_micros;
use crate::speed::spec_interval_micros;
use crate::speed::spec_sat_add;

verus! {

/// Settings the player can change while the game runs.
#[derive(PartialEq, Eq, Structural, Clone, Copy, Debug)]
pub struct GameSettings {
    pub progressive_speed: bool,
    pub allow_teleport: bool,
}

/// The authoritative state of one game: the snake's body, the direction it
/// travels, the buffered inputs, the apple, the score, the terminal flag
/// and the speed-control bookkeeping. The external driver owns one value
/// of this type and feeds it elapsed time and key presses.
pub struct Game {
    /// The snake's body, head first, in grid units; never empty.
    pub segments: Vec<Segment>,
    /// The direction the head advances on the next tick, unless the input
    /// buffer changes it first.
    pub direction: Direction,
    /// Pending direction changes, oldest first.
    pub input_buffer: InputQueue,
    /// The food cell.
    pub apple: Segment,
    /// Apples eaten so far.
    pub score: u64,
    /// Set on the first collision (or full arena) and never cleared.
    pub game_over: bool,
    pub game_settings: GameSettings,
    /// Elapsed time accumulated toward the next tick, in microseconds.
    pub last_update_time: u64,
}

/// The direction a tick adopts: the oldest buffered entry, unless it would
/// reverse `current` (an entry promoted to the front when an older one was
/// pushed out may do so, and must not slip through).
pub open spec fn spec_consumed_direction(buffer: Seq<Direction>, current: Direction) -> Direction {
    if buffer.len() == 0 {
        current
    } else if buffer[0] == current.opposite() {
        current
    } else {
        buffer[0]
    }
}

/// The input buffer once a tick has consumed its oldest entry; consumption
/// happens whether or not the entry was adopted.
pub open spec fn spec_buffer_after_tick(buffer: Seq<Direction>) -> Seq<Direction> {
    if buffer.len() == 0 {
        buffer
    } else {
        buffer.drop_first()
    }
}

/// The body once the head has advanced one cell along `dir`, before the
/// tail is resolved: the new head cell prepended to the whole old body.
pub open spec fn spec_moved_body(body: Seq<Segment>, dir: Direction) -> Seq<Segment> {
    seq![body[0].spec_step(dir)] + body
}

/// The snake's starting body: three segments facing right.
pub open spec fn spec_start_body() -> Seq<Segment> {
    seq![(Segment { x: 5, y: 3 }), (Segment { x: 4, y: 3 }), (Segment { x: 3, y: 3 })]
}

/// Where the first apple lies.
pub open spec fn spec_start_apple() -> Segment {
    Segment { x: 10, y: 10 }
}

/// What a caller-supplied layout must satisfy to start play: at least the
/// three starting segments, a head from which one step cannot leave the
/// coordinate range any arena bound can reach, and an apple off the body.
pub open spec fn spec_valid_layout(segments: Seq<Segment>, apple: Segment) -> bool {
    &&& segments.len() >= 3
    &&& 0 <= segments[0].x <= u32::MAX
    &&& 0 <= segments[0].y <= u32::MAX
    &&& !segments.contains(apple)
}

/// A state left alone by a gated call: only the tick accumulator moved.
pub open spec fn spec_idle_outcome(pre: Game, post: Game, dt_micros: u64) -> bool {
    &&& post.segments@ == pre.segments@
    &&& post.direction == pre.direction
    &&& post.input_buffer@ == pre.input_buffer@
    &&& post.apple == pre.apple
    &&& post.score == pre.score
    &&& !post.game_over
    &&& post.game_settings == pre.game_settings
    &&& post.last_update_time == spec_sat_add(pre.last_update_time, dt_micros)
}

/// What one fired tick does to the state: the oldest buffered direction is
/// consumed, the head advances one cell, and then exactly one of three
/// things happens — a collision ends the game with the grown body kept; the
/// head lands on the apple, the score rises by one, the tail stays and the
/// apple respawns on a free cell (the game ends instead when none is
/// left); or the tail cell is dropped and play goes on.
pub open spec fn spec_tick_outcome(pre: Game, post: Game, windowx: u32, windowy: u32) -> bool {
    let d = spec_consumed_direction(pre.input_buffer@, pre.direction);
    let moved = spec_moved_body(pre.segments@, d);
    &&& post.direction == d
    &&& post.input_buffer@ == spec_buffer_after_tick(pre.input_buffer@)
    &&& post.last_update_time == 0
    &&& post.game_settings == pre.game_settings
    &&& if spec_collision(moved, windowx, windowy) {
        &&& post.game_over
        &&& post.segments@ == moved
        &&& post.score == pre.score
        &&& post.apple == pre.apple
    } else if moved[0] == pre.apple {
        &&& post.segments@ == moved
        &&& post.score == pre.score + 1
        &&& if has_free_cell(moved, pre.apple, windowx, windowy) {
            &&& !post.game_over
            &&& post.apple.in_bounds(windowx, windowy)
            &&& is_free(post.apple, moved, pre.apple)
        } else {
            &&& post.game_over
            &&& post.apple == pre.apple
        }
    } else {
        &&& post.segments@ == moved.drop_last()
        &&& post.score == pre.score
        &&& post.apple == pre.apple
        &&& !post.game_over
    }
}

impl Game {
    /// Structural soundness, established by the constructors and preserved
    /// by every method: the body keeps at least its three starting
    /// segments and, while play continues, its length exceeds the score by
    /// exactly three, its head sits where one step stays in coordinate
    /// range, and the apple lies off the body.
    pub open spec fn wf(&self) -> bool {
        &&& self.segments@.len() >= 3
        &&& self.input_buffer.wf()
        &&& !self.game_over ==> self.segments@.len() == 3 + self.score
        &&& !self.game_over ==> 0 <= self.segments@[0].x <= u32::MAX
        &&& !self.game_over ==> 0 <= self.segments@[0].y <= u32::MAX
        &&& !self.game_over ==> !self.segments@.contains(self.apple)
    }

    /// Whether feeding `dt_micros` of elapsed time makes a tick due under
    /// the current score and mode.
    pub open spec fn tick_due(&self, dt_micros: u64) -> bool {
        spec_sat_add(self.last_update_time, dt_micros) >= spec_interval_micros(
            self.score,
            self.game_settings.progressive_speed,
        )
    }

    /// A fresh game: the three-segment body facing right, the apple at its
    /// starting cell, no score, progressive speed on.
    pub fn new() -> (g: Game)
        ensures
            g.wf(),
            g.segments@ == spec_start_body(),
            g.direction == Direction::Right,
            g.input_buffer@ == Seq::<Direction>::empty(),
            g.apple == spec_start_apple(),
            g.score == 0,
            !g.game_over,
            g.game_settings.progressive_speed,
            !g.game_settings.allow_teleport,
            g.last_update_time == 0,
    {
        let mut segments: Vec<Segment> = Vec::new();
        segments.push(Segment { x: 5, y: 3 });
        segments.push(Segment { x: 4, y: 3 });
        segments.push(Segment { x: 3, y: 3 });
        proof {
            assert(segments@ =~= spec_start_body());
        }
        Game {
            segments,
            direction: Direction::Right,
            input_buffer: InputQueue::new(),
            apple: Segment { x: 10, y: 10 },
            score: 0,
            game_over: false,
            game_settings: GameSettings { progressive_speed: true, allow_teleport: false },
            last_update_time: 0,
        }
    }

    /// Builds a game from an explicit layout, after validating what a
    /// sound state needs; the score starts at whatever the body has grown
    /// past its three starting segments.
    pub fn from_parts(
        segments: Vec<Segment>,
        direction: Direction,
        apple: Segment,
        game_settings: GameSettings,
    ) -> (r: Option<Game>)
        ensures
            (r is Some) <==> spec_valid_layout(segments@, apple),
            r matches Some(g) ==> {
                &&& g.wf()
                &&& g.segments@ == segments@
                &&& g.direction == direction
                &&& g.input_buffer@ == Seq::<Direction>::empty()
                &&& g.apple == apple
                &&& g.score + 3 == segments@.len()
                &&& !g.game_over
                &&& g.game_settings == game_settings
                &&& g.last_update_time == 0
            },
    {
        if segments.len() < 3 {
            return None;
        }
        let head = segments[0];
        if head.x < 0 || head.y < 0 || head.x > u32::MAX as i64 || head.y > u32::MAX as i64 {
            return None;
        }
        if contains_segment(&segments, apple) {
            return None;
        }
        let score = (segments.len() - 3) as u64;
        Some(
            Game {
                segments,
                direction,
                input_buffer: InputQueue::new(),
                apple,
                score,
                game_over: false,
                game_settings,
                last_update_time: 0,
            },
        )
    }

    /// One call of the external clock. Elapsed time accumulates until the
    /// current interval is reached; then one tick fires: buffered input is
    /// applied, the head advances, collision ends the game, and an eaten
    /// apple scores and respawns while any other move drops the tail. A
    /// finished game is left exactly as it is.
    pub fn update(&mut self, dt_micros: u64, windowx: u32, windowy: u32)
        requires
            old(self).wf(),
        ensures
            final(self).wf(),
            old(self).game_over ==> *final(self) == *old(self),
            !old(self).game_over && !old(self).tick_due(dt_micros) ==> spec_idle_outcome(
                *old(self),
                *final(self),
                dt_micros,
            ),
            !old(self).game_over && old(self).tick_due(dt_micros) ==> spec_tick_outcome(
                *old(self),
                *final(self),
                windowx,
                windowy,
            ),
    {
        if self.game_over {
            return;
        }

        // Gate the tick on the interval the speed controller asks for.
        let current_interval = current_interval_micros(
            self.score,
            self.game_settings.progressive_speed,
        );
        let acc: u64 = if dt_micros <= u64::MAX - self.last_update_time {
            self.last_update_time + dt_micros
        } else {
            u64::MAX
        };
        if acc < current_interval {
            self.last_update_time = acc;
            return;
        }
        self.last_update_time = 0;

        // Consume the oldest buffered direction. It was validated when
        // queued, but dropping an overflowed entry can promote a reversal
        // to the front, so it is checked again against the direction the
        // snake actually faces now.
        match self.input_buffer.dequeue_next() {
            Some(new_dir) => {
                if check_directions(&self.direction, new_dir) {
                    self.direction = new_dir;
                }
            },
            None => {},
        }

        // Advance the head one cell along the adopted direction.
        let head = self.segments[0];
        let new_head = head.step(self.direction);
        self.segments.insert(0, new_head);
        proof {
            assert(self.segments@ =~= spec_moved_body(
                old(self).segments@,
                spec_consumed_direction(old(self).input_buffer@, old(self).direction),
            ));
        }

        if detect_collision(&self.segments, windowx, windowy) {
            self.game_over = true;
            return;
        }

        if new_head == self.apple {
            // The head reached the apple: the tail stays, so the body
            // grows by one, and the apple moves to a free cell. The body's
            // length ran ahead of the score, so counting one more apple
            // stays within the score's range.
            let n = self.segments.len();
            proof {
                assert(self.score + 4 == n);
            }
            match respawn_apple(&self.segments, self.apple, windowx, windowy) {
                Some(c) => {
                    self.apple = c;
                },
                None => {
                    self.game_over = true;
                },
            }
            self.score = self.score + 1;
        } else {
            self.segments.pop();
            proof {
                let moved = spec_moved_body(
                    old(self).segments@,
                    spec_consumed_direction(old(self).input_buffer@, old(self).direction),
                );
                assert(self.segments@ =~= moved.drop_last());
                assert(!self.segments@.contains(old(self).apple)) by {
                    if self.segments@.contains(old(self).apple) {
                        let i = choose|i: int|
                            0 <= i < self.segments@.len() && self.segments@[i] == old(self).apple;
                        if i > 0 {
                            assert(old(self).segments@[i - 1] == old(self).apple);
                            assert(old(self).segments@.contains(old(self).apple));
                        }
                    }
                }
            }
        }
    }

    /// Input entry point: buffers `pressed` unless it reverses the
    /// direction the snake will be facing when the entry is consumed — the
    /// last queued entry, or the current direction when nothing is queued.
    pub fn change_directions(&mut self, pressed: Direction)
        requires
            old(self).wf(),
        ensures
            final(self).wf(),
            final(self).input_buffer@ == old(self).input_buffer.spec_enqueue(
                old(self).direction,
                pressed,
            ),
            final(self).segments@ == old(self).segments@,
            final(self).direction == old(self).direction,
            final(self).apple == old(self).apple,
            final(self).score == old(self).score,
            final(self).game_over == old(self).game_over,
            final(self).game_settings == old(self).game_settings,
            final(self).last_update_time == old(self).last_update_time,
    {
        let current = self.direction;
        let _accepted = self.input_buffer.try_enqueue(current, pressed);
    }

    /// Switches between progressive and fixed speed without touching the
    /// score, the body or the clock.
    pub fn toggle_progressive_speed(&mut self)
        ensures
            final(self).game_settings.progressive_speed == !old(
                self,
            ).game_settings.progressive_speed,
            final(self).game_settings.allow_teleport == old(self).game_settings.allow_teleport,
            final(self).segments@ == old(self).segments@,
            final(self).direction == old(self).direction,
            final(self).input_buffer@ == old(self).input_buffer@,
            final(self).apple == old(self).apple,
            final(self).score == old(self).score,
            final(self).game_over == old(self).game_over,
            final(self).last_update_time == old(self).last_update_time,
            old(self).wf() ==> final(self).wf(),
    {
        self.game_settings.progressive_speed = !self.game_settings.progressive_speed;
    }

    /// Speed readout: the interval the next tick waits for, in
    /// microseconds, and whether progressive speed is on.
    pub fn get_current_speed_info(&self) -> (r: (u64, bool))
        ensures
            r.0 == spec_interval_micros(self.score, self.game_settings.progressive_speed),
            r.1 == self.game_settings.progressive_speed,
    {
        let interval = current_interval_micros(self.score, self.game_settings.progressive_speed);
        (interval, self.game_settings.progressive_speed)
    }
}

/// Law: while play continues the body's length exceeds the score by exactly
/// the three starting segments — so over any run of ticks without a
/// collision the body never shrinks, and it grows by exactly one segment
/// per apple counted into the score.
pub proof fn lemma_body_length_tracks_score(g: Game)
    requires
        g.wf(),
        !g.game_over,
    ensures
        g.segments@.len() == 3 + g.score,
{
}

/// Law: across any tick that leaves play running, the body never shrinks,
/// and it grows by exactly one segment when and only when the score rose by
/// one — a sequence of collision-free ticks therefore has a non-decreasing
/// body length that tracks the apples consumed.
pub proof fn lemma_tick_grows_body_only_by_apple(pre: Game, post: Game, windowx: u32, windowy: u32)
    requires
        pre.wf(),
        !pre.game_over,
        spec_tick_outcome(pre, post, windowx, windowy),
        !post.game_over,
    ensures
        post.segments@.len() >= pre.segments@.len(),
        (post.segments@.len() == pre.segments@.len() + 1) <==> (post.score == pre.score + 1),
        (post.segments@.len() == pre.segments@.len()) <==> (post.score == pre.score),
{
}

/// Law: the apple never lies on a body cell while play continues — in
/// particular immediately after any respawn that kept the game going.
pub proof fn lemma_apple_not_on_body(g: Game)
    requires
        g.wf(),
        !g.game_over,
    ensures
        !g.segments@.contains(g.apple),
{
}

/// The quotient the body of `round_to_nearest_10` works from: Rust's
/// truncating division by ten.
pub open spec fn spec_trunc_div10(n: int) -> int {
    if n >= 0 {
        n / 10
    } else {
        -((-n) / 10)
    }
}

/// The value `round_to_nearest_10` returns: of the two multiples of ten
/// the truncating quotient puts `n` between, the higher one exactly when
/// it is strictly closer.
pub open spec fn spec_round10(n: int) -> int {
    let a = spec_trunc_div10(n) * 10;
    let b = a + 10;
    if n - a > b - n {
        b
    } else {
        a
    }
}

/// Rounds to a multiple of ten: exact halves round down, and negative
/// values lean toward zero with the truncating quotient.
pub fn round_to_nearest_10(n: i32) -> (r: i32)
    requires
        i32::MIN < n <= i32::MAX - 10,
    ensures
        r == spec_round10(n as int),
{
    let q: i32 = if n >= 0 {
        n / 10
    } else {
        -((-n) / 10)
    };
    let a: i32 = q * 10;
    let b: i32 = a + 10;
    if n - a > b - n {
        b
    } else {
        a
    }
}

} // verus!
