use vstd::prelude::*;

verus! {

/// Capacity of the snake's segment buffer.
pub const SNAKE_LENGTH: usize = 256;

/// Side of one grid cell, in pixels.
pub const SQUARE_SIZE: i32 = 31;

/// The snake moves one cell every this many frames.
pub const MOVE_PERIOD: u64 = 5;

/// A grid cell, as column and row counted from the grid's top-left cell.
/// Also used for a velocity, in cells per movement tick.
#[derive(Clone, Copy, Debug, PartialEq, Eq, Structural)]
pub struct Point {
    pub x: i32,
    pub y: i32,
}

/// The single fruit: the cell it stands on and whether it is in play.
#[derive(Clone, Copy, Debug, PartialEq, Eq, Structural)]
pub struct Fruit {
    pub position: Point,
    pub active: bool,
}

/// The keys pressed during one frame.
#[derive(Clone, Copy, Debug, PartialEq, Eq, Structural)]
pub struct Input {
    pub right: bool,
    pub left: bool,
    pub up: bool,
    pub down: bool,
    pub pause: bool,
    pub confirm: bool,
}

/// The mathematical state of a game.
pub struct GameModel {
    pub frames: u64,
    pub game_over: bool,
    pub pause: bool,
    pub allow_move: bool,
    pub len: nat,
    pub width: i32,
    pub height: i32,
    pub speed: Point,
    pub snake: Seq<Point>,
    pub history: Seq<Point>,
    pub fruit: Fruit,
}

pub open spec fn origin() -> Point {
    Point { x: 0, y: 0 }
}

pub open spec fn right() -> Point {
    Point { x: 1, y: 0 }
}

pub open spec fn left() -> Point {
    Point { x: -1i32, y: 0 }
}

pub open spec fn up() -> Point {
    Point { x: 0, y: -1i32 }
}

pub open spec fn down() -> Point {
    Point { x: 0, y: 1 }
}

/// Number of whole cells that fit in `pixels`.
pub open spec fn cells_in(pixels: i32) -> int {
    pixels as int / SQUARE_SIZE as int
}

/// One of the four unit steps along an axis.
pub open spec fn is_direction(v: Point) -> bool {
    v == right() || v == left() || v == up() || v == down()
}

/// The cell reached from `p` by one step of `v`.
pub open spec fn step(p: Point, v: Point) -> Point {
    Point { x: (p.x + v.x) as i32, y: (p.y + v.y) as i32 }
}

/// The whole buffer at the origin, as a reset leaves it.
pub open spec fn all_origin() -> Seq<Point> {
    Seq::new(SNAKE_LENGTH as nat, |i: int| origin())
}

/// The state right after a reset for a window of `width` by `height` pixels.
pub open spec fn initial(width: i32, height: i32) -> GameModel {
    GameModel {
        frames: 0,
        game_over: false,
        pause: false,
        allow_move: false,
        len: 1,
        width,
        height,
        speed: right(),
        snake: all_origin(),
        history: all_origin(),
        fruit: Fruit { position: origin(), active: false },
    }
}

impl GameModel {
    pub open spec fn cols(self) -> int {
        cells_in(self.width)
    }

    pub open spec fn rows(self) -> int {
        cells_in(self.height)
    }

    pub open spec fn in_grid(self, p: Point) -> bool {
        0 <= p.x < self.cols() && 0 <= p.y < self.rows()
    }

    pub open spec fn head(self) -> Point {
        self.snake[0]
    }

    /// Some live segment stands on `p`.
    pub open spec fn occupied(self, p: Point) -> bool {
        exists|i: int| 0 <= i < self.len && self.snake[i] == p
    }

    /// Some cell of the grid is free of the snake.
    pub open spec fn has_free_cell(self) -> bool {
        exists|p: Point| self.in_grid(p) && !self.occupied(p)
    }

    /// Buffer sizes, window size and velocity are in range.
    pub open spec fn shaped(self) -> bool {
        &&& self.width >= SQUARE_SIZE
        &&& self.height >= SQUARE_SIZE
        &&& self.snake.len() == SNAKE_LENGTH
        &&& self.history.len() == SNAKE_LENGTH
        &&& 1 <= self.len <= SNAKE_LENGTH
        &&& is_direction(self.speed)
    }

    /// The invariant every reachable state keeps: while the game runs every
    /// live segment is on the grid, and an active fruit is on a free cell.
    pub open spec fn wf(self) -> bool {
        &&& self.shaped()
        &&& !self.game_over ==> forall|i: int| 0 <= i < self.len ==> self.in_grid(#[trigger] self.snake[i])
        &&& self.fruit.active ==> self.in_grid(self.fruit.position) && !self.occupied(self.fruit.position)
    }

    /// A turn towards `dir` is accepted: the latch is open and the head is not
    /// already moving along that axis.
    pub open spec fn accepts(self, dir: Point) -> bool {
        self.allow_move && if dir.x != 0 { self.speed.x == 0 } else { self.speed.y == 0 }
    }

    pub open spec fn turn(self, requested: bool, dir: Point) -> GameModel {
        if requested && self.accepts(dir) {
            GameModel { speed: dir, allow_move: false, ..self }
        } else {
            self
        }
    }

    /// Direction keys, read in the order right, left, up, down.
    pub open spec fn steer(self, input: Input) -> GameModel {
        self.turn(input.right, right()).turn(input.left, left()).turn(input.up, up()).turn(
            input.down,
            down(),
        )
    }

    /// The history buffer takes the live segments' positions.
    pub open spec fn record(self) -> GameModel {
        GameModel {
            history: Seq::new(
                SNAKE_LENGTH as nat,
                |i: int| if i < self.len { self.snake[i] } else { self.history[i] },
            ),
            ..self
        }
    }

    pub open spec fn is_move_frame(self) -> bool {
        self.frames % MOVE_PERIOD == 0
    }

    /// Each body segment takes the recorded cell of the one ahead of it, the head
    /// steps by its velocity, and the latch opens.
    pub open spec fn shift(self) -> GameModel {
        GameModel {
            snake: Seq::new(
                SNAKE_LENGTH as nat,
                |i: int|
                    if i == 0 {
                        step(self.snake[0], self.speed)
                    } else if i < self.len {
                        self.history[i - 1]
                    } else {
                        self.snake[i]
                    },
            ),
            allow_move: true,
            ..self
        }
    }

    pub open spec fn hits_itself(self) -> bool {
        exists|i: int| 1 <= i < self.len && self.snake[i] == self.head()
    }

    pub open spec fn collide(self) -> GameModel {
        GameModel {
            game_over: self.game_over || !self.in_grid(self.head()) || self.hits_itself(),
            ..self
        }
    }

    /// Steering, recording, the gated move and the collision checks of a frame.
    pub open spec fn advance(self, input: Input) -> GameModel {
        let r = self.steer(input).record();
        let m = if r.is_move_frame() { r.shift() } else { r };
        m.collide()
    }

    /// `next` is `self` with the fruit placed where a spawn may put it.
    pub open spec fn spawned(self, next: GameModel) -> bool {
        if !self.fruit.active && self.has_free_cell() {
            &&& next.fruit.active
            &&& self.in_grid(next.fruit.position)
            &&& !self.occupied(next.fruit.position)
            &&& next == GameModel { fruit: next.fruit, ..self }
        } else {
            next == self
        }
    }

    /// The head on the fruit eats it: the snake grows by the cell its tail was
    /// recorded on, unless the buffer is full.
    pub open spec fn eat(self) -> GameModel {
        if self.fruit.active && self.head() == self.fruit.position {
            if self.len < SNAKE_LENGTH {
                GameModel {
                    snake: self.snake.update(self.len as int, self.history[self.len - 1]),
                    len: self.len + 1,
                    fruit: Fruit { active: false, ..self.fruit },
                    ..self
                }
            } else {
                GameModel { fruit: Fruit { active: false, ..self.fruit }, ..self }
            }
        } else {
            self
        }
    }

    pub open spec fn count_frame(self) -> GameModel {
        GameModel { frames: self.frames.wrapping_add(1), ..self }
    }

    /// A frame with `input` runs and moves the snake.
    pub open spec fn moves(self, input: Input) -> bool {
        !self.game_over && self.pause == input.pause && self.is_move_frame()
    }

    /// `next` is a state that an unpaused frame of a running game can lead to.
    pub open spec fn run(self, input: Input, next: GameModel) -> bool {
        exists|q: GameModel| #[trigger] self.advance(input).spawned(q) && next == q.eat().count_frame()
    }

    /// `next` is a state that one frame with `input` can lead to from `self`.
    pub open spec fn frame(self, input: Input, next: GameModel) -> bool {
        if self.game_over {
            next == if input.confirm { initial(self.width, self.height) } else { self }
        } else {
            let p = GameModel { pause: self.pause != input.pause, ..self };
            if p.pause {
                next == p
            } else {
                p.run(input, next)
            }
        }
    }
}

} // verus!
