use vstd::prelude::*;
use crate::laws::{lemma_frame_keeps_wf, lemma_initial_wf};
use crate::model::{
    all_origin, cells_in, down, initial, is_direction, left, origin, right, up, Fruit, GameModel,
    Input, Point, MOVE_PERIOD, SNAKE_LENGTH, SQUARE_SIZE,
};

verus! {

/// How many random cells a spawn draws before it scans for a free one.
pub const SPAWN_ATTEMPTS: u32 = 64;

/// Relies on rand::Rng::gen_range with rand::thread_rng: a uniform value drawn
/// from `0..n`; it panics only on an empty range, which `requires` rules out.
#[verifier::external_body]
fn random_below(n: i32) -> (r: i32)
    requires
        n > 0,
    ensures
        0 <= r < n,
{
    rand::Rng::gen_range(&mut rand::thread_rng(), 0..n)
}

/// The game: a snake in a fixed buffer of which the first `counter_tail`
/// segments are live (index 0 is the head), the positions recorded before the
/// last move, one fruit, and the frame counter and flags.
pub struct GameState {
    pub frames_counter: u64,
    pub game_over: bool,
    pub pause: bool,
    pub allow_move: bool,
    pub counter_tail: usize,
    pub width: i32,
    pub height: i32,
    pub speed: Point,
    pub snake: Vec<Point>,
    pub snake_position: Vec<Point>,
    pub fruit: Fruit,
}

impl View for GameState {
    type V = GameModel;

    open spec fn view(&self) -> GameModel {
        GameModel {
            frames: self.frames_counter,
            game_over: self.game_over,
            pause: self.pause,
            allow_move: self.allow_move,
            len: self.counter_tail as nat,
            width: self.width,
            height: self.height,
            speed: self.speed,
            snake: self.snake@,
            history: self.snake_position@,
            fruit: self.fruit,
        }
    }
}

fn origin_buffer() -> (r: Vec<Point>)
    ensures
        r@ == all_origin(),
{
    let mut v: Vec<Point> = Vec::new();
    let mut i: usize = 0;
    while i < SNAKE_LENGTH
        invariant
            i <= SNAKE_LENGTH,
            v@.len() == i,
            forall|j: int| 0 <= j < i ==> v@[j] == origin(),
        decreases SNAKE_LENGTH - i,
    {
        v.push(Point { x: 0, y: 0 });
        i = i + 1;
    }
    assert(v@ =~= all_origin());
    v
}

impl GameState {
    /// A game for a window of `width` by `height` pixels, in its initial state.
    pub fn new(width: i32, height: i32) -> (r: GameState)
        requires
            width >= SQUARE_SIZE,
            height >= SQUARE_SIZE,
        ensures
            r@ == initial(width, height),
            r@.wf(),
    {
        let r = GameState {
            frames_counter: 0,
            game_over: false,
            pause: false,
            allow_move: false,
            counter_tail: 1,
            width,
            height,
            speed: Point { x: 1, y: 0 },
            snake: origin_buffer(),
            snake_position: origin_buffer(),
            fruit: Fruit { position: Point { x: 0, y: 0 }, active: false },
        };
        proof {
            lemma_initial_wf(width, height);
        }
        r
    }

    /// Resets every field in place to the initial state for the given window.
    pub fn init_game(&mut self, width: i32, height: i32)
        requires
            width >= SQUARE_SIZE,
            height >= SQUARE_SIZE,
        ensures
            final(self)@ == initial(width, height),
            final(self)@.wf(),
    {
        self.frames_counter = 0;
        self.game_over = false;
        self.pause = false;
        self.counter_tail = 1;
        self.allow_move = false;
        self.width = width;
        self.height = height;
        self.speed = Point { x: 1, y: 0 };
        self.snake = origin_buffer();
        self.snake_position = origin_buffer();
        self.fruit = Fruit { position: Point { x: 0, y: 0 }, active: false };
        proof {
            lemma_initial_wf(width, height);
        }
    }

    /// The pixels left over when the window is cut into whole cells; half of
    /// each centres the grid in the window.
    pub fn offset(&self) -> (r: Point)
        requires
            self@.shaped(),
        ensures
            r.x == self.width % SQUARE_SIZE,
            r.y == self.height % SQUARE_SIZE,
    {
        Point { x: self.width % SQUARE_SIZE, y: self.height % SQUARE_SIZE }
    }

    /// Number of columns of the grid.
    pub fn cols(&self) -> (r: i32)
        requires
            self@.shaped(),
        ensures
            r == cells_in(self.width),
    {
        self.width / SQUARE_SIZE
    }

    /// Number of rows of the grid.
    pub fn rows(&self) -> (r: i32)
        requires
            self@.shaped(),
        ensures
            r == cells_in(self.height),
    {
        self.height / SQUARE_SIZE
    }
    /// Advances the game by one frame with the keys pressed in it. Over, only
    /// confirm acts: it resets the game. Running, the pause key toggles the
    /// pause first; unpaused, the frame steers, records the positions, moves
    /// on every fifth frame, checks the walls and the body, places a missing
    /// fruit on a free cell, eats a fruit under the head, and counts itself.
    pub fn update_game(&mut self, input: &Input)
        requires
            old(self)@.wf(),
        ensures
            final(self)@.wf(),
            old(self)@.frame(*input, final(self)@),
    {
        if self.game_over {
            if input.confirm {
                let width = self.width;
                let height = self.height;
                self.init_game(width, height);
            }
            return;
        }
        if input.pause {
            self.pause = !self.pause;
        }
        if !self.pause {
            let ghost p = self@;
            self.steer(input);
            self.record_history();
            if self.frames_counter % MOVE_PERIOD == 0 {
                self.shift();
            }
            self.check_collisions();
            let ghost a = self@;
            assert(a == p.advance(*input));
            self.spawn_fruit();
            let ghost q = self@;
            self.eat_fruit();
            self.frames_counter = self.frames_counter.wrapping_add(1);
            assert(p == GameModel { pause: old(self)@.pause != input.pause, ..old(self)@ });
            assert(p.advance(*input).spawned(q) && self@ == q.eat().count_frame());
            assert(p.run(*input, self@));
        }
        proof {
            lemma_frame_keeps_wf(old(self)@, *input, self@);
        }
    }

    /// Applies the direction keys of one frame.
    fn steer(&mut self, input: &Input)
        ensures
            final(self)@ == old(self)@.steer(*input),
    {
        if input.right && self.allow_move && self.speed.x == 0 {
            self.speed = Point { x: 1, y: 0 };
            self.allow_move = false;
        }
        if input.left && self.allow_move && self.speed.x == 0 {
            self.speed = Point { x: -1, y: 0 };
            self.allow_move = false;
        }
        if input.up && self.allow_move && self.speed.y == 0 {
            self.speed = Point { x: 0, y: -1 };
            self.allow_move = false;
        }
        if input.down && self.allow_move && self.speed.y == 0 {
            self.speed = Point { x: 0, y: 1 };
            self.allow_move = false;
        }
    }

    /// Records the live segments' positions in the history buffer.
    fn record_history(&mut self)
        requires
            old(self)@.shaped(),
        ensures
            final(self)@ == old(self)@.record(),
    {
        let len = self.counter_tail;
        record_into(&mut self.snake_position, &self.snake, len);
        assert(self.snake_position@ =~= old(self)@.record().history);
    }

    /// Moves the snake one cell and opens the steering latch.
    fn shift(&mut self)
        requires
            old(self)@.shaped(),
            old(self)@.in_grid(old(self)@.head()),
        ensures
            final(self)@ == old(self)@.shift(),
    {
        let len = self.counter_tail;
        shift_body(&mut self.snake, &self.snake_position, len);
        let h = self.snake[0];
        self.snake.set(0, Point { x: h.x + self.speed.x, y: h.y + self.speed.y });
        self.allow_move = true;
        assert(self.snake@ =~= old(self)@.shift().snake);
    }

    /// Some live body segment stands on the head's cell.
    pub fn hits_itself(&self) -> (r: bool)
        requires
            self@.shaped(),
        ensures
            r == self@.hits_itself(),
    {
        let h = self.snake[0];
        let mut i: usize = 1;
        while i < self.counter_tail
            invariant
                self@.shaped(),
                h == self@.head(),
                1 <= i <= self.counter_tail,
                forall|j: int| 1 <= j < i ==> self.snake@[j] != h,
            decreases self.counter_tail - i,
        {
            if self.snake[i] == h {
                return true;
            }
            i = i + 1;
        }
        false
    }

    /// Ends the game when the head has left the grid or run into the body.
    fn check_collisions(&mut self)
        requires
            old(self)@.shaped(),
        ensures
            final(self)@ == old(self)@.collide(),
    {
        let h = self.snake[0];
        let cols = self.cols();
        let rows = self.rows();
        let hit = self.hits_itself();
        if h.x < 0 || h.x >= cols || h.y < 0 || h.y >= rows || hit {
            self.game_over = true;
        }
    }

    /// Some live segment stands on `p`.
    pub fn is_occupied(&self, p: Point) -> (r: bool)
        requires
            self@.shaped(),
        ensures
            r == self@.occupied(p),
    {
        let mut i: usize = 0;
        while i < self.counter_tail
            invariant
                self@.shaped(),
                i <= self.counter_tail,
                forall|j: int| 0 <= j < i ==> self.snake@[j] != p,
            decreases self.counter_tail - i,
        {
            if self.snake[i] == p {
                return true;
            }
            i = i + 1;
        }
        false
    }

    /// Puts the fruit on `p` and makes it active, when `p` is a free cell of the
    /// grid; otherwise changes nothing.
    pub fn place_fruit(&mut self, p: Point) -> (placed: bool)
        requires
            old(self)@.shaped(),
        ensures
            placed == (old(self)@.in_grid(p) && !old(self)@.occupied(p)),
            final(self)@ == if placed {
                GameModel { fruit: Fruit { position: p, active: true }, ..old(self)@ }
            } else {
                old(self)@
            },
    {
        let cols = self.cols();
        let rows = self.rows();
        if 0 <= p.x && p.x < cols && 0 <= p.y && p.y < rows && !self.is_occupied(p) {
            self.fruit = Fruit { position: p, active: true };
            true
        } else {
            false
        }
    }

    /// The first free cell of the grid, row by row, if there is one.
    pub fn first_free_cell(&self) -> (r: Option<Point>)
        requires
            self@.shaped(),
        ensures
            match r {
                Some(p) => {
                    &&& self@.in_grid(p)
                    &&& !self@.occupied(p)
                    &&& forall|c: Point|
                        #[trigger] self@.in_grid(c) && (c.y < p.y || (c.y == p.y && c.x < p.x))
                            ==> self@.occupied(c)
                },
                None => !self@.has_free_cell(),
            },
    {
        let cols = self.cols();
        let rows = self.rows();
        let mut y: i32 = 0;
        while y < rows
            invariant
                self@.shaped(),
                cols == self@.cols(),
                rows == self@.rows(),
                0 <= y <= rows,
                forall|p: Point| #[trigger] self@.in_grid(p) && p.y < y ==> self@.occupied(p),
            decreases rows - y,
        {
            let mut x: i32 = 0;
            while x < cols
                invariant
                    self@.shaped(),
                    cols == self@.cols(),
                    rows == self@.rows(),
                    0 <= y < rows,
                    0 <= x <= cols,
                    forall|p: Point| #[trigger] self@.in_grid(p) && p.y < y ==> self@.occupied(p),
                    forall|p: Point| #[trigger] self@.in_grid(p) && p.y == y && p.x < x ==> self@.occupied(p),
                decreases cols - x,
            {
                let p = Point { x, y };
                if !self.is_occupied(p) {
                    return Some(p);
                }
                x = x + 1;
            }
            y = y + 1;
        }
        None
    }

    /// Places an inactive fruit on a free cell: random cells first, then the
    /// first free cell in row order. With no free cell the fruit stays inactive.
    fn spawn_fruit(&mut self)
        requires
            old(self)@.shaped(),
        ensures
            old(self)@.spawned(final(self)@),
    {
        if self.fruit.active {
            return;
        }
        let cols = self.cols();
        let rows = self.rows();
        let mut attempt: u32 = 0;
        let mut placed = false;
        while attempt < SPAWN_ATTEMPTS && !placed
            invariant
                old(self)@.shaped(),
                !old(self)@.fruit.active,
                cols == old(self)@.cols(),
                rows == old(self)@.rows(),
                placed ==> old(self)@.spawned(self@),
                !placed ==> self@ == old(self)@,
            decreases SPAWN_ATTEMPTS - attempt,
        {
            let p = Point { x: random_below(cols), y: random_below(rows) };
            placed = self.place_fruit(p);
            attempt = attempt + 1;
        }
        if !placed {
            match self.first_free_cell() {
                Some(p) => {
                    self.fruit = Fruit { position: p, active: true };
                },
                None => {},
            }
        }
    }

    /// Eats the fruit when the head is on it: the snake grows by the cell its
    /// tail was recorded on (while the buffer has room) and the fruit goes out.
    fn eat_fruit(&mut self)
        requires
            old(self)@.shaped(),
        ensures
            final(self)@ == old(self)@.eat(),
    {
        if self.fruit.active && self.snake[0] == self.fruit.position {
            if self.counter_tail < SNAKE_LENGTH {
                let p = self.snake_position[self.counter_tail - 1];
                self.snake.set(self.counter_tail, p);
                self.counter_tail = self.counter_tail + 1;
            }
            self.fruit.active = false;
        }
    }
}

fn record_into(hist: &mut Vec<Point>, snake: &Vec<Point>, len: usize)
    requires
        old(hist)@.len() == SNAKE_LENGTH,
        snake@.len() == SNAKE_LENGTH,
        len <= SNAKE_LENGTH,
    ensures
        final(hist)@.len() == SNAKE_LENGTH,
        forall|j: int| 0 <= j < len ==> final(hist)@[j] == snake@[j],
        forall|j: int| len <= j < SNAKE_LENGTH ==> final(hist)@[j] == old(hist)@[j],
{
    let mut i: usize = 0;
    while i < len
        invariant
            i <= len <= SNAKE_LENGTH,
            snake@.len() == SNAKE_LENGTH,
            hist@.len() == SNAKE_LENGTH,
            forall|j: int| 0 <= j < i ==> hist@[j] == snake@[j],
            forall|j: int| i <= j < SNAKE_LENGTH ==> hist@[j] == old(hist)@[j],
        decreases len - i,
    {
        hist.set(i, snake[i]);
        i = i + 1;
    }
}

/// From the tail towards the head, each body segment takes the recorded cell
/// of the segment ahead of it.
fn shift_body(snake: &mut Vec<Point>, hist: &Vec<Point>, len: usize)
    requires
        old(snake)@.len() == SNAKE_LENGTH,
        hist@.len() == SNAKE_LENGTH,
        1 <= len <= SNAKE_LENGTH,
    ensures
        final(snake)@.len() == SNAKE_LENGTH,
        forall|j: int| 1 <= j < len ==> final(snake)@[j] == hist@[j - 1],
        forall|j: int| 0 <= j < SNAKE_LENGTH && (j == 0 || len <= j) ==> final(snake)@[j] == old(snake)@[j],
{
    let mut i: usize = len - 1;
    while i > 0
        invariant
            i < len <= SNAKE_LENGTH,
            hist@.len() == SNAKE_LENGTH,
            snake@.len() == SNAKE_LENGTH,
            forall|j: int| i < j < len ==> snake@[j] == hist@[j - 1],
            forall|j: int| 0 <= j < SNAKE_LENGTH && (j <= i || len <= j) ==> snake@[j] == old(snake)@[j],
        decreases i,
    {
        snake.set(i, hist[i - 1]);
        i = i - 1;
    }
}



} // verus!
