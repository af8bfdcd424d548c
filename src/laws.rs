use vstd::prelude::*;
use crate::model::{initial, origin, right, step, GameModel, Input, SNAKE_LENGTH, SQUARE_SIZE};

verus! {

/// The initial state for a window of at least one cell each way keeps the
/// invariant.
pub proof fn lemma_initial_wf(width: i32, height: i32)
    requires
        width >= SQUARE_SIZE,
        height >= SQUARE_SIZE,
    ensures
        initial(width, height).wf(),
{
    let m = initial(width, height);
    assert(m.in_grid(origin()));
    assert forall|i: int| 0 <= i < m.len implies m.in_grid(#[trigger] m.snake[i]) by {}
}

/// The steps of a running frame before the fruit is placed keep the snake on
/// the grid while the game runs, and keep an active fruit off the body (the
/// head may have reached it).
proof fn lemma_advance(p: GameModel, input: Input)
    requires
        p.wf(),
        !p.game_over,
    ensures
        ({
            let a = p.advance(input);
            &&& a.shaped()
            &&& a.len == p.len
            &&& a.fruit == p.fruit
            &&& forall|i: int| 0 <= i < a.len ==> p.in_grid(#[trigger] a.history[i])
            &&& !a.game_over ==> forall|i: int| 0 <= i < a.len ==> a.in_grid(#[trigger] a.snake[i])
            &&& a.fruit.active ==> forall|i: int| 1 <= i < a.len ==> #[trigger] a.snake[i] != a.fruit.position
        }),
{
    let s = p.steer(input);
    let r = s.record();
    assert(s.snake == p.snake && s.len == p.len && s.fruit == p.fruit);
    let a = p.advance(input);
    if r.is_move_frame() {
        let m = r.shift();
        assert forall|i: int| 1 <= i < m.len implies #[trigger] m.snake[i] == p.snake[i - 1] by {}
        if a.fruit.active {
            assert forall|i: int| 1 <= i < a.len implies #[trigger] a.snake[i] != a.fruit.position by {
                assert(p.snake[i - 1] != p.fruit.position);
            }
        }
        if !a.game_over {
            assert forall|i: int| 0 <= i < a.len implies a.in_grid(#[trigger] a.snake[i]) by {
                if i > 0 {
                    assert(p.in_grid(p.snake[i - 1]));
                }
            }
        }
    } else {
        if a.fruit.active {
            assert forall|i: int| 1 <= i < a.len implies #[trigger] a.snake[i] != a.fruit.position by {
                assert(p.snake[i] != p.fruit.position);
            }
        }
    }
    assert forall|i: int| 0 <= i < a.len implies p.in_grid(#[trigger] a.history[i]) by {
        assert(p.in_grid(p.snake[i]));
    }
}

/// Every frame keeps the invariant: while the game runs the live segments stay
/// on the grid, and an active fruit never shares a cell with a live segment.
pub proof fn lemma_frame_keeps_wf(m: GameModel, input: Input, next: GameModel)
    requires
        m.wf(),
        m.frame(input, next),
    ensures
        next.wf(),
{
    if m.game_over {
        if input.confirm {
            lemma_initial_wf(m.width, m.height);
        }
    } else {
        let p = GameModel { pause: m.pause != input.pause, ..m };
        if !p.pause {
            let a = p.advance(input);
            assert(p.run(input, next));
            let q = choose|q: GameModel| #[trigger] a.spawned(q) && next == q.eat().count_frame();
            lemma_advance(p, input);
            let e = q.eat();
            assert(e.shaped());
            if !e.game_over {
                assert forall|i: int| 0 <= i < e.len implies e.in_grid(#[trigger] e.snake[i]) by {
                    if i < a.len {
                        assert(a.in_grid(a.snake[i]));
                    } else {
                        assert(p.in_grid(a.history[a.len - 1]));
                    }
                }
            }
            if e.fruit.active {
                assert forall|i: int| 0 <= i < e.len implies #[trigger] e.snake[i] != e.fruit.position by {
                    if i == 0 {
                    } else {
                        assert(q.snake[i] != q.fruit.position || q.occupied(q.fruit.position));
                    }
                }
            }
        }
    }
}

/// What an unpaused frame of a running game leaves of the steps before the
/// fruit is placed: velocity, latch, flags, history and the live cells.
proof fn lemma_run(p: GameModel, input: Input, next: GameModel)
    requires
        p.shaped(),
        p.run(input, next),
    ensures
        ({
            let a = p.advance(input);
            &&& next.speed == p.steer(input).speed
            &&& next.allow_move == a.allow_move
            &&& next.game_over == a.game_over
            &&& next.history == a.history
            &&& next.width == p.width && next.height == p.height
            &&& next.len == p.len || next.len == p.len + 1
            &&& next.snake.len() == a.snake.len()
            &&& forall|i: int| 0 <= i < p.len ==> #[trigger] next.snake[i] == a.snake[i]
        }),
{
    let a = p.advance(input);
    let q = choose|q: GameModel| #[trigger] a.spawned(q) && next == q.eat().count_frame();
    assert(q.snake == a.snake && q.len == a.len);
}

/// A paused frame without the pause key changes nothing.
pub proof fn lemma_pause_freezes(m: GameModel, input: Input, next: GameModel)
    requires
        m.wf(),
        !m.game_over,
        m.pause,
        !input.pause,
        m.frame(input, next),
    ensures
        next == m,
{
}

/// After a game ends, every frame without the confirm key changes nothing.
pub proof fn lemma_game_over_freezes(m: GameModel, input: Input, next: GameModel)
    requires
        m.wf(),
        m.game_over,
        !input.confirm,
        m.frame(input, next),
    ensures
        next == m,
{
}

/// Confirm after the game ends restores the initial state: one live segment at
/// the grid's first cell heading right, the game running, the fruit out.
pub proof fn lemma_replay_resets(m: GameModel, input: Input, next: GameModel)
    requires
        m.wf(),
        m.game_over,
        input.confirm,
        m.frame(input, next),
    ensures
        next == initial(m.width, m.height),
        next.len == 1,
        !next.game_over,
        !next.pause,
        next.head() == origin(),
        next.speed == right(),
        !next.fruit.active,
{
}

/// A frame never turns the head around: the new velocity is never the
/// opposite of the old one, and while the head moves along one axis, keys for
/// that axis leave the velocity as it is.
pub proof fn lemma_no_reversal(m: GameModel, input: Input, next: GameModel)
    requires
        m.wf(),
        !m.game_over,
        m.frame(input, next),
    ensures
        !(next.speed.x == -m.speed.x && next.speed.y == -m.speed.y),
        m.speed.y == 0 && !input.up && !input.down ==> next.speed == m.speed,
        m.speed.x == 0 && !input.left && !input.right ==> next.speed == m.speed,
{
    let p = GameModel { pause: m.pause != input.pause, ..m };
    if !p.pause {
        lemma_run(p, input, next);
    }
}

/// The steering latch lets at most one turn through per movement tick: a turn
/// needs the latch open, a turn closes it, and only a frame that moves the
/// snake opens it again.
pub proof fn lemma_one_turn_per_tick(m: GameModel, input: Input, next: GameModel)
    requires
        m.wf(),
        !m.game_over,
        m.frame(input, next),
    ensures
        next.speed != m.speed ==> m.allow_move,
        !m.moves(input) && !m.allow_move ==> !next.allow_move,
        !m.moves(input) && next.speed != m.speed ==> !next.allow_move,
        m.moves(input) ==> next.allow_move,
{
    let p = GameModel { pause: m.pause != input.pause, ..m };
    if !p.pause {
        lemma_run(p, input, next);
    }
}

/// On a movement frame each body segment moves onto the cell its predecessor
/// held before the frame, the head steps once by its (possibly turned)
/// velocity, and the history holds the cells from before the frame.
pub proof fn lemma_shift_by_one(m: GameModel, input: Input, next: GameModel)
    requires
        m.wf(),
        !m.game_over,
        m.moves(input),
        m.frame(input, next),
    ensures
        next.head() == step(m.head(), next.speed),
        forall|i: int| 1 <= i < m.len ==> #[trigger] next.snake[i] == m.snake[i - 1],
        forall|i: int| 0 <= i < m.len ==> #[trigger] next.history[i] == m.snake[i],
{
    let p = GameModel { pause: m.pause != input.pause, ..m };
    lemma_run(p, input, next);
    assert forall|i: int| 1 <= i < m.len implies #[trigger] next.snake[i] == m.snake[i - 1] by {
        assert(next.snake[i] == p.advance(input).snake[i]);
    }
}

/// A head that reaches the fruit eats it: the snake gains exactly one segment,
/// on the cell where its tail was recorded before the frame, and the fruit goes
/// out.
pub proof fn lemma_eating_grows(m: GameModel, input: Input, next: GameModel)
    requires
        m.wf(),
        !m.game_over,
        m.pause == input.pause,
        m.fruit.active,
        m.len < SNAKE_LENGTH,
        m.frame(input, next),
        next.head() == m.fruit.position,
    ensures
        next.len == m.len + 1,
        !next.fruit.active,
        next.snake[m.len as int] == m.snake[m.len - 1],
{
    let p = GameModel { pause: m.pause != input.pause, ..m };
    let a = p.advance(input);
    assert(p.run(input, next));
    let q = choose|q: GameModel| #[trigger] a.spawned(q) && next == q.eat().count_frame();
    assert(q == a);
}

/// A movement frame that takes the head off the grid ends the game; so does
/// one that takes it onto a cell of its body other than the last one.
pub proof fn lemma_collisions_end_game(m: GameModel, input: Input, next: GameModel)
    requires
        m.wf(),
        !m.game_over,
        m.moves(input),
        m.frame(input, next),
    ensures
        !m.in_grid(step(m.head(), next.speed)) ==> next.game_over,
        (exists|i: int| 0 <= i < m.len - 1 && m.snake[i] == step(m.head(), next.speed))
            ==> next.game_over,
{
    let p = GameModel { pause: m.pause != input.pause, ..m };
    let a = p.advance(input);
    lemma_run(p, input, next);
    let h = step(m.head(), next.speed);
    if exists|i: int| 0 <= i < m.len - 1 && m.snake[i] == h {
        let i = choose|i: int| 0 <= i < m.len - 1 && m.snake[i] == h;
        let r = p.steer(input).record();
        assert(r.shift().snake[i + 1] == m.snake[i]);
        assert(a.hits_itself());
    }
}

/// A head on the last column heading right ends the game at the next move.
pub proof fn lemma_wall_on_the_right(m: GameModel, input: Input, next: GameModel)
    requires
        m.wf(),
        !m.game_over,
        m.moves(input),
        m.speed == right(),
        !input.up,
        !input.down,
        m.head().x == m.cols() - 1,
        m.frame(input, next),
    ensures
        next.game_over,
{
    lemma_no_reversal(m, input, next);
    lemma_collisions_end_game(m, input, next);
}

} // verus!
