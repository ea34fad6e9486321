//! Conway's game of life on a small torus: a random board and the board one
//! generation later, drawn with moon faces.
use vstd::prelude::*;

use crate::interactions::{InteractionCallbackData, InteractionData, InteractionResponse};

verus! {

/// The board is `SIZE` by `SIZE` cells.
pub const SIZE: usize = 10;

/// A board, row by row: cell `(x, y)` is at `x * SIZE + y`.
pub open spec fn is_board(g: Seq<bool>) -> bool {
    g.len() == SIZE * SIZE
}

/// The cell at `(x, y)`, the board wrapping round at both edges.
pub open spec fn cell(g: Seq<bool>, x: int, y: int) -> bool {
    g[(x % (SIZE as int)) * (SIZE as int) + (y % (SIZE as int))]
}

pub open spec fn alive(g: Seq<bool>, x: int, y: int) -> nat {
    if cell(g, x, y) {
        1
    } else {
        0
    }
}

/// The live cells among `(x, y)` and its eight neighbours.
pub open spec fn neighborhood(g: Seq<bool>, x: int, y: int) -> nat {
    alive(g, x - 1, y - 1) + alive(g, x - 1, y) + alive(g, x - 1, y + 1) + alive(g, x, y - 1)
        + alive(g, x, y + 1) + alive(g, x + 1, y - 1) + alive(g, x + 1, y) + alive(
        g,
        x + 1,
        y + 1,
    ) + alive(g, x, y)
}

/// The board after the first `k` cells, in row order, have been updated in
/// place: a cell whose neighbourhood holds three live cells lives, one whose
/// neighbourhood holds four keeps its state, any other dies. Each cell is
/// judged on the board as updated so far.
pub open spec fn step(g: Seq<bool>, k: nat) -> Seq<bool>
    decreases k,
{
    if k == 0 {
        g
    } else {
        let prev = step(g, (k - 1) as nat);
        let x = (k - 1) / (SIZE as int);
        let y = (k - 1) % (SIZE as int);
        let n = neighborhood(prev, x, y);
        if n == 3 {
            prev.update(k - 1, true)
        } else if n == 4 {
            prev
        } else {
            prev.update(k - 1, false)
        }
    }
}

/// The next generation of a board.
pub open spec fn next_generation_spec(g: Seq<bool>) -> Seq<bool> {
    step(g, (SIZE * SIZE) as nat)
}

proof fn lemma_step_len(g: Seq<bool>, k: nat)
    requires
        is_board(g),
        k <= SIZE * SIZE,
    ensures
        is_board(step(g, k)),
    decreases k,
{
    if k > 0 {
        lemma_step_len(g, (k - 1) as nat);
    }
}

/// A random board.
fn rand_matrix() -> (r: Vec<bool>)
    ensures
        is_board(r@),
{
    let mut r: Vec<bool> = Vec::new();
    let mut k: usize = 0;
    while k < SIZE * SIZE
        invariant
            k <= SIZE * SIZE,
            r@.len() == k,
        decreases SIZE * SIZE - k,
    {
        let b: bool = rand::random();
        r.push(b);
        k = k + 1;
    }
    r
}

/// The cell at `(x, y)`, wrapping round at both edges.
fn toroidal(grid: &Vec<bool>, x: i8, y: i8) -> (r: bool)
    requires
        is_board(grid@),
    ensures
        r == cell(grid@, x as int, y as int),
{
    let sz: i16 = SIZE as i16;
    let xm = (((x as i16) % sz + sz) % sz) as usize;
    let ym = (((y as i16) % sz + sz) % sz) as usize;
    assert(xm == (x as int) % (SIZE as int));
    assert(ym == (y as int) % (SIZE as int));
    grid[xm * SIZE + ym]
}

/// The live cells among `(x, y)` and its eight neighbours.
fn get_neighbor_count(grid: &Vec<bool>, x: i8, y: i8) -> (r: u8)
    requires
        is_board(grid@),
        0 <= x < SIZE,
        0 <= y < SIZE,
    ensures
        r == neighborhood(grid@, x as int, y as int),
{
    let cells: [(i8, i8); 9] = [
        (x - 1, y - 1),
        (x - 1, y),
        (x - 1, y + 1),
        (x, y - 1),
        (x, y + 1),
        (x + 1, y - 1),
        (x + 1, y),
        (x + 1, y + 1),
        (x, y),
    ];
    let mut count: u8 = 0;
    let mut k: usize = 0;
    while k < 9
        invariant
            k <= 9,
            count <= k,
            is_board(grid@),
            count == seq_alive(grid@, cells@, k as nat),
        decreases 9 - k,
    {
        let (a, b) = cells[k];
        if toroidal(grid, a, b) {
            count = count + 1;
        }
        k = k + 1;
    }
    proof {
        reveal_with_fuel(seq_alive, 10);
        assert(cells@[0].0 == x - 1 && cells@[0].1 == y - 1);
        assert(cells@[8].0 == x && cells@[8].1 == y);
    }
    count
}

/// The live cells among the first `k` of `cells`.
pub open spec fn seq_alive(g: Seq<bool>, cells: Seq<(i8, i8)>, k: nat) -> nat
    decreases k,
{
    if k == 0 || k > cells.len() {
        0
    } else {
        seq_alive(g, cells, (k - 1) as nat) + alive(
            g,
            cells[k - 1].0 as int,
            cells[k - 1].1 as int,
        )
    }
}

/// The next generation, computed in place in row order.
fn next_generation(grid: &Vec<bool>) -> (r: Vec<bool>)
    requires
        is_board(grid@),
    ensures
        r@ == next_generation_spec(grid@),
{
    let mut next_gen: Vec<bool> = Vec::new();
    let mut k: usize = 0;
    while k < grid.len()
        invariant
            k <= grid@.len(),
            next_gen@ == grid@.take(k as int),
        decreases grid@.len() - k,
    {
        next_gen.push(grid[k]);
        k = k + 1;
        assert(next_gen@ =~= grid@.take(k as int));
    }
    assert(grid@.take(k as int) =~= grid@);
    let mut i: usize = 0;
    while i < SIZE
        invariant
            i <= SIZE,
            is_board(grid@),
            next_gen@ == step(grid@, (i * SIZE) as nat),
        decreases SIZE - i,
    {
        let mut j: usize = 0;
        while j < SIZE
            invariant
                i < SIZE,
                j <= SIZE,
                is_board(grid@),
                next_gen@ == step(grid@, (i * SIZE + j) as nat),
            decreases SIZE - j,
        {
            proof {
                lemma_step_len(grid@, (i * SIZE + j) as nat);
            }
            let count = get_neighbor_count(&next_gen, i as i8, j as i8);
            let at = i * SIZE + j;
            assert((at as int) / (SIZE as int) == i as int);
            assert((at as int) % (SIZE as int) == j as int);
            if count == 3 {
                next_gen.set(at, true);
            } else if count == 4 {
            } else {
                next_gen.set(at, false);
            }
            j = j + 1;
        }
        i = i + 1;
    }
    next_gen
}

/// A full moon for a live cell, a new moon for a dead one.
pub open spec fn emote(value: bool) -> Seq<char> {
    if value {
        seq!['\u{1f31d}']
    } else {
        seq!['\u{1f31a}']
    }
}

fn bool_to_emote(value: bool) -> (r: &'static str)
    ensures
        r@ == emote(value),
{
    proof {
        reveal_strlit("\u{1f31d}");
        reveal_strlit("\u{1f31a}");
    }
    if value {
        return "\u{1f31d}";
    }
    "\u{1f31a}"
}

/// The first `n` cells of row `x`, drawn.
pub open spec fn row_text(g: Seq<bool>, x: int, n: nat) -> Seq<char>
    decreases n,
{
    if n == 0 {
        seq![]
    } else {
        row_text(g, x, (n - 1) as nat) + emote(g[x * (SIZE as int) + n - 1])
    }
}

/// The first `m` rows of a board, drawn, each ending a line.
pub open spec fn grid_text(g: Seq<bool>, m: nat) -> Seq<char>
    decreases m,
{
    if m == 0 {
        seq![]
    } else {
        grid_text(g, (m - 1) as nat) + row_text(g, m - 1, SIZE as nat) + seq!['\n']
    }
}

/// Appends row `x` of the board, drawn.
fn array_to_emotes(out: &mut String, grid: &Vec<bool>, x: usize)
    requires
        is_board(grid@),
        x < SIZE,
    ensures
        final(out)@ == old(out)@ + row_text(grid@, x as int, SIZE as nat),
{
    let mut y: usize = 0;
    while y < SIZE
        invariant
            y <= SIZE,
            x < SIZE,
            is_board(grid@),
            out@ == old(out)@ + row_text(grid@, x as int, y as nat),
        decreases SIZE - y,
    {
        out.append(bool_to_emote(grid[x * SIZE + y]));
        y = y + 1;
        assert(out@ =~= old(out)@ + row_text(grid@, x as int, y as nat));
    }
}

/// Appends the board, drawn row by row.
fn grid_to_emotes(out: &mut String, grid: &Vec<bool>)
    requires
        is_board(grid@),
    ensures
        final(out)@ == old(out)@ + grid_text(grid@, SIZE as nat),
{
    let mut x: usize = 0;
    while x < SIZE
        invariant
            x <= SIZE,
            is_board(grid@),
            out@ == old(out)@ + grid_text(grid@, x as nat),
        decreases SIZE - x,
    {
        array_to_emotes(out, grid, x);
        out.append("\n");
        proof {
            reveal_strlit("\n");
        }
        x = x + 1;
        assert(out@ =~= old(out)@ + grid_text(grid@, x as nat));
    }
}

/// A board and its next generation, drawn one above the other.
pub open spec fn life_text(g: Seq<bool>) -> Seq<char> {
    grid_text(g, SIZE as nat) + seq!['\n', ' ', '\n'] + grid_text(
        next_generation_spec(g),
        SIZE as nat,
    )
}

/// Draws `grid` and its next generation.
pub fn life_text_of(grid: &Vec<bool>) -> (r: String)
    requires
        is_board(grid@),
    ensures
        r@ == life_text(grid@),
{
    let next_grid = next_generation(grid);
    proof {
        lemma_step_len(grid@, (SIZE * SIZE) as nat);
        reveal_strlit("\n \n");
    }
    let mut r = String::new();
    grid_to_emotes(&mut r, grid);
    r.append("\n \n");
    grid_to_emotes(&mut r, &next_grid);
    assert(r@ =~= life_text(grid@));
    r
}

/// A random board and its next generation, drawn.
pub fn random_life_text() -> (r: String)
    ensures
        exists|g: Seq<bool>| is_board(g) && r@ == #[trigger] life_text(g),
{
    let griddy = rand_matrix();
    life_text_of(&griddy)
}

/// The reply of the game of life command: a random board and its next
/// generation, drawn.
pub fn game_of_life(data: &InteractionData) -> (r: InteractionCallbackData)
    ensures
        r matches InteractionCallbackData::Message(m) && exists|g: Seq<bool>|
            is_board(g) && m.content@ == #[trigger] life_text(g),
{
    let output = random_life_text();
    InteractionCallbackData::Message(InteractionResponse::message().content(output.as_str()))
}

} // verus!
