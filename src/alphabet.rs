//! Glyph generation: the configuration, the random-walk attempts, and the
//! glyph they produce.

use vstd::prelude::*;

use crate::grid::{Line, Point};
use crate::stream::{coin_draw, coin_record, draw_coin, draw_range, range_draw, Stream};
use crate::symmetry::{all_on_grid, expand, expand_symmetry, Motif, Symmetry};

verus! {

/// Why a configuration was refused.
#[derive(Clone, Copy, Debug, PartialEq, Eq, Structural)]
pub enum ConfigError {
    /// The grid needs at least two positions per axis.
    ResolutionTooSmall,
    /// At least one attempt per grid position is needed.
    DensityTooSmall,
    /// `density * resolution` does not fit in an `i32`.
    TooManyAttempts,
}

/// The values drawn from the stream for one attempt at a segment.
///
/// `step_x` and `step_y` are the ternary steps drawn for each axis; they
/// count only where the motif draws one (see [`Alphabet::draws_step_x`]).
#[derive(Clone, Copy, Debug, PartialEq, Eq, Structural)]
pub struct Attempt {
    pub coin_x: bool,
    pub coin_y: bool,
    pub start: Point,
    pub step_x: i32,
    pub step_y: i32,
}

/// A generated glyph: its segments in order, and the seed that produced them.
#[derive(Debug)]
pub struct Glyph {
    seed: u64,
    lines: Vec<Line>,
}

impl Glyph {
    /// The seed the glyph was made from.
    pub closed spec fn seed_spec(&self) -> u64 {
        self.seed
    }

    /// The glyph's segments, in order.
    pub closed spec fn lines_spec(&self) -> Seq<Line> {
        self.lines@
    }

    pub fn new(seed: u64, lines: Vec<Line>) -> (r: Glyph)
        ensures
            r.seed_spec() == seed,
            r.lines_spec() == lines@,
    {
        Glyph { seed, lines }
    }

    pub fn seed(&self) -> (r: u64)
        ensures
            r == self.seed_spec(),
    {
        self.seed
    }

    pub fn lines(&self) -> (r: &[Line])
        ensures
            r@ == self.lines_spec(),
    {
        self.lines.as_slice()
    }
}

/// `v` brought into `[0, last]`.
pub open spec fn clamp(v: int, last: int) -> int {
    if v < 0 {
        0
    } else if v > last {
        last
    } else {
        v
    }
}

/// Whether some segment of `lines` joins the same two points as `l`.
pub open spec fn contains_segment(lines: Seq<Line>, l: Line) -> bool {
    exists|i: int| 0 <= i < lines.len() && #[trigger] lines[i].same_segment_spec(l)
}

/// A glyph configuration: a stateless factory of glyphs, one for each seed.
///
/// With `suppress_duplicates` an accepted segment that joins the same two
/// points as an earlier one (in either direction) is dropped; by default all
/// non-degenerate segments are kept.
#[derive(Clone, Copy, Debug)]
pub struct Alphabet {
    /// The number of grid positions along each axis.
    pub resolution: i32,
    /// The number of attempts per grid position.
    pub density: i32,
    pub symmetry: Symmetry,
    pub motif: Motif,
    /// The number of attempts per glyph, `density * resolution`.
    pub num_lines: i32,
    pub suppress_duplicates: bool,
}

impl Alphabet {
    pub open spec fn wf(self) -> bool {
        &&& self.resolution >= 2
        &&& self.density >= 1
        &&& self.num_lines == self.density * self.resolution
    }

    /// The largest grid index, `resolution - 1`: index `k` stands for `k / last`.
    pub open spec fn last(self) -> nat {
        (self.resolution - 1) as nat
    }

    /// An attempt whose start lies on the grid and whose steps are ternary.
    pub open spec fn attempt_ok(self, a: Attempt) -> bool {
        &&& a.start.on_grid(self.last())
        &&& -1 <= a.step_x <= 1
        &&& -1 <= a.step_y <= 1
    }

    pub open spec fn attempts_ok(self, attempts: Seq<Attempt>) -> bool {
        forall|i: int| 0 <= i < attempts.len() ==> #[trigger] self.attempt_ok(attempts[i])
    }

    /// Whether a ternary step is drawn for the x axis. Under the orthogonal
    /// motif the first coin picks the axis, and no step is drawn at the border.
    pub open spec fn draws_step_x(self, a: Attempt) -> bool {
        match self.motif {
            Motif::Orthogonal => a.coin_x && a.start.x != 0 && a.start.x != self.last(),
            Motif::Diagonal => a.coin_x,
        }
    }

    /// Whether a ternary step is drawn for the y axis.
    pub open spec fn draws_step_y(self, a: Attempt) -> bool {
        match self.motif {
            Motif::Orthogonal => !a.coin_x && a.start.y != 0 && a.start.y != self.last(),
            Motif::Diagonal => a.coin_y,
        }
    }

    /// The displacement along x, in grid steps, before clamping.
    pub open spec fn offset_x(self, a: Attempt) -> int {
        match self.motif {
            Motif::Orthogonal => if !a.coin_x {
                0
            } else if a.start.x == 0 {
                1
            } else if a.start.x == self.last() {
                -1
            } else {
                a.step_x as int
            },
            Motif::Diagonal => if a.coin_x {
                a.step_x as int
            } else {
                0
            },
        }
    }

    /// The displacement along y, in grid steps, before clamping.
    pub open spec fn offset_y(self, a: Attempt) -> int {
        match self.motif {
            Motif::Orthogonal => if a.coin_x {
                0
            } else if a.start.y == 0 {
                1
            } else if a.start.y == self.last() {
                -1
            } else {
                a.step_y as int
            },
            Motif::Diagonal => if a.coin_y {
                a.step_y as int
            } else {
                0
            },
        }
    }

    /// The end point: the start moved by the offset, clamped to the grid.
    pub open spec fn end_of(self, a: Attempt) -> Point {
        Point {
            x: clamp(a.start.x + self.offset_x(a), self.last() as int) as u32,
            y: clamp(a.start.y + self.offset_y(a), self.last() as int) as u32,
        }
    }

    /// The segment an attempt yields, or none when its ends coincide.
    pub open spec fn candidate(self, a: Attempt) -> Option<Line> {
        let end = self.end_of(a);
        if end == a.start {
            None
        } else {
            Some(Line { start: a.start, end })
        }
    }

    /// The segments accepted from a run of attempts, in order, before symmetry.
    pub open spec fn base_lines(self, attempts: Seq<Attempt>) -> Seq<Line>
        decreases attempts.len(),
    {
        if attempts.len() == 0 {
            Seq::empty()
        } else {
            let before = self.base_lines(attempts.drop_last());
            match self.candidate(attempts.last()) {
                Some(l) => if self.suppress_duplicates && contains_segment(before, l) {
                    before
                } else {
                    before.push(l)
                },
                None => before,
            }
        }
    }

    /// The glyph's segments: the accepted ones, then their mirrors.
    pub open spec fn glyph_lines(self, attempts: Seq<Attempt>) -> Seq<Line> {
        expand(self.symmetry, self.base_lines(attempts), self.last())
    }

    /// One attempt drawn from a stream seeded with `seed` after the draws
    /// `drawn`, with the history after it: two coins, the start's x and y,
    /// then the x step and the y step where the motif draws them.
    pub open spec fn draw_one(self, seed: u64, drawn: Seq<(int, int)>) -> (Attempt, Seq<(int, int)>) {
        let res = self.resolution as int;
        let coin_x = coin_draw(seed, drawn);
        let d1 = drawn.push(coin_record());
        let coin_y = coin_draw(seed, d1);
        let d2 = d1.push(coin_record());
        let x = range_draw(seed, d2, 0, res);
        let d3 = d2.push((0, res));
        let y = range_draw(seed, d3, 0, res);
        let d4 = d3.push((0, res));
        let start = Point { x: x as u32, y: y as u32 };
        let bare = Attempt { coin_x, coin_y, start, step_x: 0, step_y: 0 };
        let step_x = if self.draws_step_x(bare) {
            range_draw(seed, d4, -1, 2) as i32
        } else {
            0
        };
        let d5 = if self.draws_step_x(bare) {
            d4.push((-1, 2))
        } else {
            d4
        };
        let step_y = if self.draws_step_y(bare) {
            range_draw(seed, d5, -1, 2) as i32
        } else {
            0
        };
        let d6 = if self.draws_step_y(bare) {
            d5.push((-1, 2))
        } else {
            d5
        };
        (Attempt { coin_x, coin_y, start, step_x, step_y }, d6)
    }

    /// The first `n` attempts drawn from a fresh stream seeded with `seed`,
    /// with the history of draws they leave.
    pub open spec fn replay(self, seed: u64, n: nat) -> (Seq<Attempt>, Seq<(int, int)>)
        decreases n,
    {
        if n == 0 {
            (Seq::empty(), Seq::empty())
        } else {
            let (before, drawn) = self.replay(seed, (n - 1) as nat);
            let (a, after) = self.draw_one(seed, drawn);
            (before.push(a), after)
        }
    }

    /// The attempts a glyph is built from: a function of the configuration
    /// and the seed alone.
    pub open spec fn drawn_attempts(self, seed: u64) -> Seq<Attempt> {
        self.replay(seed, self.num_lines as nat).0
    }

    /// A configuration that keeps duplicate segments. Refused when the grid
    /// has fewer than two positions per axis, when `density` is below one, or
    /// when the attempt count `density * resolution` does not fit in an `i32`.
    pub fn new(resolution: i32, density: i32, symmetry: Symmetry, motif: Motif) -> (r: Result<
        Alphabet,
        ConfigError,
    >)
        ensures
            resolution < 2 ==> r == Err::<Alphabet, ConfigError>(ConfigError::ResolutionTooSmall),
            resolution >= 2 && density < 1 ==> r == Err::<Alphabet, ConfigError>(
                ConfigError::DensityTooSmall,
            ),
            resolution >= 2 && density >= 1 && density * resolution > i32::MAX ==> r == Err::<
                Alphabet,
                ConfigError,
            >(ConfigError::TooManyAttempts),
            resolution >= 2 && density >= 1 && density * resolution <= i32::MAX ==> r == Ok::<
                Alphabet,
                ConfigError,
            >(
                (Alphabet {
                    resolution,
                    density,
                    symmetry,
                    motif,
                    num_lines: (density * resolution) as i32,
                    suppress_duplicates: false,
                }),
            ),
            r matches Ok(a) ==> a.wf(),
    {
        if resolution < 2 {
            return Err(ConfigError::ResolutionTooSmall);
        }
        if density < 1 {
            return Err(ConfigError::DensityTooSmall);
        }
        assert(0 < density as int * resolution as int <= 0x4000_0000_0000_0000) by (nonlinear_arith)
            requires
                1 <= density <= i32::MAX,
                2 <= resolution <= i32::MAX,
        ;
        let product: i64 = density as i64 * resolution as i64;
        if product > i32::MAX as i64 {
            return Err(ConfigError::TooManyAttempts);
        }
        Ok(
            Alphabet {
                resolution,
                density,
                symmetry,
                motif,
                num_lines: product as i32,
                suppress_duplicates: false,
            },
        )
    }

    /// The same configuration with the duplicate policy set to `suppress`.
    pub fn with_suppress_duplicates(self, suppress: bool) -> (r: Alphabet)
        ensures
            r == (Alphabet { suppress_duplicates: suppress, ..self }),
    {
        Alphabet { suppress_duplicates: suppress, ..self }
    }

    /// The segment that one attempt yields, or `None` when it is degenerate.
    pub fn candidate_line(&self, a: &Attempt) -> (r: Option<Line>)
        requires
            self.wf(),
            self.attempt_ok(*a),
        ensures
            r == self.candidate(*a),
    {
        let last: i64 = self.resolution as i64 - 1;
        let sx: i64 = a.start.x as i64;
        let sy: i64 = a.start.y as i64;
        let dx: i64;
        let dy: i64;
        match self.motif {
            Motif::Orthogonal => {
                if a.coin_x {
                    dx = if sx == 0 {
                        1
                    } else if sx == last {
                        -1
                    } else {
                        a.step_x as i64
                    };
                    dy = 0;
                } else {
                    dx = 0;
                    dy = if sy == 0 {
                        1
                    } else if sy == last {
                        -1
                    } else {
                        a.step_y as i64
                    };
                }
            },
            Motif::Diagonal => {
                dx = if a.coin_x {
                    a.step_x as i64
                } else {
                    0
                };
                dy = if a.coin_y {
                    a.step_y as i64
                } else {
                    0
                };
            },
        }
        let end = Point { x: clamp_index(sx + dx, last), y: clamp_index(sy + dy, last) };
        if end == a.start {
            None
        } else {
            Some(Line { start: a.start, end })
        }
    }

    /// The segments accepted from `attempts`, in order, before symmetry.
    pub fn accepted_lines(&self, attempts: &Vec<Attempt>) -> (r: Vec<Line>)
        requires
            self.wf(),
            self.attempts_ok(attempts@),
        ensures
            r@ == self.base_lines(attempts@),
    {
        let mut out: Vec<Line> = Vec::new();
        let mut i: usize = 0;
        while i < attempts.len()
            invariant
                self.wf(),
                self.attempts_ok(attempts@),
                0 <= i <= attempts@.len(),
                out@ == self.base_lines(attempts@.subrange(0, i as int)),
            decreases attempts@.len() - i,
        {
            let ghost prefix = attempts@.subrange(0, i as int + 1);
            assert(prefix.drop_last() =~= attempts@.subrange(0, i as int));
            assert(prefix.last() == attempts@[i as int]);
            assert(self.attempt_ok(attempts@[i as int]));
            match self.candidate_line(&attempts[i]) {
                Some(l) => {
                    if !(self.suppress_duplicates && has_segment(&out, &l)) {
                        out.push(l);
                    }
                },
                None => {},
            }
            i += 1;
        }
        assert(attempts@.subrange(0, attempts@.len() as int) =~= attempts@);
        out
    }

    /// The glyph that `attempts` produce: the accepted segments, expanded by
    /// the configured symmetry.
    pub fn glyph_from_attempts(&self, seed: u64, attempts: &Vec<Attempt>) -> (g: Glyph)
        requires
            self.wf(),
            self.attempts_ok(attempts@),
        ensures
            g.seed_spec() == seed,
            g.lines_spec() == self.glyph_lines(attempts@),
    {
        let base = self.accepted_lines(attempts);
        proof {
            lemma_base_lines_shape(*self, attempts@);
        }
        let lines = expand_symmetry(self.symmetry, base, (self.resolution - 1) as u32);
        Glyph { seed, lines }
    }

    /// Draws one attempt from the stream, in the order the motif asks for:
    /// two coins, the start's x and y, then the steps that are needed.
    fn draw_attempt(&self, rng: &mut Stream) -> (a: Attempt)
        requires
            self.wf(),
        ensures
            self.attempt_ok(a),
            (a, final(rng).drawn()) == self.draw_one(old(rng).seed(), old(rng).drawn()),
            final(rng).seed() == old(rng).seed(),
    {
        let coin_x = draw_coin(rng);
        let coin_y = draw_coin(rng);
        let x = draw_range(rng, 0, self.resolution);
        let y = draw_range(rng, 0, self.resolution);
        let start = Point { x: x as u32, y: y as u32 };
        let last = (self.resolution - 1) as u32;
        let (wants_x, wants_y) = match self.motif {
            Motif::Orthogonal => (
                coin_x && start.x != 0 && start.x != last,
                !coin_x && start.y != 0 && start.y != last,
            ),
            Motif::Diagonal => (coin_x, coin_y),
        };
        let step_x = if wants_x {
            draw_range(rng, -1, 2)
        } else {
            0
        };
        let step_y = if wants_y {
            draw_range(rng, -1, 2)
        } else {
            0
        };
        Attempt { coin_x, coin_y, start, step_x, step_y }
    }

    /// Generates the glyph for `seed`: `num_lines` attempts drawn from a
    /// stream seeded with it, then the glyph they produce.
    pub fn generate(&self, seed: u64) -> (g: Glyph)
        requires
            self.wf(),
        ensures
            g.seed_spec() == seed,
            g.lines_spec() == self.glyph_lines(self.drawn_attempts(seed)),
            self.drawn_attempts(seed).len() == self.num_lines,
            self.attempts_ok(self.drawn_attempts(seed)),
    {
        let mut rng = Stream::new(seed);
        let mut attempts: Vec<Attempt> = Vec::new();
        let mut i: i32 = 0;
        while i < self.num_lines
            invariant
                self.wf(),
                0 <= i <= self.num_lines,
                attempts@.len() == i,
                self.attempts_ok(attempts@),
                rng.seed() == seed,
                (attempts@, rng.drawn()) == self.replay(seed, i as nat),
            decreases self.num_lines - i,
        {
            let a = self.draw_attempt(&mut rng);
            attempts.push(a);
            assert(attempts@.last() == a);
            i += 1;
        }
        self.glyph_from_attempts(seed, &attempts)
    }
}

/// `v` clamped to `[0, last]`.
fn clamp_index(v: i64, last: i64) -> (r: u32)
    requires
        0 <= last <= u32::MAX,
    ensures
        r == clamp(v as int, last as int),
{
    if v < 0 {
        0
    } else if v > last {
        last as u32
    } else {
        v as u32
    }
}

/// Whether some segment of `lines` joins the same two points as `l`.
fn has_segment(lines: &Vec<Line>, l: &Line) -> (r: bool)
    ensures
        r == contains_segment(lines@, *l),
{
    let mut i: usize = 0;
    while i < lines.len()
        invariant
            0 <= i <= lines@.len(),
            forall|j: int| 0 <= j < i ==> !(#[trigger] lines@[j]).same_segment_spec(*l),
        decreases lines@.len() - i,
    {
        if lines[i].same_segment(l) {
            assert(lines@[i as int].same_segment_spec(*l));
            return true;
        }
        i += 1;
    }
    false
}

/// The accepted segments of valid attempts lie on the grid, are never
/// degenerate, and are at most as many as the attempts.
pub proof fn lemma_base_lines_shape(alphabet: Alphabet, attempts: Seq<Attempt>)
    requires
        alphabet.wf(),
        alphabet.attempts_ok(attempts),
    ensures
        all_on_grid(alphabet.base_lines(attempts), alphabet.last()),
        forall|i: int|
            0 <= i < alphabet.base_lines(attempts).len() ==> !(
            #[trigger] alphabet.base_lines(attempts)[i]).is_degenerate(),
        alphabet.base_lines(attempts).len() <= attempts.len(),
    decreases attempts.len(),
{
    if attempts.len() > 0 {
        let rest = attempts.drop_last();
        assert(alphabet.attempts_ok(rest)) by {
            assert forall|i: int| 0 <= i < rest.len() implies #[trigger] alphabet.attempt_ok(
                rest[i],
            ) by {
                assert(rest[i] == attempts[i]);
            }
        }
        lemma_base_lines_shape(alphabet, rest);
        assert(alphabet.attempt_ok(attempts[attempts.len() - 1]));
        let before = alphabet.base_lines(rest);
        let all = alphabet.base_lines(attempts);
        match alphabet.candidate(attempts.last()) {
            Some(l) => {
                if !(alphabet.suppress_duplicates && contains_segment(before, l)) {
                    assert(all == before.push(l));
                    assert forall|i: int| 0 <= i < all.len() implies #[trigger] all[i].on_grid(
                        alphabet.last(),
                    ) by {
                        if i < before.len() {
                            assert(all[i] == before[i]);
                        }
                    }
                }
            },
            None => {},
        }
    }
}

} // verus!
