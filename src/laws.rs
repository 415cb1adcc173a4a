//! Properties that hold of every glyph, for every value the stream may draw.

use vstd::prelude::*;

use crate::alphabet::{lemma_base_lines_shape, Alphabet, Attempt};
use crate::grid::Line;
use crate::symmetry::{all_on_grid, expand, expand_x, mirror_all_x, mirror_all_y, Motif};

verus! {

pub open spec fn none_degenerate(lines: Seq<Line>) -> bool {
    forall|i: int| 0 <= i < lines.len() ==> !(#[trigger] lines[i]).is_degenerate()
}

proof fn lemma_mirrors_keep_shape(lines: Seq<Line>, last: nat)
    requires
        last <= u32::MAX,
        all_on_grid(lines, last),
        none_degenerate(lines),
    ensures
        none_degenerate(lines + mirror_all_x(lines, last)),
        none_degenerate(lines + mirror_all_y(lines, last)),
        all_on_grid(lines + mirror_all_x(lines, last), last),
        all_on_grid(lines + mirror_all_y(lines, last), last),
{
    let ax = lines + mirror_all_x(lines, last);
    let ay = lines + mirror_all_y(lines, last);
    assert forall|i: int| 0 <= i < ax.len() implies !(#[trigger] ax[i]).is_degenerate()
        && ax[i].on_grid(last) by {
        if i >= lines.len() {
            let l = lines[i - lines.len()];
            assert(l.on_grid(last) && !l.is_degenerate());
            assert(l.start.x <= last && l.end.x <= last && l.start.y <= last && l.end.y <= last);
            assert(ax[i] == l.mirror_x(last));
        } else {
            assert(ax[i] == lines[i]);
        }
    }
    assert forall|i: int| 0 <= i < ay.len() implies !(#[trigger] ay[i]).is_degenerate()
        && ay[i].on_grid(last) by {
        if i >= lines.len() {
            let l = lines[i - lines.len()];
            assert(l.on_grid(last) && !l.is_degenerate());
            assert(l.start.x <= last && l.end.x <= last && l.start.y <= last && l.end.y <= last);
            assert(ay[i] == l.mirror_y(last));
        } else {
            assert(ay[i] == lines[i]);
        }
    }
}

/// No segment of a glyph is degenerate, and every coordinate of every segment
/// is a grid index in `[0, resolution - 1]`, mirrors included.
pub proof fn lemma_glyph_segments_valid(alphabet: Alphabet, attempts: Seq<Attempt>)
    requires
        alphabet.wf(),
        alphabet.attempts_ok(attempts),
    ensures
        none_degenerate(alphabet.glyph_lines(attempts)),
        all_on_grid(alphabet.glyph_lines(attempts), alphabet.last()),
{
    let last = alphabet.last();
    let base = alphabet.base_lines(attempts);
    lemma_base_lines_shape(alphabet, attempts);
    lemma_mirrors_keep_shape(base, last);
    let h = expand_x(alphabet.symmetry, base, last);
    assert(none_degenerate(h) && all_on_grid(h, last));
    lemma_mirrors_keep_shape(h, last);
}

/// Before symmetry a glyph has at most one segment per attempt, hence at most
/// `density * resolution`; symmetry multiplies that count by exactly 1, 2, 2
/// or 4 for the asymmetric, horizontal, vertical and two-way modes.
pub proof fn lemma_segment_count(alphabet: Alphabet, attempts: Seq<Attempt>)
    requires
        alphabet.wf(),
        alphabet.attempts_ok(attempts),
        attempts.len() == alphabet.num_lines,
    ensures
        alphabet.base_lines(attempts).len() <= alphabet.density * alphabet.resolution,
        alphabet.glyph_lines(attempts).len() == alphabet.symmetry.factor()
            * alphabet.base_lines(attempts).len(),
{
    lemma_base_lines_shape(alphabet, attempts);
}

/// Under the orthogonal motif a start on the border of the chosen axis is
/// pushed one step inward: from index 0 to 1, from the last index to the one
/// before; the other coordinate is kept, and the segment is accepted.
pub proof fn lemma_border_push(alphabet: Alphabet, a: Attempt)
    requires
        alphabet.wf(),
        alphabet.attempt_ok(a),
        alphabet.motif == Motif::Orthogonal,
    ensures
        a.coin_x && a.start.x == 0 ==> alphabet.end_of(a).x == 1 && alphabet.end_of(a).y
            == a.start.y,
        a.coin_x && a.start.x == alphabet.last() ==> alphabet.end_of(a).x == alphabet.last() - 1
            && alphabet.end_of(a).y == a.start.y,
        !a.coin_x && a.start.y == 0 ==> alphabet.end_of(a).y == 1 && alphabet.end_of(a).x
            == a.start.x,
        !a.coin_x && a.start.y == alphabet.last() ==> alphabet.end_of(a).y == alphabet.last() - 1
            && alphabet.end_of(a).x == a.start.x,
        (a.coin_x && (a.start.x == 0 || a.start.x == alphabet.last())) || (!a.coin_x && (a.start.y
            == 0 || a.start.y == alphabet.last())) ==> alphabet.candidate(a) is Some,
{
}

/// Under horizontal symmetry (alone or with vertical) the reflection
/// `x -> resolution - 1 - x` of every accepted segment is in the glyph; under
/// vertical symmetry the reflection of `y` of every segment left by the
/// horizontal rule is.
pub proof fn lemma_mirrors_present(alphabet: Alphabet, attempts: Seq<Attempt>)
    requires
        alphabet.wf(),
        alphabet.attempts_ok(attempts),
    ensures
        alphabet.symmetry.mirrors_x() ==> forall|i: int|
            0 <= i < alphabet.base_lines(attempts).len() ==> alphabet.glyph_lines(
                attempts,
            ).contains((#[trigger] alphabet.base_lines(attempts)[i]).mirror_x(alphabet.last())),
        alphabet.symmetry.mirrors_y() ==> forall|i: int|
            0 <= i < expand_x(alphabet.symmetry, alphabet.base_lines(attempts), alphabet.last()).len()
                ==> alphabet.glyph_lines(attempts).contains(
                (#[trigger] expand_x(
                    alphabet.symmetry,
                    alphabet.base_lines(attempts),
                    alphabet.last(),
                )[i]).mirror_y(alphabet.last()),
            ),
{
    let last = alphabet.last();
    let base = alphabet.base_lines(attempts);
    let h = expand_x(alphabet.symmetry, base, last);
    let g = alphabet.glyph_lines(attempts);
    assert(g == expand(alphabet.symmetry, base, last));
    if alphabet.symmetry.mirrors_x() {
        assert forall|i: int| 0 <= i < base.len() implies g.contains(
            (#[trigger] base[i]).mirror_x(last),
        ) by {
            let k = base.len() + i;
            assert(h[k] == base[i].mirror_x(last));
            assert(g[k] == h[k]);
        }
    }
    if alphabet.symmetry.mirrors_y() {
        assert forall|i: int| 0 <= i < h.len() implies g.contains(
            (#[trigger] h[i]).mirror_y(last),
        ) by {
            let k = h.len() + i;
            assert(g[k] == h[i].mirror_y(last));
        }
    }
}

/// Generation is a function of the configuration and the seed alone: two
/// equal configurations draw, for one seed, the same attempts, and so build
/// the same segments in the same order. `Alphabet::generate` returns exactly
/// these segments.
pub proof fn lemma_generation_deterministic(first: Alphabet, second: Alphabet, seed: u64)
    requires
        first == second,
    ensures
        first.drawn_attempts(seed) == second.drawn_attempts(seed),
        first.glyph_lines(first.drawn_attempts(seed)) == second.glyph_lines(
            second.drawn_attempts(seed),
        ),
{
}

} // verus!
