//! Symmetry and motif modes, and the symmetry expansion of a segment list.

use vstd::prelude::*;
use vstd::string::StringExecFns;

use crate::grid::Line;

verus! {

/// Which midlines a glyph is mirrored across after generation.
#[non_exhaustive]
#[derive(Clone, Copy, Debug, PartialEq, Eq, Structural)]
pub enum Symmetry {
    Asymmetric,
    Horizontal,
    Vertical,
    HorizontalVertical,
}

/// How a segment's end is displaced from its start.
#[non_exhaustive]
#[derive(Clone, Copy, Debug, PartialEq, Eq, Structural)]
pub enum Motif {
    /// Along one axis, pushed inward at the grid's border.
    Orthogonal,
    /// Along each axis independently, with no border rule.
    Diagonal,
}

/// The textual name of each symmetry mode.
pub open spec fn symmetry_name(s: Symmetry) -> Seq<char> {
    match s {
        Symmetry::Asymmetric => "asymmetric"@,
        Symmetry::Horizontal => "horizontal"@,
        Symmetry::Vertical => "vertical"@,
        Symmetry::HorizontalVertical => "horizontalvertical"@,
    }
}

/// The message reported for a name that is no symmetry mode.
pub open spec fn symmetry_parse_message(input: Seq<char>) -> Seq<char> {
    "Could not parse symmetry '"@ + input + "'"@
}

impl Symmetry {
    /// Whether segments are mirrored across the vertical midline (`x` reflected).
    pub open spec fn mirrors_x(self) -> bool {
        self == Symmetry::Horizontal || self == Symmetry::HorizontalVertical
    }

    /// Whether segments are mirrored across the horizontal midline (`y` reflected).
    pub open spec fn mirrors_y(self) -> bool {
        self == Symmetry::Vertical || self == Symmetry::HorizontalVertical
    }

    /// How many segments the expansion yields for each segment it is given.
    pub open spec fn factor(self) -> nat {
        match self {
            Symmetry::Asymmetric => 1,
            Symmetry::Horizontal => 2,
            Symmetry::Vertical => 2,
            Symmetry::HorizontalVertical => 4,
        }
    }

    /// Parses the lower-case name of a symmetry mode.
    pub fn parse(input: &str) -> (r: Result<Symmetry, String>)
        ensures
            match r {
                Ok(s) => symmetry_name(s) == input@,
                Err(msg) => msg@ == symmetry_parse_message(input@) && forall|s: Symmetry|
                    symmetry_name(s) != input@,
            },
    {
        let owned = input.to_owned();
        proof {
            reveal_strlit("asymmetric");
            reveal_strlit("horizontal");
            reveal_strlit("vertical");
            reveal_strlit("horizontalvertical");
        }
        if owned == "asymmetric".to_owned() {
            Ok(Symmetry::Asymmetric)
        } else if owned == "horizontal".to_owned() {
            Ok(Symmetry::Horizontal)
        } else if owned == "vertical".to_owned() {
            Ok(Symmetry::Vertical)
        } else if owned == "horizontalvertical".to_owned() {
            Ok(Symmetry::HorizontalVertical)
        } else {
            proof {
                assert forall|s: Symmetry| symmetry_name(s) != input@ by {
                    match s {
                        Symmetry::Asymmetric => {},
                        Symmetry::Horizontal => {},
                        Symmetry::Vertical => {},
                        Symmetry::HorizontalVertical => {},
                    }
                }
            }
            Err("Could not parse symmetry '".to_owned().concat(input).concat("'"))
        }
    }
}

impl std::str::FromStr for Symmetry {
    type Err = String;

    fn from_str(input: &str) -> (r: Result<Symmetry, String>)
        ensures
            match r {
                Ok(s) => symmetry_name(s) == input@,
                Err(msg) => msg@ == symmetry_parse_message(input@) && forall|s: Symmetry|
                    symmetry_name(s) != input@,
            },
    {
        Symmetry::parse(input)
    }
}

/// Every segment reflected across the vertical midline.
pub open spec fn mirror_all_x(lines: Seq<Line>, last: nat) -> Seq<Line> {
    lines.map_values(|l: Line| l.mirror_x(last))
}

/// Every segment reflected across the horizontal midline.
pub open spec fn mirror_all_y(lines: Seq<Line>, last: nat) -> Seq<Line> {
    lines.map_values(|l: Line| l.mirror_y(last))
}

/// The list after the horizontal rule: mirrors appended when `x` is reflected.
pub open spec fn expand_x(symmetry: Symmetry, lines: Seq<Line>, last: nat) -> Seq<Line> {
    if symmetry.mirrors_x() {
        lines + mirror_all_x(lines, last)
    } else {
        lines
    }
}

/// The symmetry expansion: the horizontal rule, then the vertical rule over
/// everything the first one left, appending mirrors and removing nothing.
pub open spec fn expand(symmetry: Symmetry, lines: Seq<Line>, last: nat) -> Seq<Line> {
    let h = expand_x(symmetry, lines, last);
    if symmetry.mirrors_y() {
        h + mirror_all_y(h, last)
    } else {
        h
    }
}

pub open spec fn all_on_grid(lines: Seq<Line>, last: nat) -> bool {
    forall|i: int| 0 <= i < lines.len() ==> #[trigger] lines[i].on_grid(last)
}

/// Appends to `lines` the reflection of each of its segments across the
/// vertical midline (`x_axis`) or the horizontal one.
fn append_mirrors(lines: &mut Vec<Line>, last: u32, x_axis: bool)
    requires
        all_on_grid(old(lines)@, last as nat),
    ensures
        x_axis ==> final(lines)@ == old(lines)@ + mirror_all_x(old(lines)@, last as nat),
        !x_axis ==> final(lines)@ == old(lines)@ + mirror_all_y(old(lines)@, last as nat),
{
    let n = lines.len();
    let ghost orig = lines@;
    let ghost mirrored = if x_axis {
        mirror_all_x(orig, last as nat)
    } else {
        mirror_all_y(orig, last as nat)
    };
    let mut i: usize = 0;
    while i < n
        invariant
            n == orig.len(),
            0 <= i <= n,
            mirrored.len() == n,
            all_on_grid(orig, last as nat),
            x_axis ==> mirrored == mirror_all_x(orig, last as nat),
            !x_axis ==> mirrored == mirror_all_y(orig, last as nat),
            lines@ == orig + mirrored.subrange(0, i as int),
        decreases n - i,
    {
        let line = lines[i];
        assert(line == orig[i as int]);
        assert(line.on_grid(last as nat));
        let m = if x_axis {
            line.mirrored_x(last)
        } else {
            line.mirrored_y(last)
        };
        lines.push(m);
        assert(mirrored.subrange(0, i as int + 1) =~= mirrored.subrange(0, i as int).push(m));
        i += 1;
    }
    assert(mirrored.subrange(0, n as int) =~= mirrored);
}

proof fn lemma_mirrors_x_on_grid(lines: Seq<Line>, last: nat)
    requires
        all_on_grid(lines, last),
    ensures
        all_on_grid(lines + mirror_all_x(lines, last), last),
{
    let mx = mirror_all_x(lines, last);
    let ax = lines + mx;
    assert forall|i: int| 0 <= i < ax.len() implies #[trigger] ax[i].on_grid(last) by {
        if i < lines.len() {
            assert(ax[i] == lines[i]);
        } else {
            assert(lines[i - lines.len()].on_grid(last));
            assert(ax[i] == mx[i - lines.len()]);
        }
    }
}

/// Applies the symmetry expansion to a list of grid segments.
pub fn expand_symmetry(symmetry: Symmetry, lines: Vec<Line>, last: u32) -> (r: Vec<Line>)
    requires
        all_on_grid(lines@, last as nat),
    ensures
        r@ == expand(symmetry, lines@, last as nat),
{
    let mut out = lines;
    if symmetry == Symmetry::Horizontal || symmetry == Symmetry::HorizontalVertical {
        append_mirrors(&mut out, last, true);
    }
    proof {
        lemma_mirrors_x_on_grid(lines@, last as nat);
    }
    if symmetry == Symmetry::Vertical || symmetry == Symmetry::HorizontalVertical {
        append_mirrors(&mut out, last, false);
    }
    out
}

} // verus!
