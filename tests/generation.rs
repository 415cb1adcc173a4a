use std::str::FromStr;

use symbolgen_core::{expand_symmetry, Alphabet, Attempt, ConfigError, Line, Motif, Point, Symmetry};

fn alphabet(resolution: i32, density: i32, symmetry: Symmetry, motif: Motif) -> Alphabet {
    Alphabet::new(resolution, density, symmetry, motif).unwrap()
}

fn line(x1: u32, y1: u32, x2: u32, y2: u32) -> Line {
    Line::new(Point::new(x1, y1), Point::new(x2, y2))
}

fn attempt(coin_x: bool, coin_y: bool, x: u32, y: u32, step_x: i32, step_y: i32) -> Attempt {
    Attempt { coin_x, coin_y, start: Point::new(x, y), step_x, step_y }
}

const SYMMETRIES: [Symmetry; 4] = [
    Symmetry::Asymmetric,
    Symmetry::Horizontal,
    Symmetry::Vertical,
    Symmetry::HorizontalVertical,
];

#[test]
fn lib_it_works() {
    assert_eq!(2 + 2, 4);
}

#[test]
fn same_seed_gives_same_glyph() {
    for &motif in &[Motif::Orthogonal, Motif::Diagonal] {
        for &symmetry in SYMMETRIES.iter() {
            let a = alphabet(5, 3, symmetry, motif);
            for seed in 0..20u64 {
                let g1 = a.generate(seed);
                let g2 = a.generate(seed);
                assert_eq!(g1.lines(), g2.lines());
                assert_eq!(g1.seed(), seed);
            }
        }
    }
}

#[test]
fn different_seeds_give_different_glyphs() {
    let a = alphabet(4, 3, Symmetry::Asymmetric, Motif::Diagonal);
    let first = a.generate(0);
    let differs = (1..20u64).any(|seed| a.generate(seed).lines() != first.lines());
    assert!(differs);
}

#[test]
fn glyphs_are_valid_and_counted() {
    for &motif in &[Motif::Orthogonal, Motif::Diagonal] {
        for resolution in 2..7 {
            let base = alphabet(resolution, 3, Symmetry::Asymmetric, motif);
            for seed in 0..15u64 {
                let plain = base.generate(seed);
                let last = (resolution - 1) as u32;
                assert!(plain.lines().len() <= (3 * resolution) as usize);
                for &symmetry in SYMMETRIES.iter() {
                    let a = alphabet(resolution, 3, symmetry, motif);
                    let g = a.generate(seed);
                    let factor = match symmetry {
                        Symmetry::Asymmetric => 1,
                        Symmetry::Horizontal | Symmetry::Vertical => 2,
                        _ => 4,
                    };
                    assert_eq!(g.lines().len(), factor * plain.lines().len());
                    assert_eq!(&g.lines()[..plain.lines().len()], plain.lines());
                    for l in g.lines() {
                        assert_ne!(l.start(), l.end());
                        for p in [l.start(), l.end()] {
                            assert!(p.x <= last && p.y <= last);
                        }
                    }
                }
            }
        }
    }
}

#[test]
fn horizontal_mirrors_are_present() {
    let a = alphabet(5, 3, Symmetry::Horizontal, Motif::Orthogonal);
    for seed in 0..10u64 {
        let g = a.generate(seed);
        let n = g.lines().len() / 2;
        for l in &g.lines()[..n] {
            let m = line(4 - l.start().x, l.start().y, 4 - l.end().x, l.end().y);
            assert!(g.lines().contains(&m));
        }
    }
}

#[test]
fn orthogonal_border_pushes_inward() {
    let a = alphabet(4, 1, Symmetry::Asymmetric, Motif::Orthogonal);
    for step in -1..=1 {
        assert_eq!(a.candidate_line(&attempt(true, false, 0, 2, step, step)), Some(line(0, 2, 1, 2)));
        assert_eq!(a.candidate_line(&attempt(true, true, 3, 1, step, step)), Some(line(3, 1, 2, 1)));
        assert_eq!(a.candidate_line(&attempt(false, true, 2, 0, step, step)), Some(line(2, 0, 2, 1)));
        assert_eq!(a.candidate_line(&attempt(false, false, 1, 3, step, step)), Some(line(1, 3, 1, 2)));
    }
}

#[test]
fn orthogonal_interior_uses_drawn_step() {
    let a = alphabet(4, 1, Symmetry::Asymmetric, Motif::Orthogonal);
    assert_eq!(a.candidate_line(&attempt(true, false, 1, 0, -1, 1)), Some(line(1, 0, 0, 0)));
    assert_eq!(a.candidate_line(&attempt(true, false, 1, 0, 0, 1)), None);
    assert_eq!(a.candidate_line(&attempt(false, false, 3, 2, -1, 1)), Some(line(3, 2, 3, 3)));
}

#[test]
fn diagonal_moves_each_axis_and_clamps() {
    let a = alphabet(3, 1, Symmetry::Asymmetric, Motif::Diagonal);
    assert_eq!(a.candidate_line(&attempt(true, true, 1, 1, 1, -1)), Some(line(1, 1, 2, 0)));
    assert_eq!(a.candidate_line(&attempt(false, true, 1, 1, 1, 1)), Some(line(1, 1, 1, 2)));
    // clamped back onto the start at the corner: degenerate
    assert_eq!(a.candidate_line(&attempt(true, true, 0, 0, -1, -1)), None);
    assert_eq!(a.candidate_line(&attempt(true, true, 0, 2, -1, 1)), None);
    assert_eq!(a.candidate_line(&attempt(true, true, 0, 2, 1, 1)), Some(line(0, 2, 1, 2)));
    assert_eq!(a.candidate_line(&attempt(false, false, 1, 1, 1, 1)), None);
}

#[test]
fn duplicates_kept_unless_suppressed() {
    let attempts = vec![
        attempt(true, false, 0, 1, 0, 0),
        attempt(true, false, 1, 1, -1, 0),
        attempt(true, false, 0, 1, 0, 0),
        attempt(false, false, 1, 1, 0, 0),
    ];
    let keep = alphabet(3, 1, Symmetry::Asymmetric, Motif::Orthogonal);
    assert_eq!(
        keep.accepted_lines(&attempts),
        vec![line(0, 1, 1, 1), line(1, 1, 0, 1), line(0, 1, 1, 1)]
    );
    let drop = keep.with_suppress_duplicates(true);
    assert_eq!(drop.accepted_lines(&attempts), vec![line(0, 1, 1, 1)]);
    let g = drop.glyph_from_attempts(9, &attempts);
    assert_eq!(g.seed(), 9);
    assert_eq!(g.lines(), &[line(0, 1, 1, 1)][..]);
}

#[test]
fn symmetry_expansion_order() {
    let lines = vec![line(0, 0, 1, 2)];
    assert_eq!(expand_symmetry(Symmetry::Asymmetric, lines.clone(), 3), lines);
    assert_eq!(
        expand_symmetry(Symmetry::Horizontal, lines.clone(), 3),
        vec![line(0, 0, 1, 2), line(3, 0, 2, 2)]
    );
    assert_eq!(
        expand_symmetry(Symmetry::Vertical, lines.clone(), 3),
        vec![line(0, 0, 1, 2), line(0, 3, 1, 1)]
    );
    assert_eq!(
        expand_symmetry(Symmetry::HorizontalVertical, lines, 3),
        vec![line(0, 0, 1, 2), line(3, 0, 2, 2), line(0, 3, 1, 1), line(3, 3, 2, 1)]
    );
}

#[test]
fn symmetry_on_axis_is_not_deduplicated() {
    // x = 1 is the midline of a grid with last index 2
    let out = expand_symmetry(Symmetry::Horizontal, vec![line(1, 0, 1, 1)], 2);
    assert_eq!(out, vec![line(1, 0, 1, 1), line(1, 0, 1, 1)]);
}

#[test]
fn invalid_configurations_are_rejected() {
    assert_eq!(
        Alphabet::new(1, 3, Symmetry::Asymmetric, Motif::Diagonal).unwrap_err(),
        ConfigError::ResolutionTooSmall
    );
    assert_eq!(
        Alphabet::new(0, 0, Symmetry::Asymmetric, Motif::Diagonal).unwrap_err(),
        ConfigError::ResolutionTooSmall
    );
    assert_eq!(
        Alphabet::new(3, 0, Symmetry::Asymmetric, Motif::Diagonal).unwrap_err(),
        ConfigError::DensityTooSmall
    );
    assert_eq!(
        Alphabet::new(i32::MAX, 2, Symmetry::Asymmetric, Motif::Diagonal).unwrap_err(),
        ConfigError::TooManyAttempts
    );
}

#[test]
fn smallest_resolution_is_accepted() {
    let a = Alphabet::new(2, 3, Symmetry::Vertical, Motif::Orthogonal).unwrap();
    assert_eq!(a.num_lines, 6);
    assert!(!a.suppress_duplicates);
    let g = a.generate(1);
    for l in g.lines() {
        assert!(l.start().x <= 1 && l.end().y <= 1);
    }
}

#[test]
fn symmetry_names_parse() {
    assert_eq!("asymmetric".parse::<Symmetry>(), Ok(Symmetry::Asymmetric));
    assert_eq!(Symmetry::parse("horizontal"), Ok(Symmetry::Horizontal));
    assert_eq!(Symmetry::parse("vertical"), Ok(Symmetry::Vertical));
    assert_eq!(Symmetry::parse("horizontalvertical"), Ok(Symmetry::HorizontalVertical));
    assert_eq!(
        Symmetry::parse("Diagonal"),
        Err("Could not parse symmetry 'Diagonal'".to_string())
    );
}

#[test]
fn golden_diagonal_resolution_three() {
    let a = alphabet(3, 3, Symmetry::Asymmetric, Motif::Diagonal);
    let g = a.generate(0);
    let expected = vec![
        line(2, 1, 2, 2),
        line(0, 1, 1, 2),
        line(1, 0, 1, 1),
        line(2, 2, 2, 1),
        line(2, 1, 2, 2),
    ];
    assert_eq!(g.lines(), &expected[..]);
    assert_eq!(g.seed(), 0);
}

#[test]
fn empty_list_expands_to_empty() {
    for &symmetry in SYMMETRIES.iter() {
        assert!(expand_symmetry(symmetry, Vec::new(), 4).is_empty());
    }
}

#[test]
fn largest_attempt_count_is_accepted() {
    let a = Alphabet::new(i32::MAX, 1, Symmetry::Asymmetric, Motif::Orthogonal).unwrap();
    assert_eq!(a.num_lines, i32::MAX);
    let b = Alphabet::new(46341, 46340, Symmetry::Asymmetric, Motif::Orthogonal).unwrap();
    assert_eq!(b.num_lines, 46341 * 46340);
    assert_eq!(
        Alphabet::new(46341, 46341, Symmetry::Asymmetric, Motif::Orthogonal).unwrap_err(),
        ConfigError::TooManyAttempts
    );
}

#[test]
fn deduplicating_generation_is_deterministic() {
    let a1 = alphabet(3, 3, Symmetry::Horizontal, Motif::Orthogonal).with_suppress_duplicates(true);
    let a2 = alphabet(3, 3, Symmetry::Horizontal, Motif::Orthogonal).with_suppress_duplicates(true);
    for seed in 0..20u64 {
        let g1 = a1.generate(seed);
        let g2 = a2.generate(seed);
        assert_eq!(g1.lines(), g2.lines());
        assert_eq!(g1.seed(), g2.seed());
        let n = g1.lines().len() / 2;
        for (i, l) in g1.lines()[..n].iter().enumerate() {
            for m in &g1.lines()[..i] {
                assert!(!(m == l || (m.start() == l.end() && m.end() == l.start())));
            }
        }
    }
}

#[test]
fn symmetry_from_str_is_case_sensitive() {
    assert_eq!(Symmetry::from_str("asymmetric"), Ok(Symmetry::Asymmetric));
    assert_eq!(Symmetry::from_str("horizontal"), Ok(Symmetry::Horizontal));
    assert_eq!(Symmetry::from_str("vertical"), Ok(Symmetry::Vertical));
    assert_eq!(Symmetry::from_str("horizontalvertical"), Ok(Symmetry::HorizontalVertical));
    assert_eq!(
        Symmetry::from_str("Horizontal"),
        Err(String::from("Could not parse symmetry 'Horizontal'"))
    );
    assert_eq!(Symmetry::from_str(""), Err(String::from("Could not parse symmetry ''")));
}
