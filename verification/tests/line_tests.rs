use iching::Aspect;
use iching::CoinSource;
use iching::Line;

use rand::rngs::StdRng;
use rand::Rng;
use rand::SeedableRng;

/// A coin source driven by a seeded standard generator, one fair draw per
/// flip.
struct SeededCoin {
    rng: StdRng,
}

impl CoinSource for SeededCoin {
    fn flip(&mut self) -> bool {
        self.rng.random_bool(0.5)
    }
}

#[test]
fn test_line_generation_known_values() {
    let mut coin = SeededCoin { rng: StdRng::seed_from_u64(42) };

    // Test with known seed - these are the actual results from seed 42
    let line1 = Line::generate(&mut coin);
    let line2 = Line::generate(&mut coin);
    let line3 = Line::generate(&mut coin);

    assert!(matches!(line1, Line::ChangingYin));
    assert!(matches!(line2, Line::ChangingYang));
    assert!(matches!(line3, Line::StaticYang));
}

#[test]
fn test_line_change() {
    assert_eq!(matches!(Line::ChangingYin.change_line(), Line::StaticYang), true);
    assert_eq!(matches!(Line::ChangingYang.change_line(), Line::StaticYin), true);
    assert_eq!(matches!(Line::StaticYin.change_line(), Line::StaticYin), true);
    assert_eq!(matches!(Line::StaticYang.change_line(), Line::StaticYang), true);
}

#[test]
fn test_line_get_aspect() {
    assert!(matches!(Line::ChangingYang.get_aspect(), Aspect::Yang));
    assert!(matches!(Line::StaticYang.get_aspect(), Aspect::Yang));
    assert!(matches!(Line::ChangingYin.get_aspect(), Aspect::Yin));
    assert!(matches!(Line::StaticYin.get_aspect(), Aspect::Yin));
}

#[test]
fn test_line_display() {
    assert_eq!(Line::StaticYang.to_string(), "---------");
    assert_eq!(Line::StaticYin.to_string(), "---   ---");
    assert_eq!(Line::ChangingYang.to_string(), "----o----");
    assert_eq!(Line::ChangingYin.to_string(), "--- x ---");
}

#[test]
fn test_three_tails_gives_changing_yin() {
    // Three tails are worth 2 each: sum 6, the changing Yin line.
    let line = Line::from_draws(false, false, false);
    assert!(matches!(line, Line::ChangingYin));
}

#[test]
fn test_three_heads_gives_changing_yang() {
    // Three heads are worth 3 each: sum 9, the changing Yang line.
    let line = Line::from_draws(true, true, true);
    assert!(matches!(line, Line::ChangingYang));
}

#[test]
fn test_mixed_draws_give_static_lines() {
    // One head: sum 7, static Yang; two heads: sum 8, static Yin.
    assert!(matches!(Line::from_draws(true, false, false), Line::StaticYang));
    assert!(matches!(Line::from_draws(false, true, false), Line::StaticYang));
    assert!(matches!(Line::from_draws(false, false, true), Line::StaticYang));
    assert!(matches!(Line::from_draws(true, true, false), Line::StaticYin));
    assert!(matches!(Line::from_draws(true, false, true), Line::StaticYin));
    assert!(matches!(Line::from_draws(false, true, true), Line::StaticYin));
}

#[test]
fn test_generate_uses_three_flips() {
    // A fixed alternating source: the first line consumes exactly three
    // flips (t, f, t: sum 8), the next one the following three (f, t, f:
    // sum 7).
    struct Alternating {
        next: bool,
    }
    impl CoinSource for Alternating {
        fn flip(&mut self) -> bool {
            let r = self.next;
            self.next = !self.next;
            r
        }
    }
    let mut coin = Alternating { next: true };
    assert!(matches!(Line::generate(&mut coin), Line::StaticYin));
    assert!(matches!(Line::generate(&mut coin), Line::StaticYang));
}

#[test]
fn test_is_changing() {
    assert!(Line::ChangingYin.is_changing());
    assert!(Line::ChangingYang.is_changing());
    assert!(!Line::StaticYin.is_changing());
    assert!(!Line::StaticYang.is_changing());
}
