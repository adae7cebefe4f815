use iching::CoinSource;
use iching::Divination;
use iching::Hexagram;
use iching::IChingTranslation;
use iching::Line;
use iching::ThreadCoin;

#[test]
fn test_divination_display() {
    // Create a test hexagram with known lines
    let lines = [
        Line::StaticYin,    // bottom line (1)
        Line::ChangingYang, // line 2
        Line::StaticYang,   // line 3
        Line::ChangingYin,  // line 4
        Line::StaticYin,    // line 5
        Line::StaticYang,   // top line (6)
    ];
    let present_hexagram = Hexagram { lines, king_wen_number: Hexagram::calculate_number(&lines) };

    // Create future hexagram by changing the lines
    let future_hexagram = present_hexagram.change();

    let translation = IChingTranslation::new();
    let divination = Divination { present_hexagram, future_hexagram, translation: &translation };

    let display_output = divination.to_string();
    println!("{}", display_output);

    // Check that the output contains expected elements
    assert!(display_output.contains("HEXAGRAM 18"));
    assert!(display_output.contains("line 2 -")); // changing line
    assert!(display_output.contains("line 4 -")); // changing line
    assert!(display_output.contains("-- changing to --"));
}

/// A coin source that replays a fixed sequence of draws.
struct FixedCoin {
    draws: Vec<bool>,
    next: usize,
}

impl CoinSource for FixedCoin {
    fn flip(&mut self) -> bool {
        let r = self.draws[self.next];
        self.next += 1;
        r
    }
}

#[test]
fn test_unchanging_casting_has_no_future() {
    // Eighteen draws, three per line, each line mixed: all lines static,
    // so the casting is unchanging.
    let draws = vec![
        true, false, false, // line 1: sum 7, static yang
        false, true, true, // line 2: sum 8, static yin
        true, false, false, // line 3
        false, true, true, // line 4
        true, false, false, // line 5
        false, true, true, // line 6
    ];
    let translation = IChingTranslation::new();
    let mut coin = FixedCoin { draws, next: 0 };
    let divination = Divination::new(&translation, &mut coin);
    assert_eq!(coin.next, 18);
    assert!(divination.future_hexagram.is_none());
    assert!(divination.present_hexagram.get_changing_lines().is_empty());
    assert!(divination.to_string().contains("-- unchanging --"));
}

#[test]
fn test_all_changing_casting_flips_every_line() {
    // Eighteen heads: every line is a changing Yang, so the present
    // hexagram is 1 (all Yang) and the future one is 2 (all Yin).
    let draws = vec![true; 18];
    let translation = IChingTranslation::new();
    let mut coin = FixedCoin { draws, next: 0 };
    let divination = Divination::new(&translation, &mut coin);
    assert_eq!(divination.present_hexagram.king_wen_number, 1);
    assert_eq!(divination.present_hexagram.get_changing_lines(), vec![1, 2, 3, 4, 5, 6]);
    let future = divination.future_hexagram.as_ref().unwrap();
    assert_eq!(future.king_wen_number, 2);
    assert!(future.lines.iter().all(|l| matches!(l, Line::StaticYin)));
}

#[test]
fn test_divination_display_full_text() {
    let lines = [
        Line::StaticYin,
        Line::ChangingYang,
        Line::StaticYang,
        Line::ChangingYin,
        Line::StaticYin,
        Line::StaticYang,
    ];
    let present_hexagram = Hexagram { lines, king_wen_number: Hexagram::calculate_number(&lines) };
    let future_hexagram = present_hexagram.change();
    let translation = IChingTranslation::new();
    let divination = Divination { present_hexagram, future_hexagram, translation: &translation };

    let expected = "HEXAGRAM 18 : \n\
                    6 ---------\n\
                    5 ---   ---\n\
                    4 --- x ---\n\
                    3 ---------\n\
                    2 ----o----\n\
                    1 ---   ---\n\
                    Mountain over Wind\n\
                    \n\
                    line 2 - \n\
                    line 4 - \n\
                    -- changing to -- \n\
                    HEXAGRAM 56 : \n\
                    6 ---------\n\
                    5 ---   ---\n\
                    4 ---------\n\
                    3 ---------\n\
                    2 ---   ---\n\
                    1 ---   ---\n\
                    Fire over Mountain\n";
    assert_eq!(divination.to_string(), expected);
}

#[test]
fn test_casting_with_thread_coin_is_well_formed() {
    // The real random source: whatever comes out, the present hexagram's
    // number matches its lines and the future is present exactly when a
    // line is changing.
    let translation = IChingTranslation::new();
    let mut coin = ThreadCoin::new();
    for _ in 0..50 {
        let divination = Divination::new(&translation, &mut coin);
        let present = &divination.present_hexagram;
        assert!((1..=64).contains(&present.king_wen_number));
        assert_eq!(present.king_wen_number, Hexagram::calculate_number(&present.lines));
        let changing = present.get_changing_lines();
        assert_eq!(changing.is_empty(), divination.future_hexagram.is_none());
        if let Some(future) = &divination.future_hexagram {
            assert_eq!(future.king_wen_number, Hexagram::calculate_number(&future.lines));
            for (i, line) in present.lines.iter().enumerate() {
                assert_eq!(
                    format!("{:?}", future.lines[i]),
                    format!("{:?}", line.change_line())
                );
            }
        }
    }
}
