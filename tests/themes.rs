use color_changer::{color_at, color_changer, color_generate, color_random, Theme, THEME_COUNT};

fn fields(t: &Theme) -> (&str, &str, &str, &str) {
    (t.name(), t.background(), t.foreground(), t.primary())
}

const WARM: (&str, &str, &str, &str) = ("warm", "#B270A2", "#FF8FB1", "#FCE2DB");
const COLD: (&str, &str, &str, &str) = ("cold", "#AFB4FF", "#9C9EFE", "#A66CFF");

#[test]
fn new_keeps_each_field() {
    let t = Theme::new("n", "b", "f", "p");
    assert_eq!(fields(&t), ("n", "b", "f", "p"));
}

#[test]
fn lookup_warm() {
    assert_eq!(fields(&color_changer("warm")), WARM);
}

#[test]
fn lookup_cold() {
    assert_eq!(fields(&color_changer("cold")), COLD);
}

#[test]
fn lookup_unknown_gives_first() {
    assert_eq!(fields(&color_changer("nonexistent")), fields(&color_changer("warm")));
    assert_eq!(fields(&color_changer("nonexistent")), WARM);
}

#[test]
fn lookup_empty_gives_first() {
    assert_eq!(fields(&color_changer("")), WARM);
}

#[test]
fn lookup_is_case_sensitive() {
    assert_eq!(fields(&color_changer("COLD")), WARM);
    assert_eq!(fields(&color_changer("cold ")), WARM);
}

#[test]
fn table_has_two_in_order() {
    for _ in 0..3 {
        let list = color_generate();
        assert_eq!(list.len(), 2);
        assert_eq!(list.len(), THEME_COUNT);
        assert_eq!(fields(&list[0]), WARM);
        assert_eq!(fields(&list[1]), COLD);
    }
}

#[test]
fn at_index_follows_table() {
    assert_eq!(fields(&color_at(0)), WARM);
    assert_eq!(fields(&color_at(1)), COLD);
}

#[test]
fn random_gives_known_themes_both_about_equally() {
    let trials = 1000;
    let mut warm = 0;
    let mut cold = 0;
    for _ in 0..trials {
        let t = color_random();
        match t.name() {
            "warm" => {
                assert_eq!(fields(&t), WARM);
                warm += 1;
            }
            "cold" => {
                assert_eq!(fields(&t), COLD);
                cold += 1;
            }
            other => panic!("unexpected theme {}", other),
        }
    }
    assert_eq!(warm + cold, trials);
    // For a fair draw each count is 500 with a standard deviation near 16.
    assert!(warm > 400 && cold > 400, "warm {} cold {}", warm, cold);
}
