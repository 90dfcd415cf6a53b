use bunnymark::bunny::Bunny;
use bunnymark::render::{push_decimal, title, DrawCall, Renderer};
use bunnymark::units::{pixels, Point2, Vector2};

fn three() -> Vec<Bunny> {
    vec![
        Bunny { position: Point2::new(pixels(1), pixels(2)), velocity: Vector2::new(5, 6) },
        Bunny { position: Point2::new(pixels(3), pixels(4)), velocity: Vector2::new(7, 8) },
        Bunny { position: Point2::new(pixels(1), pixels(2)), velocity: Vector2::new(9, 9) },
    ]
}

fn painted(calls: &Vec<DrawCall>) -> Vec<(i64, i64)> {
    let mut out: Vec<(i64, i64)> = Vec::new();
    for call in calls {
        match call {
            DrawCall::Sprite { at } => out.push((at.x, at.y)),
            DrawCall::Batch { instances, at } => {
                for p in instances {
                    out.push((p.x + at.x, p.y + at.y));
                }
            }
        }
    }
    out
}

#[test]
fn flag_selects_the_strategy() {
    assert_eq!(Renderer::select(true), Renderer::Batched);
    assert_eq!(Renderer::select(false), Renderer::Naive);
}

#[test]
fn batched_is_one_call_at_the_origin() {
    let calls = Renderer::Batched.render(&three());
    assert_eq!(
        calls,
        vec![DrawCall::Batch {
            instances: vec![
                Point2::new(pixels(1), pixels(2)),
                Point2::new(pixels(3), pixels(4)),
                Point2::new(pixels(1), pixels(2)),
            ],
            at: Point2::new(0, 0),
        }]
    );
}

#[test]
fn naive_is_one_call_for_each() {
    let calls = Renderer::Naive.render(&three());
    assert_eq!(
        calls,
        vec![
            DrawCall::Sprite { at: Point2::new(pixels(1), pixels(2)) },
            DrawCall::Sprite { at: Point2::new(pixels(3), pixels(4)) },
            DrawCall::Sprite { at: Point2::new(pixels(1), pixels(2)) },
        ]
    );
}

#[test]
fn both_strategies_paint_the_same_picture() {
    let bunnies = three();
    let batched = Renderer::Batched.render(&bunnies);
    let naive = Renderer::Naive.render(&bunnies);
    assert_eq!(painted(&batched), painted(&naive));
    assert_eq!(painted(&naive).len(), 3);
    assert_eq!(batched.len(), 1);
    assert_eq!(naive.len(), 3);
    assert_eq!(bunnies, three());
}

#[test]
fn empty_population_paints_nothing() {
    let none: Vec<Bunny> = Vec::new();
    let batched = Renderer::Batched.render(&none);
    let naive = Renderer::Naive.render(&none);
    assert!(naive.is_empty());
    assert_eq!(batched, vec![DrawCall::Batch { instances: vec![], at: Point2::new(0, 0) }]);
    assert!(painted(&batched).is_empty());
}

#[test]
fn decimal_has_no_leading_zeros() {
    for n in [0usize, 7, 9, 10, 11, 99, 100, 101, 12_345, 4_000_000_000] {
        let mut text = String::from("x");
        push_decimal(&mut text, n);
        assert_eq!(text, format!("x{}", n));
    }
    let mut text = String::new();
    push_decimal(&mut text, usize::MAX);
    assert_eq!(text, format!("{}", usize::MAX));
}

#[test]
fn title_reads_as_expected() {
    assert_eq!(
        title(100, "60", true),
        "BunnyMark - 100 bunnies - 60 FPS - batched drawing: true"
    );
    assert_eq!(
        title(0, "1234", false),
        "BunnyMark - 0 bunnies - 1234 FPS - batched drawing: false"
    );
    assert_eq!(
        title(25_300, &format!("{:.0}", 59.6_f64), false),
        "BunnyMark - 25300 bunnies - 60 FPS - batched drawing: false"
    );
}
