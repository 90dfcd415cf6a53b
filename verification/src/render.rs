//! What a frame shows: the draw calls of the two drawing strategies and the
//! text of the window title.

use crate::bunny::Bunny;
use crate::units::Point2;
use vstd::prelude::*;
use vstd::string::*;

verus! {

/// One submission to the graphics device.
#[derive(Clone, Debug, PartialEq, Eq)]
pub enum DrawCall {
    /// The sprite, once, at `at`.
    Sprite { at: Point2 },
    /// A batch of copies of the sprite, one at each of `instances`, the whole
    /// batch moved by `at`.
    Batch { instances: Vec<Point2>, at: Point2 },
}

/// How a population is turned into draw calls.
#[derive(Clone, Copy, Debug, PartialEq, Eq, Structural)]
pub enum Renderer {
    /// All bunnies in one batch, in one call.
    Batched,
    /// One call for each bunny.
    Naive,
}

/// A frame: its draw calls in the order in which they are submitted, and the
/// text of the window title.
#[derive(Clone, Debug, PartialEq, Eq)]
pub struct Frame {
    pub calls: Vec<DrawCall>,
    pub title: String,
}

/// The places of a population's bunnies, in the order in which they are held.
pub open spec fn positions_of(bunnies: Seq<Bunny>) -> Seq<Point2> {
    bunnies.map_values(|b: Bunny| b.position)
}

/// The same places as pairs of window coordinates.
pub open spec fn places_of(bunnies: Seq<Bunny>) -> Seq<(int, int)> {
    bunnies.map_values(|b: Bunny| (b.position.x as int, b.position.y as int))
}

impl DrawCall {
    /// The window coordinates at which this call paints a sprite.
    pub open spec fn places(self) -> Seq<(int, int)> {
        match self {
            DrawCall::Sprite { at } => seq![(at.x as int, at.y as int)],
            DrawCall::Batch { instances, at } => instances@.map_values(
                |p: Point2| (p.x + at.x, p.y + at.y),
            ),
        }
    }
}

/// The window coordinates at which a list of calls paints a sprite, in the
/// order of painting.
pub open spec fn places_drawn(calls: Seq<DrawCall>) -> Seq<(int, int)>
    decreases calls.len(),
{
    if calls.len() == 0 {
        Seq::empty()
    } else {
        places_drawn(calls.drop_last()) + calls.last().places()
    }
}

/// `calls` is the batched drawing of `bunnies`: a single batch at the
/// origin with one instance at each bunny's position.
pub open spec fn is_batched_drawing(calls: Seq<DrawCall>, bunnies: Seq<Bunny>) -> bool {
    &&& calls.len() == 1
    &&& calls[0] matches DrawCall::Batch { instances, at }
    &&& at == (Point2 { x: 0, y: 0 })
    &&& instances@ == positions_of(bunnies)
}

/// `calls` is the one-by-one drawing of `bunnies`: for each bunny, in
/// order, one sprite at its position.
pub open spec fn is_naive_drawing(calls: Seq<DrawCall>, bunnies: Seq<Bunny>) -> bool {
    &&& calls.len() == bunnies.len()
    &&& forall|i: int|
        0 <= i < calls.len() ==> #[trigger] calls[i] == (DrawCall::Sprite {
            at: bunnies[i].position,
        })
}

impl Renderer {
    /// The strategy that the drawing-mode flag selects.
    pub open spec fn spec_select(batched_drawing: bool) -> Renderer {
        if batched_drawing {
            Renderer::Batched
        } else {
            Renderer::Naive
        }
    }

    /// `calls` is this strategy's drawing of `bunnies`.
    pub open spec fn draws(self, calls: Seq<DrawCall>, bunnies: Seq<Bunny>) -> bool {
        match self {
            Renderer::Batched => is_batched_drawing(calls, bunnies),
            Renderer::Naive => is_naive_drawing(calls, bunnies),
        }
    }

    /// The strategy that the drawing-mode flag selects.
    #[verifier::when_used_as_spec(spec_select)]
    pub fn select(batched_drawing: bool) -> (r: Renderer)
        ensures
            r == Renderer::spec_select(batched_drawing),
    {
        if batched_drawing {
            Renderer::Batched
        } else {
            Renderer::Naive
        }
    }

    /// The draw calls for `bunnies`. The population is only read.
    pub fn render(&self, bunnies: &Vec<Bunny>) -> (calls: Vec<DrawCall>)
        ensures
            self.draws(calls@, bunnies@),
    {
        let mut calls: Vec<DrawCall> = Vec::new();
        match self {
            Renderer::Batched => {
                let mut instances: Vec<Point2> = Vec::new();
                let mut at: usize = 0;
                while at < bunnies.len()
                    invariant
                        at <= bunnies@.len(),
                        instances@.len() == at,
                        forall|i: int|
                            0 <= i < at ==> #[trigger] instances@[i] == bunnies@[i].position,
                    decreases bunnies@.len() - at,
                {
                    instances.push(bunnies[at].position);
                    at = at + 1;
                }
                assert(instances@ =~= positions_of(bunnies@));
                calls.push(DrawCall::Batch { instances, at: Point2 { x: 0, y: 0 } });
            },
            Renderer::Naive => {
                let mut at: usize = 0;
                while at < bunnies.len()
                    invariant
                        at <= bunnies@.len(),
                        calls@.len() == at,
                        forall|i: int|
                            0 <= i < at ==> #[trigger] calls@[i] == (DrawCall::Sprite {
                                at: bunnies@[i].position,
                            }),
                    decreases bunnies@.len() - at,
                {
                    calls.push(DrawCall::Sprite { at: bunnies[at].position });
                    at = at + 1;
                }
            },
        }
        calls
    }
}

/// The one-by-one drawing paints a sprite at each bunny's place, in order.
pub proof fn lemma_naive_places(calls: Seq<DrawCall>, bunnies: Seq<Bunny>)
    requires
        is_naive_drawing(calls, bunnies),
    ensures
        places_drawn(calls) == places_of(bunnies),
    decreases calls.len(),
{
    if calls.len() == 0 {
        assert(places_drawn(calls) =~= places_of(bunnies));
    } else {
        let fewer = calls.drop_last();
        let rest = bunnies.drop_last();
        assert forall|i: int| 0 <= i < fewer.len() implies #[trigger] fewer[i] == (DrawCall::Sprite {
            at: rest[i].position,
        }) by {
            assert(fewer[i] == calls[i]);
        }
        lemma_naive_places(fewer, rest);
        assert(calls.last() == calls[calls.len() - 1]);
        assert(places_drawn(calls) =~= places_of(bunnies));
    }
}

/// The batched drawing paints a sprite at each bunny's place, in order.
pub proof fn lemma_batched_places(calls: Seq<DrawCall>, bunnies: Seq<Bunny>)
    requires
        is_batched_drawing(calls, bunnies),
    ensures
        places_drawn(calls) == places_of(bunnies),
{
    assert(calls.drop_last().len() == 0);
    assert(places_drawn(calls.drop_last()) =~= Seq::<(int, int)>::empty());
    assert(calls.last() == calls[0]);
    assert(places_drawn(calls) =~= places_of(bunnies));
}

/// Both strategies paint the same picture of the same population: a sprite
/// at each bunny's place, the same number of sprites, in the same order.
/// They differ in the number of calls alone, one against one for each bunny.
pub proof fn lemma_strategies_agree(
    batched: Seq<DrawCall>,
    naive: Seq<DrawCall>,
    bunnies: Seq<Bunny>,
)
    requires
        Renderer::Batched.draws(batched, bunnies),
        Renderer::Naive.draws(naive, bunnies),
    ensures
        places_drawn(batched) == places_drawn(naive),
        places_drawn(naive) == places_of(bunnies),
        places_drawn(naive).len() == bunnies.len(),
        batched.len() == 1,
        naive.len() == bunnies.len(),
{
    lemma_naive_places(naive, bunnies);
    lemma_batched_places(batched, bunnies);
}

/// An empty population paints nothing, whatever the strategy.
pub proof fn lemma_nothing_to_draw(renderer: Renderer, calls: Seq<DrawCall>)
    requires
        renderer.draws(calls, Seq::<Bunny>::empty()),
    ensures
        places_drawn(calls).len() == 0,
{
    match renderer {
        Renderer::Batched => lemma_batched_places(calls, Seq::<Bunny>::empty()),
        Renderer::Naive => lemma_naive_places(calls, Seq::<Bunny>::empty()),
    }
}

/// The numeral of a digit.
pub open spec fn digit_text(d: nat) -> Seq<char> {
    if d == 0 {
        seq!['0']
    } else if d == 1 {
        seq!['1']
    } else if d == 2 {
        seq!['2']
    } else if d == 3 {
        seq!['3']
    } else if d == 4 {
        seq!['4']
    } else if d == 5 {
        seq!['5']
    } else if d == 6 {
        seq!['6']
    } else if d == 7 {
        seq!['7']
    } else if d == 8 {
        seq!['8']
    } else {
        seq!['9']
    }
}

/// A number in decimal, without leading zeros.
pub open spec fn decimal_text(n: nat) -> Seq<char>
    decreases n,
{
    if n < 10 {
        digit_text(n)
    } else {
        decimal_text(n / 10) + digit_text(n % 10)
    }
}

/// The text of the window title for a population of `count`, a frame rate
/// already put into words, and a drawing mode.
pub open spec fn title_text(count: nat, fps: Seq<char>, batched_drawing: bool) -> Seq<char> {
    "BunnyMark - "@ + decimal_text(count) + " bunnies - "@ + fps + " FPS - batched drawing: "@
        + if batched_drawing {
        "true"@
    } else {
        "false"@
    }
}

/// The numeral of a digit.
fn digit_str(d: usize) -> (s: &'static str)
    requires
        d < 10,
    ensures
        s@ == digit_text(d as nat),
{
    proof {
        reveal_strlit("0");
        reveal_strlit("1");
        reveal_strlit("2");
        reveal_strlit("3");
        reveal_strlit("4");
        reveal_strlit("5");
        reveal_strlit("6");
        reveal_strlit("7");
        reveal_strlit("8");
        reveal_strlit("9");
    }
    let s = if d == 0 {
        "0"
    } else if d == 1 {
        "1"
    } else if d == 2 {
        "2"
    } else if d == 3 {
        "3"
    } else if d == 4 {
        "4"
    } else if d == 5 {
        "5"
    } else if d == 6 {
        "6"
    } else if d == 7 {
        "7"
    } else if d == 8 {
        "8"
    } else {
        "9"
    };
    assert(s@ =~= digit_text(d as nat));
    s
}

/// Appends `n` in decimal to `text`.
pub fn push_decimal(text: &mut String, n: usize)
    ensures
        final(text)@ == old(text)@ + decimal_text(n as nat),
    decreases n,
{
    if n >= 10 {
        push_decimal(text, n / 10);
    }
    let digit = digit_str(n % 10);
    text.append(digit);
    assert(text@ =~= old(text)@ + decimal_text(n as nat));
}

/// The window title: the size of the population, the frame rate as the
/// caller put it into words, and the drawing mode.
pub fn title(count: usize, fps: &str, batched_drawing: bool) -> (text: String)
    ensures
        text@ == title_text(count as nat, fps@, batched_drawing),
{
    let mut text = String::from_str("BunnyMark - ");
    push_decimal(&mut text, count);
    text.append(" bunnies - ");
    text.append(fps);
    text.append(" FPS - batched drawing: ");
    if batched_drawing {
        text.append("true");
    } else {
        text.append("false");
    }
    assert(text@ =~= title_text(count as nat, fps@, batched_drawing));
    text
}

} // verus!
