//! The game: the population, the flags, the clock, and what each event does
//! to them.

use crate::bunny::{is_launch_velocity, Bunny};
use crate::clock::{residual_after, ticks_due, TickClock, TICK_NANOS};
use crate::input::{
    command_of, lemma_toggle_twice, Command, InputState, KeyCode, MouseButton,
};
use crate::population::{
    all_settled, box_fits, count_after_tick, count_after_ticks, lemma_run_outcome,
    lemma_runs_once_more, runs_to, ticks_to, INITIAL_BUNNIES,
};
use crate::random::thread_rng;
use crate::render::{
    lemma_nothing_to_draw, places_drawn, title, title_text, DrawCall, Frame, Renderer,
};
use crate::units::{within_limit, Point2, HEIGHT, SUBPIXELS, WIDTH};
use rand::rngs::ThreadRng;
use vstd::prelude::*;

verus! {

/// The state of the benchmark between two events.
pub struct GameState {
    rng: ThreadRng,
    bunnies: Vec<Bunny>,
    max_x: i64,
    max_y: i64,
    input: InputState,
    click_timer: i32,
    clock: TickClock,
}

/// What the contracts say of a [`GameState`]: all of it but the random
/// source.
pub struct GameView {
    /// The population, in the order in which it is held.
    pub bunnies: Seq<Bunny>,
    /// The largest `x` a bunny can have: the window's width less the
    /// sprite's.
    pub max_x: int,
    /// The largest `y` a bunny can have: the window's height less the
    /// sprite's.
    pub max_y: int,
    pub input: InputState,
    /// A countdown in ticks that stops at zero.
    pub click_timer: int,
    /// Real time not yet paid out in ticks, in nanoseconds.
    pub residual: nat,
}

/// A countdown that stood at `timer`, `ticks` ticks later: it loses one a
/// tick while it is positive.
pub open spec fn wound_down(timer: int, ticks: nat) -> int {
    if timer > ticks {
        timer - ticks
    } else if timer > 0 {
        0
    } else {
        timer
    }
}

impl GameView {
    /// The box is one that a sprite no larger than the window leaves, every
    /// bunny is settled in it, and no tick is due.
    pub open spec fn wf(self) -> bool {
        &&& 0 <= self.max_x <= WIDTH * SUBPIXELS
        &&& 0 <= self.max_y <= HEIGHT * SUBPIXELS
        &&& all_settled(self.bunnies, self.max_x, self.max_y)
        &&& self.residual <= TICK_NANOS
    }

    /// The state after `keycode` went down: the flags follow the key, and
    /// the clear key empties the population.
    pub open spec fn after_key_down(self, keycode: KeyCode) -> GameView {
        GameView {
            input: self.input.after_key_down(keycode),
            bunnies: if command_of(keycode) == Command::Clear {
                Seq::empty()
            } else {
                self.bunnies
            },
            ..self
        }
    }

    /// The state after `keycode` came up.
    pub open spec fn after_key_up(self, keycode: KeyCode) -> GameView {
        GameView { input: self.input.after_key_up(keycode), ..self }
    }

    /// The state after `button` went down.
    pub open spec fn after_button_down(self, button: MouseButton) -> GameView {
        GameView { input: self.input.after_button_down(button), ..self }
    }

    /// The state after `button` came up.
    pub open spec fn after_button_up(self, button: MouseButton) -> GameView {
        GameView { input: self.input.after_button_up(button), ..self }
    }

    /// `next` is a possible state after `ticks` ticks on this one, with the
    /// window `window_width` wide and the pointer at `cursor`: the box, the
    /// flags and the clock are the same, the countdown ran down, and the
    /// population went through that many ticks.
    pub open spec fn runs_to(
        self,
        next: GameView,
        window_width: int,
        cursor: Point2,
        ticks: nat,
    ) -> bool {
        &&& next.max_x == self.max_x
        &&& next.max_y == self.max_y
        &&& next.input == self.input
        &&& next.residual == self.residual
        &&& next.click_timer == wound_down(self.click_timer, ticks)
        &&& runs_to(
            self.bunnies,
            next.bunnies,
            self.input,
            self.max_x,
            self.max_y,
            window_width,
            cursor,
            ticks,
        )
    }

    /// This state with `elapsed` nanoseconds more on its clock.
    pub open spec fn later(self, elapsed: nat) -> GameView {
        GameView { residual: self.residual + elapsed, ..self }
    }

    /// This state with every due tick taken off its clock.
    pub open spec fn drained(self) -> GameView {
        GameView { residual: residual_after(self.residual), ..self }
    }
}

impl View for GameState {
    type V = GameView;

    closed spec fn view(&self) -> GameView {
        GameView {
            bunnies: self.bunnies@,
            max_x: self.max_x as int,
            max_y: self.max_y as int,
            input: self.input,
            click_timer: self.click_timer as int,
            residual: self.clock.residual(),
        }
    }
}

impl GameState {
    /// See [`GameView::wf`].
    pub open spec fn wf(&self) -> bool {
        self@.wf()
    }

    /// The first state, for a sprite of the given size in pixels: the first
    /// population, launched from the window's top left corner, nothing
    /// held, batched drawing on.
    pub fn new(sprite_width: u16, sprite_height: u16) -> (state: GameState)
        requires
            sprite_width <= WIDTH,
            sprite_height <= HEIGHT,
        ensures
            state.wf(),
            state@.max_x == (WIDTH - sprite_width) * SUBPIXELS,
            state@.max_y == (HEIGHT - sprite_height) * SUBPIXELS,
            state@.input == (InputState {
                delete_held: false,
                add_held: false,
                ctrl_held: false,
                batched_drawing: true,
            }),
            state@.click_timer == 0,
            state@.residual == 0,
            state@.bunnies.len() == INITIAL_BUNNIES,
            forall|i: int|
                0 <= i < state@.bunnies.len() ==> {
                    &&& (#[trigger] state@.bunnies[i]).position == (Point2 { x: 0, y: 0 })
                    &&& is_launch_velocity(state@.bunnies[i].velocity)
                },
    {
        let mut rng = thread_rng();
        let max_x = ((WIDTH - sprite_width) as i64) * SUBPIXELS;
        let max_y = ((HEIGHT - sprite_height) as i64) * SUBPIXELS;
        let mut bunnies: Vec<Bunny> = Vec::with_capacity(INITIAL_BUNNIES);
        let mut made: usize = 0;
        while made < INITIAL_BUNNIES
            invariant
                made <= INITIAL_BUNNIES,
                bunnies@.len() == made,
                0 <= max_x,
                0 <= max_y,
                forall|i: int|
                    0 <= i < bunnies@.len() ==> {
                        &&& (#[trigger] bunnies@[i]).position == (Point2 { x: 0, y: 0 })
                        &&& is_launch_velocity(bunnies@[i].velocity)
                    },
            decreases INITIAL_BUNNIES - made,
        {
            bunnies.push(Bunny::new(0, 0, &mut rng));
            made = made + 1;
        }
        GameState {
            rng,
            bunnies,
            max_x,
            max_y,
            input: InputState::new(),
            click_timer: 0,
            clock: TickClock::new(),
        }
    }

    /// The population, in the order in which it is held.
    pub fn bunnies(&self) -> (bunnies: &Vec<Bunny>)
        ensures
            bunnies@ == self@.bunnies,
    {
        &self.bunnies
    }

    /// The size of the population.
    pub fn bunny_count(&self) -> (count: usize)
        ensures
            count == self@.bunnies.len(),
    {
        self.bunnies.len()
    }

    /// The largest `x` a bunny can have, in subpixels.
    pub fn max_x(&self) -> (max_x: i64)
        ensures
            max_x == self@.max_x,
    {
        self.max_x
    }

    /// The largest `y` a bunny can have, in subpixels.
    pub fn max_y(&self) -> (max_y: i64)
        ensures
            max_y == self@.max_y,
    {
        self.max_y
    }

    /// The flags.
    pub fn input(&self) -> (input: InputState)
        ensures
            input == self@.input,
    {
        self.input
    }

    /// Whether frames are drawn in one batch.
    pub fn batched_drawing(&self) -> (batched: bool)
        ensures
            batched == self@.input.batched_drawing,
    {
        self.input.batched_drawing
    }

    /// The countdown, in ticks.
    pub fn click_timer(&self) -> (timer: i32)
        ensures
            timer == self@.click_timer,
    {
        self.click_timer
    }

    /// Real time not yet paid out in ticks, in nanoseconds.
    pub fn residual_nanos(&self) -> (nanos: u128)
        ensures
            nanos == self@.residual,
    {
        self.clock.residual_nanos()
    }

    /// One tick: the countdown loses one if it is positive, then the
    /// population is grown, thinned and moved as the flags say, with the
    /// window `window_width` subpixels wide and the pointer at `cursor`.
    pub fn tick(&mut self, window_width: i64, cursor: Point2)
        requires
            old(self).wf(),
            cursor.in_range(),
            within_limit(window_width as int),
            old(self)@.input.add_held && old(self)@.input.ctrl_held ==> window_width > 0,
        ensures
            final(self).wf(),
            old(self)@.runs_to(final(self)@, window_width as int, cursor, 1),
            ticks_to(
                old(self)@.bunnies,
                final(self)@.bunnies,
                old(self)@.input,
                old(self)@.max_x,
                old(self)@.max_y,
                window_width as int,
                cursor,
            ),
            final(self)@.bunnies.len() == count_after_tick(
                old(self)@.bunnies.len(),
                old(self)@.input,
            ),
    {
        if self.click_timer > 0 {
            self.click_timer = self.click_timer - 1;
        }
        crate::population::tick(
            &mut self.bunnies,
            self.input,
            self.max_x,
            self.max_y,
            window_width,
            cursor,
            &mut self.rng,
        );
        proof {
            lemma_runs_once_more(
                old(self)@.bunnies,
                old(self)@.bunnies,
                self@.bunnies,
                self@.input,
                self@.max_x,
                self@.max_y,
                window_width as int,
                cursor,
                0,
            );
        }
    }

    /// A frame's worth of simulation: `elapsed_nanos` of real time go onto
    /// the clock, and every tick that is then due is run, none, one or
    /// many, with the window `window_width` subpixels wide and the pointer
    /// at `cursor`. The window needs a width only where a burst is due.
    pub fn update(&mut self, elapsed_nanos: u64, window_width: i64, cursor: Point2)
        requires
            old(self).wf(),
            cursor.in_range(),
            within_limit(window_width as int),
            old(self)@.input.add_held && old(self)@.input.ctrl_held && ticks_due(
                old(self)@.residual + elapsed_nanos as nat,
            ) > 0 ==> window_width > 0,
        ensures
            final(self).wf(),
            old(self)@.later(elapsed_nanos as nat).drained().runs_to(
                final(self)@,
                window_width as int,
                cursor,
                ticks_due(old(self)@.residual + elapsed_nanos as nat),
            ),
            final(self)@.bunnies.len() == count_after_ticks(
                old(self)@.bunnies.len(),
                old(self)@.input,
                ticks_due(old(self)@.residual + elapsed_nanos as nat),
            ),
    {
        let ghost start = self@;
        let ghost total = start.residual + elapsed_nanos as nat;
        let ghost mut ran: nat = 0;
        self.clock.accumulate(elapsed_nanos);
        while self.clock.check_update_time()
            invariant
                start == old(self)@,
                start.wf(),
                total == start.residual + elapsed_nanos as nat,
                cursor.in_range(),
                within_limit(window_width as int),
                start.input.add_held && start.input.ctrl_held && ticks_due(total) > 0
                    ==> window_width > 0,
                self@.max_x == start.max_x,
                self@.max_y == start.max_y,
                self@.input == start.input,
                self@.click_timer == wound_down(start.click_timer, ran),
                ticks_due(self@.residual) + ran == ticks_due(total),
                self@.residual + ran * TICK_NANOS == total,
                all_settled(self@.bunnies, start.max_x, start.max_y),
                runs_to(
                    start.bunnies,
                    self@.bunnies,
                    start.input,
                    start.max_x,
                    start.max_y,
                    window_width as int,
                    cursor,
                    ran,
                ),
            decreases self@.residual,
        {
            if self.click_timer > 0 {
                self.click_timer = self.click_timer - 1;
            }
            let ghost before = self@.bunnies;
            crate::population::tick(
                &mut self.bunnies,
                self.input,
                self.max_x,
                self.max_y,
                window_width,
                cursor,
                &mut self.rng,
            );
            proof {
                lemma_runs_once_more(
                    start.bunnies,
                    before,
                    self@.bunnies,
                    start.input,
                    start.max_x,
                    start.max_y,
                    window_width as int,
                    cursor,
                    ran,
                );
                ran = ran + 1;
            }
        }
        proof {
            lemma_run_outcome(
                start.bunnies,
                self@.bunnies,
                start.input,
                start.max_x,
                start.max_y,
                window_width as int,
                cursor,
                ran,
            );
        }
    }

    /// The frame for the state as it is: the draw calls of the strategy that
    /// the drawing mode selects, and the window title, with the frame rate
    /// as the caller put it into words. The state is only read.
    pub fn draw(&self, fps: &str) -> (frame: Frame)
        ensures
            Renderer::select(self@.input.batched_drawing).draws(frame.calls@, self@.bunnies),
            frame.title@ == title_text(self@.bunnies.len(), fps@, self@.input.batched_drawing),
    {
        let renderer = Renderer::select(self.input.batched_drawing);
        let calls = renderer.render(&self.bunnies);
        let title = title(self.bunnies.len(), fps, self.input.batched_drawing);
        Frame { calls, title }
    }

    /// A key went down. Space flips the drawing mode, backspace empties the
    /// population, a control key sets the control flag. Returns whether the
    /// key asks to quit, which escape does.
    pub fn key_down_event(&mut self, keycode: KeyCode) -> (quit: bool)
        ensures
            final(self)@ == old(self)@.after_key_down(keycode),
            quit == (keycode == KeyCode::Escape),
            old(self).wf() ==> final(self).wf(),
    {
        let command = self.input.key_down(keycode);
        match command {
            Command::Clear => {
                self.bunnies.clear();
                false
            },
            Command::Quit => true,
            Command::Nothing => false,
        }
    }

    /// A key came up: a control key clears the control flag.
    pub fn key_up_event(&mut self, keycode: KeyCode)
        ensures
            final(self)@ == old(self)@.after_key_up(keycode),
            old(self).wf() ==> final(self).wf(),
    {
        self.input.key_up(keycode);
    }

    /// A pointer button went down: the primary one starts adding bunnies,
    /// the secondary one deleting them.
    pub fn mouse_button_down_event(&mut self, button: MouseButton)
        ensures
            final(self)@ == old(self)@.after_button_down(button),
            old(self).wf() ==> final(self).wf(),
    {
        self.input.button_down(button);
    }

    /// A pointer button came up: the primary one stops adding bunnies, the
    /// secondary one deleting them.
    pub fn mouse_button_up_event(&mut self, button: MouseButton)
        ensures
            final(self)@ == old(self)@.after_button_up(button),
            old(self).wf() ==> final(self).wf(),
    {
        self.input.button_up(button);
    }
}

/// The clear key empties the population whatever its size was, and the next
/// frame paints nothing, whatever the drawing mode.
pub proof fn lemma_clear_empties(state: GameView, calls: Seq<DrawCall>)
    requires
        Renderer::select(state.after_key_down(KeyCode::Back).input.batched_drawing).draws(
            calls,
            state.after_key_down(KeyCode::Back).bunnies,
        ),
    ensures
        state.after_key_down(KeyCode::Back).bunnies.len() == 0,
        state.wf() ==> state.after_key_down(KeyCode::Back).wf(),
        places_drawn(calls).len() == 0,
{
    lemma_nothing_to_draw(
        Renderer::select(state.after_key_down(KeyCode::Back).input.batched_drawing),
        calls,
    );
}

/// Two presses of the space key bring back the drawing mode, and the whole
/// state with it.
pub proof fn lemma_toggle_twice_restores(state: GameView)
    ensures
        state.after_key_down(KeyCode::Space).after_key_down(KeyCode::Space) == state,
        state.after_key_down(KeyCode::Space).input.batched_drawing
            != state.input.batched_drawing,
{
    lemma_toggle_twice(state.input);
}

} // verus!
