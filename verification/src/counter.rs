//! The counter window: an integer that two buttons move by one, and the label
//! that always shows it in decimal.

use crate::decimal::{decimal, i32_to_decimal};
use vstd::prelude::*;

verus! {

/// One activation of one of the two buttons.
#[derive(Clone, Copy, Debug, PartialEq, Eq, Structural)]
pub enum Click {
    Increase,
    Decrease,
}

/// The `i32` that is congruent to `x` modulo 2^32: what two's-complement
/// arithmetic keeps of `x`.
pub open spec fn wrap(x: int) -> int {
    let r = x % 0x1_0000_0000;
    if r > i32::MAX {
        r - 0x1_0000_0000
    } else {
        r
    }
}

/// What one click adds to the counter.
pub open spec fn delta(click: Click) -> int {
    match click {
        Click::Increase => 1,
        Click::Decrease => -1,
    }
}

/// The counter after one click on a counter that held `value`.
pub open spec fn step(value: int, click: Click) -> int {
    wrap(value + delta(click))
}

/// Increases minus decreases.
pub open spec fn net(clicks: Seq<Click>) -> int
    decreases clicks.len(),
{
    if clicks.len() == 0 {
        0
    } else {
        net(clicks.drop_last()) + delta(clicks.last())
    }
}

/// The counter after the clicks, taken in order, on a counter that held
/// `value`.
pub open spec fn after(value: int, clicks: Seq<Click>) -> int
    decreases clicks.len(),
{
    if clicks.len() == 0 {
        value
    } else {
        step(after(value, clicks.drop_last()), clicks.last())
    }
}

/// Wrapping leaves an `i32` as it is, and wrapping early or late gives the
/// same counter.
pub proof fn lemma_wrap(x: int, y: int)
    ensures
        i32::MIN <= wrap(x) <= i32::MAX,
        i32::MIN <= x <= i32::MAX ==> wrap(x) == x,
        wrap(wrap(x) + y) == wrap(x + y),
{
}

/// After any clicks, in any order, the counter holds its first value plus
/// increases minus decreases, wrapped into `i32`.
pub proof fn lemma_after_is_net(value: int, clicks: Seq<Click>)
    requires
        i32::MIN <= value <= i32::MAX,
    ensures
        after(value, clicks) == wrap(value + net(clicks)),
    decreases clicks.len(),
{
    if clicks.len() > 0 {
        lemma_after_is_net(value, clicks.drop_last());
        lemma_wrap(value + net(clicks.drop_last()), delta(clicks.last()));
    }
}

/// A counter that starts at zero holds increases minus decreases, as long as
/// that number is an `i32`; then the label reads that number in decimal.
pub proof fn lemma_counter_shows_net(clicks: Seq<Click>)
    requires
        i32::MIN <= net(clicks) <= i32::MAX,
    ensures
        after(0, clicks) == net(clicks),
        decimal(after(0, clicks)) == decimal(net(clicks)),
{
    lemma_after_is_net(0, clicks);
}

/// An increase followed by a decrease, or a decrease followed by an
/// increase, leaves the counter where it was, also across the ends of `i32`.
pub proof fn lemma_round_trip(value: int)
    requires
        i32::MIN <= value <= i32::MAX,
    ensures
        step(step(value, Click::Increase), Click::Decrease) == value,
        step(step(value, Click::Decrease), Click::Increase) == value,
        decimal(step(step(value, Click::Increase), Click::Decrease)) == decimal(value),
        decimal(step(step(value, Click::Decrease), Click::Increase)) == decimal(value),
{
}

/// The state of the counter window: the counter and the text of its label.
pub struct Window {
    counter: i32,
    label_counter: String,
}

impl Window {
    /// The label shows the counter, at every moment.
    #[verifier::type_invariant]
    spec fn shows_counter(&self) -> bool {
        self.label_counter@ == decimal(self.counter as int)
    }

    /// The counter's value.
    pub closed spec fn value(&self) -> int {
        self.counter as int
    }

    /// The text of the label.
    pub closed spec fn text(&self) -> Seq<char> {
        self.label_counter@
    }

    /// A window whose counter is zero.
    pub fn new() -> (window: Self)
        ensures
            window.value() == 0,
            window.text() == decimal(0),
    {
        Window { counter: 0, label_counter: i32_to_decimal(0) }
    }

    /// A window whose counter already holds `value`.
    pub fn with_counter(value: i32) -> (window: Self)
        ensures
            window.value() == value,
            window.text() == decimal(value as int),
    {
        Window { counter: value, label_counter: i32_to_decimal(value) }
    }

    /// The counter.
    pub fn counter(&self) -> (value: i32)
        ensures
            value == self.value(),
    {
        self.counter
    }

    /// The text that the label shows: the counter in decimal.
    pub fn label_counter(&self) -> (text: &str)
        ensures
            text@ == self.text(),
            text@ == decimal(self.value()),
    {
        proof {
            use_type_invariant(self);
        }
        self.label_counter.as_str()
    }

    /// Sets the counter and refreshes the label in the same step.
    fn show(&mut self, value: i32)
        ensures
            final(self).value() == value,
            final(self).text() == decimal(value as int),
    {
        *self = Window::with_counter(value);
    }

    /// A click on the increase button: the counter goes up by one, wrapping
    /// round at the end of `i32`, and the label shows the new value.
    pub fn on_increase(&mut self)
        ensures
            final(self).value() == step(old(self).value(), Click::Increase),
            final(self).text() == decimal(final(self).value()),
    {
        let next = self.counter.wrapping_add(1);
        self.show(next);
    }

    /// A click on the decrease button: the counter goes down by one, wrapping
    /// round at the end of `i32`, and the label shows the new value.
    pub fn on_decrease(&mut self)
        ensures
            final(self).value() == step(old(self).value(), Click::Decrease),
            final(self).text() == decimal(final(self).value()),
    {
        let next = self.counter.wrapping_sub(1);
        self.show(next);
    }

    /// A click on either button.
    pub fn on_click(&mut self, click: Click)
        ensures
            final(self).value() == step(old(self).value(), click),
            final(self).text() == decimal(final(self).value()),
    {
        match click {
            Click::Increase => self.on_increase(),
            Click::Decrease => self.on_decrease(),
        }
    }

    /// The clicks of a whole session, handled in order.
    pub fn on_clicks(&mut self, clicks: &[Click])
        ensures
            final(self).value() == after(old(self).value(), clicks@),
            final(self).text() == decimal(final(self).value()),
    {
        proof {
            use_type_invariant(&*self);
        }
        let mut i: usize = 0;
        while i < clicks.len()
            invariant
                i <= clicks.len(),
                self.value() == after(old(self).value(), clicks@.take(i as int)),
                self.text() == decimal(self.value()),
            decreases clicks.len() - i,
        {
            assert(clicks@.take(i + 1).drop_last() =~= clicks@.take(i as int));
            self.on_click(clicks[i]);
            i += 1;
        }
        assert(clicks@.take(i as int) =~= clicks@);
    }
}

impl Default for Window {
    /// The window as it opens: the counter at zero.
    fn default() -> (window: Self)
        ensures
            window.value() == 0,
            window.text() == decimal(0),
    {
        Window::new()
    }
}

} // verus!
