//! Counters for one run over a directory tree.
use vstd::prelude::*;

verus! {

/// Tracks how many files were changed, left as they were, skipped, or
/// failed. Each counter stops at `u16::MAX` rather than wrapping.
#[derive(Debug)]
#[must_use]
pub struct Stats {
    changed: u16,
    not_changed: u16,
    skipped: u16,
    errors: u16,
}

/// `n + 1`, held at `u16::MAX`.
pub open spec fn saturating_inc(n: u16) -> u16 {
    if n == u16::MAX { n } else { (n + 1) as u16 }
}

/// `a + b`, held at `u16::MAX`.
pub open spec fn saturating_sum(a: u16, b: u16) -> u16 {
    if a + b > u16::MAX { u16::MAX } else { (a + b) as u16 }
}

impl View for Stats {
    /// The four counters: changed, not changed, skipped, errors.
    type V = (u16, u16, u16, u16);

    closed spec fn view(&self) -> (u16, u16, u16, u16) {
        (self.changed, self.not_changed, self.skipped, self.errors)
    }
}

impl Stats {
    /// All counters at zero.
    pub fn new() -> (r: Self)
        ensures
            r@ == (0u16, 0u16, 0u16, 0u16),
    {
        Self { changed: 0, not_changed: 0, skipped: 0, errors: 0 }
    }

    /// Gets the current value of `changed`
    pub fn changed(&self) -> (r: u16)
        ensures
            r == self@.0,
    {
        self.changed
    }

    /// Gets the current value of `not_changed`
    pub fn not_changed(&self) -> (r: u16)
        ensures
            r == self@.1,
    {
        self.not_changed
    }

    /// Gets the current value of `skipped`
    pub fn skipped(&self) -> (r: u16)
        ensures
            r == self@.2,
    {
        self.skipped
    }

    /// Gets the current value of `errors`
    pub fn errors(&self) -> (r: u16)
        ensures
            r == self@.3,
    {
        self.errors
    }

    /// Increments `changed` by 1 (saturating if applicable)
    pub fn inc_changed(&mut self)
        ensures
            final(self)@ == (saturating_inc(old(self)@.0), old(self)@.1, old(self)@.2, old(self)@.3),
    {
        self.changed = self.changed.saturating_add(1);
    }

    /// Increments `not_changed` by 1 (saturating if applicable)
    pub fn inc_not_changed(&mut self)
        ensures
            final(self)@ == (old(self)@.0, saturating_inc(old(self)@.1), old(self)@.2, old(self)@.3),
    {
        self.not_changed = self.not_changed.saturating_add(1);
    }

    /// Increments `skipped` by 1 (saturating if applicable)
    pub fn inc_skipped(&mut self)
        ensures
            final(self)@ == (old(self)@.0, old(self)@.1, saturating_inc(old(self)@.2), old(self)@.3),
    {
        self.skipped = self.skipped.saturating_add(1);
    }

    /// Increments `errors` by 1 (saturating if applicable)
    pub fn inc_errors(&mut self)
        ensures
            final(self)@ == (old(self)@.0, old(self)@.1, old(self)@.2, saturating_inc(old(self)@.3)),
    {
        self.errors = self.errors.saturating_add(1);
    }

    /// Adds the counters of `rhs` to those of `self`, each held at `u16::MAX`.
    pub fn add_assign(&mut self, rhs: Self)
        ensures
            final(self)@ == (
                saturating_sum(old(self)@.0, rhs@.0),
                saturating_sum(old(self)@.1, rhs@.1),
                saturating_sum(old(self)@.2, rhs@.2),
                saturating_sum(old(self)@.3, rhs@.3),
            ),
    {
        self.changed = self.changed.saturating_add(rhs.changed);
        self.not_changed = self.not_changed.saturating_add(rhs.not_changed);
        self.skipped = self.skipped.saturating_add(rhs.skipped);
        self.errors = self.errors.saturating_add(rhs.errors);
    }
}

impl Default for Stats {
    fn default() -> (r: Self)
        ensures
            r@ == (0u16, 0u16, 0u16, 0u16),
    {
        Self::new()
    }
}

} // verus!
