//! Power-ups: abilities that are used up one charge at a time.

use vstd::prelude::*;

verus! {

#[derive(Debug, Clone, Copy, PartialEq, Eq, Hash, Structural)]
pub enum PowerUpType {
    Grabber,
    Bouncer,
}

/// A stock of charges.
pub trait PowerUpData: Sized {
    /// Whether a charge can be used.
    spec fn has_charge(&self) -> bool;

    /// Whether the count of charges can go down by one.
    spec fn can_use(&self) -> bool;

    /// The stock after one charge has been used.
    spec fn used(&self) -> Self;

    /// Tells whether a charge can be used.
    fn available(&self) -> (available: bool)
        ensures
            available == self.has_charge(),
    ;

    /// Uses one charge.
    fn use_one(&mut self)
        requires
            old(self).can_use(),
        ensures
            *final(self) == old(self).used(),
    ;
}

/// Lets the ball bounce off the paddle. A negative count never runs out.
#[derive(Debug, Clone, Copy, PartialEq, Eq, Structural)]
pub struct Bouncer {
    pub bounces: i16,
}

impl PowerUpData for Bouncer {
    open spec fn has_charge(&self) -> bool {
        self.bounces != 0
    }

    open spec fn can_use(&self) -> bool {
        self.bounces > i16::MIN
    }

    open spec fn used(&self) -> Bouncer {
        Bouncer { bounces: (self.bounces - 1) as i16 }
    }

    fn available(&self) -> (available: bool) {
        self.bounces > 0 || self.bounces < 0
    }

    fn use_one(&mut self) {
        self.bounces -= 1;
    }
}

/// Lets the paddle recall a ball from play.
#[derive(Debug, Clone, Copy, PartialEq, Eq, Structural)]
pub struct Grabber {
    pub grabs: i16,
}

impl PowerUpData for Grabber {
    open spec fn has_charge(&self) -> bool {
        self.grabs > 0
    }

    open spec fn can_use(&self) -> bool {
        self.grabs > i16::MIN
    }

    open spec fn used(&self) -> Grabber {
        Grabber { grabs: (self.grabs - 1) as i16 }
    }

    fn available(&self) -> (available: bool) {
        self.grabs > 0
    }

    fn use_one(&mut self) {
        self.grabs -= 1;
    }
}

} // verus!
