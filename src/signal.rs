//! A flag shared between the loop and the busy indicator, to pause the indicator while
//! the terminal is in use.
use vstd::prelude::*;
use std::sync::atomic::{AtomicBool, Ordering};

verus! {

/// A shared on/off flag. Another thread may flip it at any time, so a reading promises
/// nothing beyond the moment it was taken.
#[derive(Debug)]
pub struct Signal {
    flag: AtomicBool,
}

impl Signal {
    /// A flag that starts off.
    pub fn new() -> (r: Signal) {
        Signal { flag: AtomicBool::new(false) }
    }

    pub fn on(&self) {
        self.flag.store(true, Ordering::Relaxed);
    }

    pub fn off(&self) {
        self.flag.store(false, Ordering::Relaxed);
    }

    pub fn is_on(&self) -> (r: bool) {
        self.flag.load(Ordering::Relaxed)
    }
}

} // verus!
