//! The web application.

use vstd::prelude::*;

verus! {

/// The web application; the routes and services around it are set up where it is served.
#[derive(Clone)]
pub struct App {}

impl App {
    /// The application.
    pub fn new() -> (r: App) {
        App {}
    }
}

} // verus!
