//! The raw-only printer front end: each connection's job goes to the renderer.

use vstd::prelude::*;
use std::sync::Arc;
use crate::render::Renderer;

verus! {

/// Hands the jobs of raw connections to a shared renderer.
pub struct Printer {
    renderer: Arc<Renderer>,
}

impl Printer {
    pub closed spec fn renderer_spec(&self) -> Arc<Renderer> {
        self.renderer
    }

    pub fn new(renderer: Arc<Renderer>) -> (r: Printer)
        ensures
            r.renderer_spec() == renderer,
    {
        Printer { renderer }
    }

    /// The renderer that jobs go to.
    pub fn renderer(&self) -> (r: &Arc<Renderer>)
        ensures
            *r == self.renderer_spec(),
    {
        &self.renderer
    }
}

} // verus!
