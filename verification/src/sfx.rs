//! Sound-effect requests the core emits; the audio shell drains them and
//! plays the matching files, fire-and-forget.

use vstd::prelude::*;

verus! {

#[derive(Clone, Copy, PartialEq, Eq, Structural, Debug)]
pub enum SfxRequest {
    MenuClick,
    PhysicalHit,
    CounterTick,
}

/// Sound-file key of each request.
pub open spec fn sfx_key_chars(s: SfxRequest) -> Seq<char> {
    match s {
        SfxRequest::MenuClick => "menu_click"@,
        SfxRequest::PhysicalHit => "physical_hit"@,
        SfxRequest::CounterTick => "counter_tick"@,
    }
}

impl SfxRequest {
    pub fn key(&self) -> (r: &'static str)
        ensures
            r@ == sfx_key_chars(*self),
    {
        match self {
            SfxRequest::MenuClick => "menu_click",
            SfxRequest::PhysicalHit => "physical_hit",
            SfxRequest::CounterTick => "counter_tick",
        }
    }
}

} // verus!
