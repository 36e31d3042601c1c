use vstd::prelude::*;

verus! {

/// The three standard caption-bar buttons ("traffic lights").
#[derive(Clone, Copy, Debug, PartialEq, Eq, Structural)]
pub enum TrafficLight {
    Close,
    Miniaturize,
    Zoom,
}

/// The order in which the buttons stand, from the leading edge of the title bar.
pub open spec fn traffic_light_order() -> Seq<TrafficLight> {
    seq![TrafficLight::Close, TrafficLight::Miniaturize, TrafficLight::Zoom]
}

/// Every button, in the order in which they stand.
pub fn traffic_lights() -> (r: Vec<TrafficLight>)
    ensures
        r@ == traffic_light_order(),
{
    let r = vec![TrafficLight::Close, TrafficLight::Miniaturize, TrafficLight::Zoom];
    assert(r@ =~= traffic_light_order());
    r
}

impl TrafficLight {
    /// The button's position in the row: the number of horizontal gaps that
    /// lie between it and the close button.
    pub fn ordinal(self) -> (r: usize)
        ensures
            r < traffic_light_order().len(),
            traffic_light_order()[r as int] == self,
    {
        match self {
            TrafficLight::Close => 0,
            TrafficLight::Miniaturize => 1,
            TrafficLight::Zoom => 2,
        }
    }
}

/// Each button stands in the row exactly once.
pub proof fn lemma_traffic_lights_distinct(i: int, j: int)
    requires
        0 <= i < traffic_light_order().len(),
        0 <= j < traffic_light_order().len(),
        traffic_light_order()[i] == traffic_light_order()[j],
    ensures
        i == j,
{
}

} // verus!
