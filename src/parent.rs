use vstd::prelude::*;

verus! {

/// What the hosting view receives from the window system.
#[derive(Clone, Copy, Debug, PartialEq, Eq, Structural)]
pub enum ViewEvent {
    /// A key was pressed while the view had focus; `has_main_menu` tells
    /// whether the application has a main menu at that moment.
    KeyDown { has_main_menu: bool },
    /// The view is asked to redraw itself.
    Draw,
}

/// What the hosting view does in answer to an event.
#[derive(Clone, Copy, Debug, PartialEq, Eq, Structural)]
pub enum ViewAction<P> {
    /// Nothing is to be done.
    Nothing,
    /// Ask the main menu to perform the key equivalent bound to the key event.
    PerformKeyEquivalent,
    /// Move the caption-bar buttons to the inset that is carried.
    InsetTrafficLights(P),
}

/// The state of the hosting view: the inset of the caption-bar buttons, once
/// one has been configured. `P` is the coordinate pair, in logical units.
#[derive(Clone, Copy, Debug)]
pub struct WryWebViewParentIvars<P> {
    traffic_light_inset: Option<P>,
}

impl<P: Copy> WryWebViewParentIvars<P> {
    /// The configured inset, if any.
    pub closed spec fn inset(&self) -> Option<P> {
        self.traffic_light_inset
    }

    /// The answer to `event` in a state whose configured inset is `inset`.
    pub open spec fn action_spec(inset: Option<P>, event: ViewEvent) -> ViewAction<P> {
        match event {
            ViewEvent::KeyDown { has_main_menu } => if has_main_menu {
                ViewAction::PerformKeyEquivalent
            } else {
                ViewAction::Nothing
            },
            ViewEvent::Draw => match inset {
                Some(p) => ViewAction::InsetTrafficLights(p),
                None => ViewAction::Nothing,
            },
        }
    }

    /// A view with no inset configured.
    pub fn new() -> (r: Self)
        ensures
            r.inset() is None,
    {
        WryWebViewParentIvars { traffic_light_inset: None }
    }

    /// The configured inset, if any.
    pub fn traffic_light_inset(&self) -> (r: Option<P>)
        ensures
            r == self.inset(),
    {
        self.traffic_light_inset
    }

    /// Configures the inset of the caption-bar buttons, replacing any earlier
    /// one. The caller moves the buttons to `inset` at once, as on a redraw.
    pub fn set_traffic_light_inset(&mut self, inset: P) -> (r: ViewAction<P>)
        ensures
            final(self).inset() == Some(inset),
            r == ViewAction::InsetTrafficLights(inset),
    {
        self.traffic_light_inset = Some(inset);
        ViewAction::InsetTrafficLights(inset)
    }

    /// Decides what the view does on `event`. A key press goes to the main
    /// menu when there is one; a redraw moves the buttons to the configured
    /// inset, every time, when one is configured.
    pub fn handle_event(&self, event: ViewEvent) -> (r: ViewAction<P>)
        ensures
            r == Self::action_spec(self.inset(), event),
    {
        match event {
            ViewEvent::KeyDown { has_main_menu } => {
                if has_main_menu {
                    ViewAction::PerformKeyEquivalent
                } else {
                    ViewAction::Nothing
                }
            },
            ViewEvent::Draw => match self.traffic_light_inset {
                Some(p) => ViewAction::InsetTrafficLights(p),
                None => ViewAction::Nothing,
            },
        }
    }
}

/// Configuring an inset makes every later redraw move the buttons to it,
/// and leaves the answer to key presses as it was.
pub proof fn lemma_set_inset_then_event<P: Copy>(
    before: WryWebViewParentIvars<P>,
    after: WryWebViewParentIvars<P>,
    inset: P,
    event: ViewEvent,
)
    requires
        after.inset() == Some(inset),
    ensures
        event is Draw ==> WryWebViewParentIvars::<P>::action_spec(after.inset(), event)
            == ViewAction::InsetTrafficLights(inset),
        event is KeyDown ==> WryWebViewParentIvars::<P>::action_spec(after.inset(), event)
            == WryWebViewParentIvars::<P>::action_spec(before.inset(), event),
{
}

/// Without a configured inset, a redraw leaves the buttons where they are.
pub proof fn lemma_no_inset_no_move<P: Copy>(s: WryWebViewParentIvars<P>)
    requires
        s.inset() is None,
    ensures
        WryWebViewParentIvars::<P>::action_spec(s.inset(), ViewEvent::Draw) == ViewAction::<
            P,
        >::Nothing,
{
}

} // verus!
