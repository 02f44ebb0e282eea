use vstd::prelude::*;

verus! {

/// The four rotation states of a display, a quarter turn apart.
#[derive(Clone, Copy, Debug, PartialEq, Eq, Structural)]
pub enum Orientation {
    Landscape,
    Portrait,
    LandscapeFlipped,
    PortraitFlipped,
}

/// Number of quarter turns of `o` from `Landscape`; also its byte on the wire.
pub open spec fn quarter_turns(o: Orientation) -> nat {
    match o {
        Orientation::Landscape => 0,
        Orientation::Portrait => 1,
        Orientation::LandscapeFlipped => 2,
        Orientation::PortraitFlipped => 3,
    }
}

/// The orientation whose wire byte is `b`, if any.
pub open spec fn orientation_of_tag(b: u8) -> Option<Orientation> {
    if b == 0 {
        Some(Orientation::Landscape)
    } else if b == 1 {
        Some(Orientation::Portrait)
    } else if b == 2 {
        Some(Orientation::LandscapeFlipped)
    } else if b == 3 {
        Some(Orientation::PortraitFlipped)
    } else {
        None
    }
}

/// Clockwise angle, in degrees within [0, 360), that turns `from` into `to`.
pub open spec fn turn_degrees(from: Orientation, to: Orientation) -> int {
    (90 * (quarter_turns(to) - quarter_turns(from)) + 360) % 360
}

/// Whether going from `from` to `to` exchanges width and height.
pub open spec fn swaps_axes_spec(from: Orientation, to: Orientation) -> bool {
    (quarter_turns(from) + quarter_turns(to)) % 2 == 1
}

impl Orientation {
    /// The orientation's byte on the wire: 0, 1, 2 or 3.
    pub fn tag(self) -> (r: u8)
        ensures
            r as nat == quarter_turns(self),
    {
        match self {
            Orientation::Landscape => 0,
            Orientation::Portrait => 1,
            Orientation::LandscapeFlipped => 2,
            Orientation::PortraitFlipped => 3,
        }
    }

    /// The orientation carried by a wire byte; `None` for bytes above 3.
    pub fn from_tag(b: u8) -> (r: Option<Orientation>)
        ensures
            r == orientation_of_tag(b),
    {
        if b == 0 {
            Some(Orientation::Landscape)
        } else if b == 1 {
            Some(Orientation::Portrait)
        } else if b == 2 {
            Some(Orientation::LandscapeFlipped)
        } else if b == 3 {
            Some(Orientation::PortraitFlipped)
        } else {
            None
        }
    }

    /// Rotation angle from `Landscape`, in degrees.
    pub fn degrees(self) -> (r: u16)
        ensures
            r as int == 90 * quarter_turns(self),
    {
        let t: u8 = self.tag();
        90 * (t as u16)
    }

    /// Whether a rotation from `self` to `to` must exchange width and height:
    /// true for a quarter turn either way, false for none or a half turn.
    pub fn swaps_axes(self, to: Orientation) -> (r: bool)
        ensures
            r == swaps_axes_spec(self, to),
    {
        (self.tag() + to.tag()) % 2 == 1
    }
}

/// Rotating by a half turn keeps the axes; a quarter turn either way swaps them.
pub proof fn lemma_axis_swap_iff_quarter_turn(from: Orientation, to: Orientation)
    ensures
        turn_degrees(from, to) == 180 ==> !swaps_axes_spec(from, to),
        (turn_degrees(from, to) == 90 || turn_degrees(from, to) == 270) ==> swaps_axes_spec(
            from,
            to,
        ),
        turn_degrees(from, to) == 0 ==> !swaps_axes_spec(from, to),
{
}

/// Reading a wire byte back gives the orientation it was written from, and
/// every byte that reads as an orientation is that orientation's byte.
pub proof fn lemma_tag_round_trip(o: Orientation, b: u8)
    ensures
        orientation_of_tag(quarter_turns(o) as u8) == Some(o),
        orientation_of_tag(b) == Some(o) ==> b as nat == quarter_turns(o),
{
}

/// A display mode: its size and the orientation it shows.
#[derive(Clone, Copy, Debug, PartialEq, Eq, Structural)]
pub struct DisplayMode {
    pub width: u32,
    pub height: u32,
    pub orientation: Orientation,
}

/// The mode to hand the display so that it shows `target`, starting from `current`.
pub open spec fn rotated_mode(current: DisplayMode, target: Orientation) -> DisplayMode {
    if swaps_axes_spec(current.orientation, target) {
        DisplayMode { width: current.height, height: current.width, orientation: target }
    } else {
        DisplayMode { width: current.width, height: current.height, orientation: target }
    }
}

/// Computes the mode that turns the display from `current` to `target`:
/// width and height change places exactly when the turn is a quarter turn.
pub fn plan_rotation(current: DisplayMode, target: Orientation) -> (r: DisplayMode)
    ensures
        r == rotated_mode(current, target),
{
    if current.orientation.swaps_axes(target) {
        DisplayMode { width: current.height, height: current.width, orientation: target }
    } else {
        DisplayMode { width: current.width, height: current.height, orientation: target }
    }
}

/// The mode to apply for `target` given the display's current mode; none
/// when the current mode could not be read.
pub fn rotation_plan(current: Option<DisplayMode>, target: Orientation) -> (r: Option<DisplayMode>)
    ensures
        current is None ==> r is None,
        current matches Some(m) ==> r == Some(rotated_mode(m, target)),
{
    match current {
        None => None,
        Some(m) => Some(plan_rotation(m, target)),
    }
}

/// A planned mode swaps the axes for quarter turns and keeps them for half turns.
pub proof fn lemma_plan_swaps_exactly_on_quarter_turns(current: DisplayMode, target: Orientation)
    ensures
        turn_degrees(current.orientation, target) == 180 ==> rotated_mode(current, target).width
            == current.width && rotated_mode(current, target).height == current.height,
        (turn_degrees(current.orientation, target) == 90 || turn_degrees(
            current.orientation,
            target,
        ) == 270) ==> rotated_mode(current, target).width == current.height && rotated_mode(
            current,
            target,
        ).height == current.width,
        rotated_mode(current, target).orientation == target,
{
    lemma_axis_swap_iff_quarter_turn(current.orientation, target);
}

} // verus!
