//! Geometry resolution: turning a size specification and the focused
//! display's rectangle into concrete pixel sizes and a centering offset.

use vstd::prelude::*;
use crate::config::Args;

verus! {

/// One axis of the scratchpad size: a share of the focused display's
/// dimension, or an absolute pixel count.
#[derive(Clone, Copy, PartialEq, Eq, Structural, Debug)]
pub enum Size {
    Percent(u64),
    Pixel(u64),
}

/// The focused display's dimensions in pixels.
#[derive(Clone, Copy, PartialEq, Eq, Structural, Debug)]
pub struct DisplayRect {
    pub width: u64,
    pub height: u64,
}

/// One entry of the manager's output list: whether the output has input
/// focus, and its rectangle.
#[derive(Clone, Copy, PartialEq, Eq, Structural, Debug)]
pub struct OutputInfo {
    pub focused: bool,
    pub rect: DisplayRect,
}

/// The size a specification resolves to against a display dimension `dim`:
/// a percentage takes its share rounded toward zero, a pixel count stands
/// as it is (and ignores `dim`).
pub open spec fn size_on(a: Size, dim: int) -> int {
    match a {
        Size::Percent(p) => dim * p / 100,
        Size::Pixel(n) => n as int,
    }
}

/// `floor(d * p / 100)`: the share `p` (in percent) of display dimension `d`.
pub fn resolve_percent(p: u64, d: u64) -> (r: u64)
    requires
        d * p / 100 <= u64::MAX,
    ensures
        r == d * p / 100,
        p == 0 || d == 0 ==> r == 0,
{
    (((d as u128) * (p as u128)) / 100) as u64
}

/// An absolute pixel size resolves to itself; no display data enters.
pub fn resolve_pixel(n: u64) -> (r: u64)
    ensures
        r == n,
{
    n
}

/// The offset that centers a box of `size` pixels within a display
/// dimension of `dim` pixels, rounded toward zero. Used only by the legacy
/// explicit-offset placement; the preferred placement lets the manager
/// center the box itself.
pub fn center_offset(dim: u64, size: u64) -> (r: u64)
    requires
        size <= dim,
    ensures
        r == (dim - size) / 2,
{
    (dim - size) / 2
}

/// A pixel specification resolves to the same size against any display
/// dimension: the display is never consulted for that axis.
pub proof fn lemma_pixel_ignores_display(a: Size, d1: int, d2: int)
    requires
        a is Pixel,
    ensures
        size_on(a, d1) == size_on(a, d2),
{
}

/// The width and height specification of the scratchpad, one [`Size`] per
/// axis.
#[derive(Clone, Copy, PartialEq, Eq, Structural, Debug)]
pub struct WindowSize {
    pub width: Size,
    pub height: Size,
}

/// True when at least one axis is percent-based, so that resolving the
/// sizes needs the focused display's rectangle.
pub open spec fn needs_display_spec(s: WindowSize) -> bool {
    s.width is Percent || s.height is Percent
}

impl WindowSize {
    /// Builds the size specification from the configuration: a non-zero
    /// pixel value wins for its axis, otherwise the percent value is taken.
    pub fn new(args: Args) -> (s: Self)
        ensures
            s.width == (if args.width_px == 0 {
                Size::Percent(args.width)
            } else {
                Size::Pixel(args.width_px)
            }),
            s.height == (if args.height_px == 0 {
                Size::Percent(args.height)
            } else {
                Size::Pixel(args.height_px)
            }),
    {
        let width = match args.width_px {
            0 => Size::Percent(args.width),
            _ => Size::Pixel(args.width_px),
        };

        let height = match args.height_px {
            0 => Size::Percent(args.height),
            _ => Size::Pixel(args.height_px),
        };

        Self { width, height }
    }

    /// The specification for the named axis: `"width"` or `"height"`.
    pub fn get_value(&self, measurement: &str) -> (r: Size)
        requires
            measurement@ == "width"@ || measurement@ == "height"@,
        ensures
            r == (if measurement@ == "width"@ {
                self.width
            } else {
                self.height
            }),
    {
        if measurement.to_owned() == String::from_str("width") {
            self.width
        } else {
            self.height
        }
    }

    /// True when resolving these sizes must fetch the focused display.
    pub fn needs_display(&self) -> (r: bool)
        ensures
            r == needs_display_spec(*self),
    {
        match (self.width, self.height) {
            (Size::Pixel(_), Size::Pixel(_)) => false,
            _ => true,
        }
    }

    /// Resolves both axes against the focused display's rectangle, which is
    /// fetched lazily by the caller: `None` is accepted, and suffices,
    /// exactly when both axes are absolute. With a display given, each axis
    /// resolves against the display's matching dimension; without one, a
    /// percent axis cannot be resolved and the call reports `None`.
    pub fn get_sizes(&self, display: Option<DisplayRect>) -> (r: Option<(u64, u64)>)
        requires
            display matches Some(d) ==> size_on(self.width, d.width as int) <= u64::MAX
                && size_on(self.height, d.height as int) <= u64::MAX,
        ensures
            r is None <==> (display is None && needs_display_spec(*self)),
            display matches Some(d) ==> r == Some(
                (
                    size_on(self.width, d.width as int) as u64,
                    size_on(self.height, d.height as int) as u64,
                ),
            ),
            !needs_display_spec(*self) ==> r == Some(
                (size_on(self.width, 0) as u64, size_on(self.height, 0) as u64),
            ),
    {
        match display {
            Some(d) => {
                let w = match self.width {
                    Size::Pixel(n) => resolve_pixel(n),
                    Size::Percent(p) => resolve_percent(p, d.width),
                };
                let h = match self.height {
                    Size::Pixel(n) => resolve_pixel(n),
                    Size::Percent(p) => resolve_percent(p, d.height),
                };
                Some((w, h))
            },
            None => {
                match (self.width, self.height) {
                    (Size::Pixel(w), Size::Pixel(h)) => Some((w, h)),
                    _ => None,
                }
            },
        }
    }
}

/// The first output that has input focus, by position in the manager's
/// output list; `None` when no output reports focus.
pub fn find_focused_output(outputs: &Vec<OutputInfo>) -> (r: Option<usize>)
    ensures
        match r {
            Some(i) => i < outputs@.len() && outputs@[i as int].focused && (forall|j: int|
                0 <= j < i ==> !outputs@[j].focused),
            None => forall|j: int| 0 <= j < outputs@.len() ==> !outputs@[j].focused,
        },
{
    let mut i: usize = 0;
    while i < outputs.len()
        invariant
            i <= outputs@.len(),
            forall|j: int| 0 <= j < i ==> !outputs@[j].focused,
        decreases outputs@.len() - i,
    {
        if outputs[i].focused {
            return Some(i);
        }
        i = i + 1;
    }
    None
}

} // verus!
