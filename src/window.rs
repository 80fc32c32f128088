//! Windows and the geometry of the overlay window.
//!
//! A `Window` records what the library knows of a server-side window: its
//! handle, the root window, its depth, position and size and, for the
//! overlay window, the mapping its geometry is derived from.
use vstd::prelude::*;
use crate::color::{Depth, depth_from_bits};
use crate::coord::{Coord, Size, FRAC_ONE, clamp_i16};
use crate::vec::Vec2;

verus! {

/// How the overlay window's geometry is derived from its parent's extent.
#[derive(Debug, PartialEq, Eq, Structural, Clone, Copy)]
pub enum Mapping {
    /// The whole parent.
    FullScreen,
    /// Absolute pixels, which must lie within the parent.
    Pixels { pos: Vec2<i16>, size: Vec2<u16> },
    /// Fractions of the parent's extent (16.16 fixed point, see `FRAC_ONE`),
    /// each in `[0, 1]`, with offset plus extent at most 1 on each axis.
    Percent { fpos: Coord, fsize: Size },
}

/// Why a mapping could not be resolved against a parent extent.
#[derive(Debug, PartialEq, Eq, Structural, Clone, Copy)]
pub enum GeometryError {
    /// A `Pixels` mapping that does not lie within the parent.
    InvalidCoordinates,
    /// A `Percent` mapping with a negative fraction or offset plus extent
    /// above 1.
    InvalidPercentage,
}

/// A position and a size in pixels.
#[derive(Debug, PartialEq, Eq, Structural, Clone, Copy)]
pub struct Geometry {
    pub pos: Vec2<i16>,
    pub size: Vec2<u16>,
}

/// Whether a `Pixels` rectangle lies within a parent extent.
pub open spec fn pixels_fit(pos: Vec2<i16>, size: Vec2<u16>, parent: Vec2<u16>) -> bool {
    pos.x >= 0 && pos.y >= 0 && pos.x + size.x <= parent.x && pos.y + size.y <= parent.y
}

/// Whether `Percent` fractions are non-negative and stay within the parent.
pub open spec fn percent_fits(fpos: Coord, fsize: Size) -> bool {
    fpos.x >= 0 && fpos.y >= 0 && fsize.x >= 0 && fsize.y >= 0 && fpos.x + fsize.x <= FRAC_ONE
        && fpos.y + fsize.y <= FRAC_ONE
}

/// The pixels covered by the fraction `f` (in `[0, 1]`) of an extent,
/// rounded down.
pub open spec fn fraction_of(extent: u16, f: i32) -> int {
    (extent as int) * (f as int) / (FRAC_ONE as int)
}

/// The overlay geometry that a mapping gives on a parent extent.
pub open spec fn resolution(m: Mapping, parent: Vec2<u16>) -> Result<Geometry, GeometryError> {
    match m {
        Mapping::FullScreen => Ok(Geometry { pos: Vec2 { x: 0, y: 0 }, size: parent }),
        Mapping::Pixels { pos, size } => {
            if pixels_fit(pos, size, parent) {
                Ok(Geometry { pos, size })
            } else {
                Err(GeometryError::InvalidCoordinates)
            }
        },
        Mapping::Percent { fpos, fsize } => {
            if percent_fits(fpos, fsize) {
                Ok(
                    Geometry {
                        pos: Vec2 {
                            x: clamp_i16(fraction_of(parent.x, fpos.x)),
                            y: clamp_i16(fraction_of(parent.y, fpos.y)),
                        },
                        size: Vec2 {
                            x: fraction_of(parent.x, fsize.x) as u16,
                            y: fraction_of(parent.y, fsize.y) as u16,
                        },
                    },
                )
            } else {
                Err(GeometryError::InvalidPercentage)
            }
        },
    }
}

/// The pixels covered by the fraction `f` of an extent, for `0 <= f <= 1`.
fn fraction_pixels(extent: u16, f: i32) -> (r: u16)
    requires
        0 <= f <= FRAC_ONE,
    ensures
        r == fraction_of(extent, f),
{
    assert(0 <= (extent as int) * (f as int) <= (extent as int) * 65536) by (nonlinear_arith)
        requires
            0 <= f <= 65536,
            0 <= extent,
    ;
    assert((extent as int) * 65536 / 65536 == extent as int) by (nonlinear_arith);
    assert((extent as int) * (f as int) / 65536 <= (extent as int) * 65536 / 65536)
        by (nonlinear_arith)
        requires
            (extent as int) * (f as int) <= (extent as int) * 65536,
    ;
    let p = (extent as u64) * (f as u64);
    (p / (FRAC_ONE as u64)) as u16
}

/// Resolves a mapping against a parent extent.
pub fn resolve(mapping: &Mapping, parent: Vec2<u16>) -> (r: Result<Geometry, GeometryError>)
    ensures
        r == resolution(*mapping, parent),
{
    match mapping {
        Mapping::FullScreen => Ok(Geometry { pos: Vec2 { x: 0, y: 0 }, size: parent }),
        Mapping::Pixels { pos, size } => {
            if pos.x < 0 || pos.y < 0 || pos.x as i64 + size.x as i64 > parent.x as i64
                || pos.y as i64 + size.y as i64 > parent.y as i64 {
                Err(GeometryError::InvalidCoordinates)
            } else {
                Ok(Geometry { pos: *pos, size: *size })
            }
        },
        Mapping::Percent { fpos, fsize } => {
            if fpos.x < 0 || fpos.y < 0 || fsize.x < 0 || fsize.y < 0 || fpos.x as i64
                + fsize.x as i64 > FRAC_ONE as i64 || fpos.y as i64 + fsize.y as i64
                > FRAC_ONE as i64 {
                Err(GeometryError::InvalidPercentage)
            } else {
                let x = fraction_pixels(parent.x, fpos.x);
                let y = fraction_pixels(parent.y, fpos.y);
                let w = fraction_pixels(parent.x, fsize.x);
                let h = fraction_pixels(parent.y, fsize.y);
                let x16: i16 = if x > i16::MAX as u16 {
                    i16::MAX
                } else {
                    x as i16
                };
                let y16: i16 = if y > i16::MAX as u16 {
                    i16::MAX
                } else {
                    y as i16
                };
                Ok(Geometry { pos: Vec2 { x: x16, y: y16 }, size: Vec2 { x: w, y: h } })
            }
        },
    }
}

/// A server-side window as the library records it.
#[derive(Debug, PartialEq, Eq, Structural, Clone, Copy)]
pub struct Window {
    pub depth: Depth,
    pub id: u32,
    pub root: u32,
    pub mapping: Mapping,
    pub pos: Vec2<i16>,
    pub size: Vec2<u16>,
}

/// The outcome of refreshing a window against a parent extent: the error,
/// or whether its geometry changed.
pub open spec fn refresh_outcome(w: Window, parent: Vec2<u16>) -> Result<bool, GeometryError> {
    match resolution(w.mapping, parent) {
        Ok(g) => Ok(g != w.geometry()),
        Err(e) => Err(e),
    }
}

/// The window after a refresh against a parent extent.
pub open spec fn refreshed(w: Window, parent: Vec2<u16>) -> Window {
    match resolution(w.mapping, parent) {
        Ok(g) => Window { pos: g.pos, size: g.size, ..w },
        Err(_) => w,
    }
}

impl Window {
    /// The window's current geometry.
    pub open spec fn geometry(self) -> Geometry {
        Geometry { pos: self.pos, size: self.size }
    }

    /// Records an overlay window with handle `id`, a child of `parent`
    /// placed by `mapping`. Its depth and root are the parent's. Fails when
    /// the mapping does not resolve against the parent's extent.
    pub fn new(id: u32, parent: &Window, mapping: &Mapping) -> (r: Result<Window, GeometryError>)
        ensures
            match resolution(*mapping, parent.size) {
                Ok(g) => r == Ok::<Window, GeometryError>(
                    Window {
                        depth: parent.depth,
                        id,
                        root: parent.root,
                        mapping: *mapping,
                        pos: g.pos,
                        size: g.size,
                    },
                ),
                Err(e) => r == Err::<Window, GeometryError>(e),
            },
    {
        match resolve(mapping, parent.size) {
            Ok(g) => Ok(
                Window {
                    depth: parent.depth,
                    id,
                    root: parent.root,
                    mapping: *mapping,
                    pos: g.pos,
                    size: g.size,
                },
            ),
            Err(e) => Err(e),
        }
    }

    /// Records an existing window (the parent of an overlay) from its
    /// handle, its root and the geometry the server reported. Its mapping
    /// is `FullScreen`.
    pub fn from(id: u32, root: u32, depth: u8, pos: Vec2<i16>, size: Vec2<u16>) -> (r: Window)
        ensures
            r.id == id,
            r.root == root,
            r.depth == depth_from_bits(depth),
            r.mapping == Mapping::FullScreen,
            r.pos == pos,
            r.size == size,
    {
        Window { depth: Depth::from(depth), id, root, mapping: Mapping::FullScreen, pos, size }
    }

    /// Re-derives the geometry from the mapping and the parent's extent.
    /// Returns whether the geometry changed: only then need the server be
    /// told. On an error the window is left as it was.
    pub fn refresh(&mut self, parent: &Window) -> (r: Result<bool, GeometryError>)
        ensures
            r == refresh_outcome(*old(self), parent.size),
            *final(self) == refreshed(*old(self), parent.size),
    {
        match resolve(&self.mapping, parent.size) {
            Ok(g) => {
                let changed = !(g.pos == self.pos && g.size == self.size);
                self.pos = g.pos;
                self.size = g.size;
                Ok(changed)
            },
            Err(e) => Err(e),
        }
    }

    /// Records the position and size the server reported for this window
    /// (the window itself is not moved or resized).
    pub fn record_geometry(&mut self, pos: Vec2<i16>, size: Vec2<u16>)
        ensures
            *final(self) == (Window { pos, size, ..*old(self) }),
    {
        self.pos = pos;
        self.size = size;
    }

    /// Records a new size reported by the server (the window itself is not
    /// resized).
    pub fn resize_event(&mut self, size: Vec2<u16>)
        ensures
            *final(self) == (Window { size, ..*old(self) }),
    {
        self.size = size;
    }

    /// Whether this window is the active window, given the active-window
    /// property of the root (absent or unreadable: `None`).
    pub fn has_focus(&self, active: Option<u32>) -> (r: bool)
        ensures
            r == (active == Some(self.id)),
    {
        match active {
            Some(a) => a == self.id,
            None => false,
        }
    }

    /// The window's handle.
    pub fn id(&self) -> (r: u32)
        ensures
            r == self.id,
    {
        self.id
    }

    /// The root window's handle.
    pub fn root(&self) -> (r: u32)
        ensures
            r == self.root,
    {
        self.root
    }

    /// The window's size in pixels.
    pub fn size(&self) -> (r: Vec2<u16>)
        ensures
            r == self.size,
    {
        self.size
    }

    /// The window's position in pixels, relative to its parent.
    pub fn position(&self) -> (r: Vec2<i16>)
        ensures
            r == self.pos,
    {
        self.pos
    }

    /// The window's depth.
    pub fn depth(&self) -> (r: Depth)
        ensures
            r == self.depth,
    {
        self.depth
    }

    /// The mapping the window's geometry is derived from.
    pub fn mapping(&self) -> (r: Mapping)
        ensures
            r == self.mapping,
    {
        self.mapping
    }

    /// The window's width in pixels.
    pub fn width(&self) -> (r: u16)
        ensures
            r == self.size.x,
    {
        self.size.x
    }

    /// The window's height in pixels.
    pub fn height(&self) -> (r: u16)
        ensures
            r == self.size.y,
    {
        self.size.y
    }
}

/// A `Percent` mapping with a negative fraction, or with offset plus extent
/// above 1 on an axis, is rejected with `InvalidPercentage` on every parent
/// extent.
pub proof fn lemma_percent_out_of_range_rejected(parent: Vec2<u16>, fpos: Coord, fsize: Size)
    requires
        fpos.x + fsize.x > FRAC_ONE || fpos.y + fsize.y > FRAC_ONE || fpos.x < 0 || fpos.y < 0
            || fsize.x < 0 || fsize.y < 0,
    ensures
        resolution(Mapping::Percent { fpos, fsize }, parent) == Err::<Geometry, GeometryError>(
            GeometryError::InvalidPercentage,
        ),
{
}

/// A `Pixels` mapping whose rectangle does not lie within the parent is
/// rejected with `InvalidCoordinates`.
pub proof fn lemma_pixels_out_of_bounds_rejected(parent: Vec2<u16>, pos: Vec2<i16>, size: Vec2<u16>)
    requires
        !pixels_fit(pos, size, parent),
    ensures
        resolution(Mapping::Pixels { pos, size }, parent) == Err::<Geometry, GeometryError>(
            GeometryError::InvalidCoordinates,
        ),
{
}

/// A `FullScreen` mapping covers its parent exactly: origin and full extent.
pub proof fn lemma_full_screen_covers_parent(parent: Vec2<u16>)
    ensures
        resolution(Mapping::FullScreen, parent) == Ok::<Geometry, GeometryError>(
            Geometry { pos: Vec2 { x: 0, y: 0 }, size: parent },
        ),
{
}

/// Refreshing twice against the same parent extent: the second refresh
/// reports no change and leaves the window as it was.
pub proof fn lemma_refresh_idempotent(w: Window, parent: Vec2<u16>)
    ensures
        refresh_outcome(w, parent) is Ok ==> refresh_outcome(refreshed(w, parent), parent)
            == Ok::<bool, GeometryError>(false),
        refreshed(refreshed(w, parent), parent) == refreshed(w, parent),
{
}

/// The use of an input device, as the input extension reports it.
#[derive(Debug, PartialEq, Eq, Structural, Clone, Copy)]
pub enum DeviceKind {
    Keyboard,
    Pointer,
    Other,
}

/// Raw input an overlay subscribes to.
#[derive(Debug, PartialEq, Eq, Structural, Clone, Copy)]
pub enum InputMask {
    RawKeyPress,
    Motion,
    RawButtonPress,
}

/// The input subscriptions, as (window, mask) pairs, for a device of the
/// given kind when an overlay adopts `parent` under `root`: key presses
/// from keyboards on the root (the parent may lack the input focus in the
/// usual sense), pointer motion on the parent and button presses on the
/// root from pointers, nothing from other devices.
pub open spec fn selections_of(kind: DeviceKind, parent: u32, root: u32) -> Seq<(u32, InputMask)> {
    match kind {
        DeviceKind::Keyboard => seq![(root, InputMask::RawKeyPress)],
        DeviceKind::Pointer => seq![(parent, InputMask::Motion), (root, InputMask::RawButtonPress)],
        DeviceKind::Other => seq![],
    }
}

/// The input subscriptions for a device of the given kind.
pub fn input_selections(kind: DeviceKind, parent: u32, root: u32) -> (r: Vec<(u32, InputMask)>)
    ensures
        r@ == selections_of(kind, parent, root),
{
    let mut out: Vec<(u32, InputMask)> = Vec::new();
    match kind {
        DeviceKind::Keyboard => {
            out.push((root, InputMask::RawKeyPress));
        },
        DeviceKind::Pointer => {
            out.push((parent, InputMask::Motion));
            out.push((root, InputMask::RawButtonPress));
        },
        DeviceKind::Other => {},
    }
    assert(out@ =~= selections_of(kind, parent, root));
    out
}

/// Something that can be drawn on: a window, or the overlay's window.
pub trait Drawable {
    /// The server-side handle.
    spec fn handle(&self) -> u32;

    /// The number of bits per pixel.
    spec fn bits(&self) -> Depth;

    /// The size in pixels.
    spec fn extent(&self) -> Vec2<u16>;

    /// The position in pixels, relative to the parent.
    spec fn origin(&self) -> Vec2<i16>;

    /// The server-side handle.
    fn id(&self) -> (r: u32)
        ensures
            r == self.handle(),
    ;

    /// The size in pixels.
    fn size(&self) -> (r: Vec2<u16>)
        ensures
            r == self.extent(),
    ;

    /// The position in pixels, relative to the parent.
    fn position(&self) -> (r: Vec2<i16>)
        ensures
            r == self.origin(),
    ;

    /// The number of bits per pixel.
    fn depth(&self) -> (r: Depth)
        ensures
            r == self.bits(),
    ;

    /// The width in pixels.
    fn width(&self) -> (r: u16)
        ensures
            r == self.extent().x,
    {
        self.size().x
    }

    /// The height in pixels.
    fn height(&self) -> (r: u16)
        ensures
            r == self.extent().y,
    {
        self.size().y
    }

    /// The x coordinate of the position.
    fn x(&self) -> (r: i16)
        ensures
            r == self.origin().x,
    {
        self.position().x
    }

    /// The y coordinate of the position.
    fn y(&self) -> (r: i16)
        ensures
            r == self.origin().y,
    {
        self.position().y
    }
}

impl Drawable for Window {
    open spec fn handle(&self) -> u32 {
        self.id
    }

    open spec fn bits(&self) -> Depth {
        self.depth
    }

    open spec fn extent(&self) -> Vec2<u16> {
        self.size
    }

    open spec fn origin(&self) -> Vec2<i16> {
        self.pos
    }

    fn id(&self) -> u32 {
        self.id
    }

    fn size(&self) -> (r: Vec2<u16>) {
        Window::size(self)
    }

    fn position(&self) -> (r: Vec2<i16>) {
        Window::position(self)
    }

    fn depth(&self) -> Depth {
        Window::depth(self)
    }
}

} // verus!
