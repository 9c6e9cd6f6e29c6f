//! The raster tile: a room's canvas and its version counter.
//!
//! A tile is a rectangle of premultiplied RGBA pixels, four bytes each and
//! row by row, together with a counter that tells its revisions apart. The
//! only way to change the pixels is [`Tile::apply`], which installs a
//! repainted canvas and advances the counter in one step, so no reader can
//! ever meet new pixels under an old version or an old canvas under a new
//! one. Rasterising dabs onto a copy of the canvas is the caller's part.

use crate::encoding::{
    base64_len,
    base64_standard,
    encodable_size,
    encode_rgba8,
    png_rgba8,
    to_base64,
    EncodeError,
};
use crate::model::{ServerMsg, ServerMsgView};
use vstd::prelude::*;

verus! {

/// Widest tile there can be: four bytes per pixel must fit a row in 31 bits.
pub const MAX_TILE_WIDTH: u32 = 0x1FFF_FFFF;

/// Whether a tile of the given size can exist: both sides are positive, the
/// width is at most `MAX_TILE_WIDTH`, and the pixels can be stored and
/// encoded on this machine.
pub open spec fn dimensions_ok(width: u32, height: u32) -> bool {
    0 < width <= MAX_TILE_WIDTH && 0 < height && encodable_size(width, height)
}

/// Decides whether a tile of the given size can exist.
pub fn dimensions_fit(width: u32, height: u32) -> (ok: bool)
    ensures
        ok == dimensions_ok(width, height),
{
    if width == 0 || width > MAX_TILE_WIDTH || height == 0 {
        return false;
    }
    assert(MAX_TILE_WIDTH == crate::encoding::MAX_IMAGE_WIDTH);
    let row: u64 = 4 * (width as u64) + 1;
    let limit: u64 = (usize::MAX / 2) as u64;
    let ok = row <= limit / (height as u64);
    assert(ok == (row * height <= limit)) by (nonlinear_arith)
        requires
            height > 0,
            row >= 0,
            limit >= 0,
            ok == (row <= limit / (height as u64)),
    ;
    ok
}

/// Why a repainted canvas was not installed.
#[derive(Clone, Copy, Debug, PartialEq, Eq, Structural)]
pub enum ApplyError {
    /// The repainted canvas does not have the tile's size.
    SizeMismatch,
    /// The version counter has reached its last value.
    VersionExhausted,
}

/// Why no patch could be made from a tile.
#[derive(Clone, Copy, Debug, PartialEq, Eq, Structural)]
pub enum SnapshotError {
    /// The image could not be encoded.
    Encode(EncodeError),
    /// The encoded image is too long to be written as text.
    TextTooLong,
}

/// The mathematical content of a [`Tile`].
pub struct TileView {
    pub width: u32,
    pub height: u32,
    pub pixels: Seq<u8>,
    pub version: u64,
}

impl TileView {
    /// A tile holds exactly four bytes for each of its pixels.
    pub open spec fn wf(self) -> bool {
        dimensions_ok(self.width, self.height) && self.pixels.len() == 4 * self.width
            * self.height
    }

    /// A blank canvas is transparent black all over.
    pub open spec fn is_blank(self) -> bool {
        forall|i: int| 0 <= i < self.pixels.len() ==> self.pixels[i] == 0
    }

    /// What [`Tile::apply`] answers for a repainted canvas, as far as success
    /// and failure go.
    pub open spec fn apply_verdict(self, painted: Seq<u8>) -> Result<(), ApplyError> {
        if painted.len() != self.pixels.len() {
            Err(ApplyError::SizeMismatch)
        } else if self.version == u64::MAX {
            Err(ApplyError::VersionExhausted)
        } else {
            Ok(())
        }
    }

    /// The tile after a repainted canvas was installed: new pixels, next
    /// version, same size.
    pub open spec fn applied(self, painted: Seq<u8>) -> TileView {
        TileView {
            width: self.width,
            height: self.height,
            pixels: painted,
            version: (self.version + 1) as u64,
        }
    }

    /// The tile after each of `paints` was installed, in order.
    pub open spec fn applied_all(self, paints: Seq<Seq<u8>>) -> TileView
        decreases paints.len(),
    {
        if paints.len() == 0 {
            self
        } else {
            self.applied_all(paints.drop_last()).applied(paints.last())
        }
    }

    /// The patch message that describes this tile.
    pub open spec fn patch(self) -> ServerMsgView {
        ServerMsgView::TilePatch {
            tx: 0,
            ty: 0,
            version: self.version,
            png_base64: base64_standard(png_rgba8(self.pixels, self.width, self.height)),
        }
    }
}

/// A point-in-time copy of a tile: the version, and the canvas of exactly
/// that version as a PNG file.
#[derive(Clone, Debug, PartialEq, Eq)]
pub struct Snapshot {
    pub version: u64,
    pub png: Vec<u8>,
}

/// The patch message for a snapshot whose image is `png`.
pub open spec fn patch_of_snapshot(version: u64, png: Seq<u8>) -> ServerMsgView {
    ServerMsgView::TilePatch { tx: 0, ty: 0, version, png_base64: base64_standard(png) }
}

/// Wraps a snapshot as the patch message for the tile at the origin. The
/// image is written in base64, so the message is safe to embed in text.
pub fn tile_patch(snapshot: Snapshot) -> (r: Result<ServerMsg, SnapshotError>)
    ensures
        match r {
            Ok(msg) => base64_len(snapshot.png@.len()) <= usize::MAX && msg@ == patch_of_snapshot(
                snapshot.version,
                snapshot.png@,
            ),
            Err(e) => base64_len(snapshot.png@.len()) > usize::MAX && e
                == SnapshotError::TextTooLong,
        },
{
    match to_base64(snapshot.png.as_slice()) {
        Some(text) => Ok(
            ServerMsg::TilePatch { tx: 0, ty: 0, version: snapshot.version, png_base64: text },
        ),
        None => Err(SnapshotError::TextTooLong),
    }
}

/// A room's canvas.
#[derive(Debug)]
pub struct Tile {
    width: u32,
    height: u32,
    pixels: Vec<u8>,
    version: u64,
}

impl View for Tile {
    type V = TileView;

    closed spec fn view(&self) -> TileView {
        TileView {
            width: self.width,
            height: self.height,
            pixels: self.pixels@,
            version: self.version,
        }
    }
}

impl Tile {
    #[verifier::type_invariant]
    spec fn inv(self) -> bool {
        self@.wf()
    }

    /// A blank tile of the given size, at version 0.
    pub fn new(width: u32, height: u32) -> (tile: Tile)
        requires
            dimensions_ok(width, height),
        ensures
            tile@.wf(),
            tile@.width == width,
            tile@.height == height,
            tile@.version == 0,
            tile@.is_blank(),
    {
        assert(4 * width * height <= usize::MAX) by (nonlinear_arith)
            requires
                (4 * width + 1) * height <= usize::MAX / 2,
        ;
        let row: usize = 4 * (width as usize);
        assert(row * height == 4 * width * height) by (nonlinear_arith)
            requires
                row == 4 * width,
        ;
        let len: usize = row * (height as usize);
        let pixels: Vec<u8> = vec![0u8; len];
        Tile { width, height, pixels, version: 0 }
    }

    /// Width in pixels.
    pub fn width(&self) -> (w: u32)
        ensures
            w == self@.width,
    {
        self.width
    }

    /// Height in pixels.
    pub fn height(&self) -> (h: u32)
        ensures
            h == self@.height,
    {
        self.height
    }

    /// The current version: the number of canvases installed so far.
    pub fn version(&self) -> (v: u64)
        ensures
            v == self@.version,
    {
        self.version
    }

    /// The current canvas.
    pub fn pixels(&self) -> (p: &[u8])
        ensures
            p@ == self@.pixels,
            self@.wf(),
    {
        proof {
            use_type_invariant(self);
        }
        self.pixels.as_slice()
    }

    /// Installs a repainted canvas and advances the version by exactly one,
    /// whatever the number of dabs that went into it. Returns the new
    /// version. A canvas of the wrong size is refused, and so is any canvas
    /// once the counter is exhausted; a refused call leaves the tile as it
    /// was.
    pub fn apply(&mut self, painted: Vec<u8>) -> (r: Result<u64, ApplyError>)
        ensures
            final(self)@.wf(),
            match r {
                Ok(version) => {
                    &&& old(self)@.apply_verdict(painted@).is_ok()
                    &&& final(self)@ == old(self)@.applied(painted@)
                    &&& version == old(self)@.version + 1
                },
                Err(e) => {
                    &&& old(self)@.apply_verdict(painted@) == Err::<(), ApplyError>(e)
                    &&& final(self)@ == old(self)@
                },
            },
    {
        proof {
            use_type_invariant(&*self);
        }
        if painted.len() != self.pixels.len() {
            Err(ApplyError::SizeMismatch)
        } else if self.version == u64::MAX {
            Err(ApplyError::VersionExhausted)
        } else {
            self.pixels = painted;
            self.version = self.version + 1;
            Ok(self.version)
        }
    }

    /// Takes a snapshot: the current version together with the canvas of
    /// that very version, encoded as a PNG file. The tile is not changed.
    /// Every tile can be encoded, so this succeeds; the error is there for
    /// an encoder that answers otherwise.
    pub fn snapshot(&self) -> (r: Result<Snapshot, SnapshotError>)
        ensures
            self@.wf(),
            r matches Ok(s) && s.version == self@.version && s.png@ == png_rgba8(
                self@.pixels,
                self@.width,
                self@.height,
            ),
            base64_len(png_rgba8(self@.pixels, self@.width, self@.height).len()) <= usize::MAX,
    {
        proof {
            use_type_invariant(self);
        }
        match encode_rgba8(self.pixels.as_slice(), self.width, self.height) {
            Ok(png) => Ok(Snapshot { version: self.version, png }),
            Err(e) => Err(SnapshotError::Encode(e)),
        }
    }

    /// Takes a snapshot and wraps it as a patch message. The image of a
    /// tile always fits a text message, so this succeeds for every tile.
    pub fn patch(&self) -> (r: Result<ServerMsg, SnapshotError>)
        ensures
            r matches Ok(msg) && msg@ == self@.patch(),
            base64_len(png_rgba8(self@.pixels, self@.width, self@.height).len()) <= usize::MAX,
    {
        match self.snapshot() {
            Ok(snapshot) => tile_patch(snapshot),
            Err(e) => Err(e),
        }
    }
}

/// One paint operation is one version: whatever went into the repainted
/// canvas, installing it on a tile whose counter is not exhausted succeeds
/// and leaves the version exactly one higher, provided the canvas has the
/// tile's size.
pub proof fn law_apply_advances_version(tile: TileView, painted: Seq<u8>)
    requires
        tile.wf(),
        painted.len() == tile.pixels.len(),
        tile.version < u64::MAX,
    ensures
        tile.apply_verdict(painted).is_ok(),
        tile.applied(painted).version == tile.version + 1,
        tile.applied(painted).pixels == painted,
        tile.applied(painted).wf(),
{
}

/// Every canvas installed advances the version by exactly one: after `k`
/// installations the version is `k` more than it was, so versions never
/// skip, never fall and never repeat. The size of the tile never changes.
pub proof fn law_version_counts_applications(tile: TileView, paints: Seq<Seq<u8>>, k: int)
    requires
        0 <= k <= paints.len(),
        tile.version + paints.len() <= u64::MAX,
    ensures
        tile.applied_all(paints.take(k)).version == tile.version + k,
        tile.applied_all(paints.take(k)).width == tile.width,
        tile.applied_all(paints.take(k)).height == tile.height,
        k > 0 ==> tile.applied_all(paints.take(k)) == tile.applied_all(paints.take(k - 1)).applied(
            paints[k - 1],
        ),
    decreases k,
{
    if k > 0 {
        law_version_counts_applications(tile, paints, k - 1);
        assert(paints.take(k).drop_last() =~= paints.take(k - 1));
        assert(paints.take(k).last() == paints[k - 1]);
    } else {
        assert(paints.take(0).len() == 0);
    }
}

} // verus!
