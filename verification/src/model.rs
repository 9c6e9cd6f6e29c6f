//! Messages exchanged with clients, and the rules a paint operation must meet.
//!
//! Dab geometry travels as IEEE 754 binary32 numbers. This crate never does
//! arithmetic on them: each number is carried as its 32-bit pattern, so that
//! what a client sent is exactly what is composited and echoed.

use vstd::prelude::*;

verus! {

/// Number of values that make up one dab: `x`, `y`, `radius`, `alpha`.
pub const VALUES_PER_DAB: usize = 4;

/// Largest number of values a single paint operation may carry (1024 dabs).
pub const MAX_DAB_VALUES: usize = 4096;

/// The tool selector that erases. Every other selector draws.
pub const ERASE_TOOL: u8 = 1;

/// How a dab is combined with the pixels already on the canvas.
#[derive(Clone, Copy, Debug, PartialEq, Eq, Structural)]
pub enum BlendMode {
    /// The brush colour is painted over the destination.
    SourceOver,
    /// The destination's alpha is reduced by the shape; colour is untouched.
    DestinationOut,
}

/// Why a paint operation is refused before it reaches a tile or a hub.
#[derive(Clone, Copy, Debug, PartialEq, Eq, Structural)]
pub enum DabsError {
    /// The number of values is not a multiple of four.
    Ragged,
    /// The values form whole dabs, but there are more than `MAX_DAB_VALUES`.
    TooMany,
}

/// One circular paint primitive, each component a binary32 bit pattern.
#[derive(Clone, Copy, Debug, PartialEq, Eq, Structural)]
pub struct Dab {
    pub x: u32,
    pub y: u32,
    pub radius: u32,
    pub alpha: u32,
}

/// A paint operation: a tool selector and a flat run of dab values.
#[derive(Clone, Debug, PartialEq, Eq)]
pub struct DabsPayload {
    pub tool: u8,
    pub dabs: Vec<u32>,
}

/// The mathematical content of a [`DabsPayload`].
pub struct DabsPayloadView {
    pub tool: u8,
    pub dabs: Seq<u32>,
}

impl View for DabsPayload {
    type V = DabsPayloadView;

    open spec fn view(&self) -> DabsPayloadView {
        DabsPayloadView { tool: self.tool, dabs: self.dabs@ }
    }
}

/// The blend mode that a tool selector stands for.
pub open spec fn blend_of(tool: u8) -> BlendMode {
    if tool == ERASE_TOOL {
        BlendMode::DestinationOut
    } else {
        BlendMode::SourceOver
    }
}

/// The verdict on a run of `len` dab values: whole dabs only, and no more
/// than `MAX_DAB_VALUES` of them.
pub open spec fn dabs_verdict(len: nat) -> Result<(), DabsError> {
    if len % 4 != 0 {
        Err(DabsError::Ragged)
    } else if len > MAX_DAB_VALUES {
        Err(DabsError::TooMany)
    } else {
        Ok(())
    }
}

impl DabsPayloadView {
    /// A paint operation is valid when its values form at most 1024 whole dabs.
    pub open spec fn is_valid(self) -> bool {
        self.dabs.len() % 4 == 0 && self.dabs.len() <= MAX_DAB_VALUES
    }

    /// Number of whole dabs in the operation.
    pub open spec fn dab_count(self) -> nat {
        self.dabs.len() / 4
    }

    /// The `i`-th dab of the operation.
    pub open spec fn dab(self, i: int) -> Dab {
        Dab {
            x: self.dabs[4 * i],
            y: self.dabs[4 * i + 1],
            radius: self.dabs[4 * i + 2],
            alpha: self.dabs[4 * i + 3],
        }
    }
}

impl DabsPayload {
    /// Checks the two rules every paint operation must meet, reporting the
    /// first one that is broken.
    pub fn validate(&self) -> (r: Result<(), DabsError>)
        ensures
            r == dabs_verdict(self@.dabs.len()),
            r.is_ok() <==> self@.is_valid(),
    {
        let len = self.dabs.len();
        if len % VALUES_PER_DAB != 0 {
            Err(DabsError::Ragged)
        } else if len > MAX_DAB_VALUES {
            Err(DabsError::TooMany)
        } else {
            Ok(())
        }
    }

    /// Number of whole dabs carried; a trailing partial dab is not counted.
    pub fn dab_count(&self) -> (n: usize)
        ensures
            n == self@.dab_count(),
    {
        self.dabs.len() / VALUES_PER_DAB
    }

    /// The `index`-th dab.
    pub fn dab(&self, index: usize) -> (d: Dab)
        requires
            index < self@.dab_count(),
        ensures
            d == self@.dab(index as int),
    {
        let len = self.dabs.len();
        assert(4 * index + 3 < len);
        let base = 4 * index;
        Dab {
            x: self.dabs[base],
            y: self.dabs[base + 1],
            radius: self.dabs[base + 2],
            alpha: self.dabs[base + 3],
        }
    }

    /// How this operation's dabs are composited.
    pub fn blend_mode(&self) -> (m: BlendMode)
        ensures
            m == blend_of(self@.tool),
    {
        if self.tool == ERASE_TOOL {
            BlendMode::DestinationOut
        } else {
            BlendMode::SourceOver
        }
    }
}

/// A message from a client.
#[derive(Clone, Debug, PartialEq, Eq)]
pub enum ClientMsg {
    /// Asks for the current canvas. `since` is the last version the client saw.
    Join { since: u64 },
    /// Asks for a paint operation to be applied and broadcast.
    Dabs(DabsPayload),
}

/// The mathematical content of a [`ClientMsg`].
pub enum ClientMsgView {
    Join { since: u64 },
    Dabs(DabsPayloadView),
}

impl View for ClientMsg {
    type V = ClientMsgView;

    open spec fn view(&self) -> ClientMsgView {
        match self {
            ClientMsg::Join { since } => ClientMsgView::Join { since: *since },
            ClientMsg::Dabs(payload) => ClientMsgView::Dabs(payload@),
        }
    }
}

/// A message to a client.
#[derive(Clone, Debug, PartialEq, Eq)]
pub enum ServerMsg {
    /// Acknowledges the upgrade and reports the room the connection is bound to.
    Debug { port: u16, room_id: u128 },
    /// A full snapshot of the tile at `(tx, ty)`, its image in text-safe form.
    TilePatch { tx: i32, ty: i32, version: u64, png_base64: String },
    /// A paint operation, broadcast to every subscriber of the room.
    Dabs(DabsPayload),
}

/// The mathematical content of a [`ServerMsg`].
pub enum ServerMsgView {
    Debug { port: u16, room_id: u128 },
    TilePatch { tx: i32, ty: i32, version: u64, png_base64: Seq<char> },
    Dabs(DabsPayloadView),
}

impl View for ServerMsg {
    type V = ServerMsgView;

    open spec fn view(&self) -> ServerMsgView {
        match self {
            ServerMsg::Debug { port, room_id } => ServerMsgView::Debug {
                port: *port,
                room_id: *room_id,
            },
            ServerMsg::TilePatch { tx, ty, version, png_base64 } => ServerMsgView::TilePatch {
                tx: *tx,
                ty: *ty,
                version: *version,
                png_base64: png_base64@,
            },
            ServerMsg::Dabs(payload) => ServerMsgView::Dabs(payload@),
        }
    }
}

} // verus!
