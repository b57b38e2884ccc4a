//! Pixel formats and their driver encodings.

use vstd::prelude::*;
use crate::glenum;

verus! {

/// How the channels of a pixel are encoded.
#[derive(Clone, Copy, Debug, PartialEq, Eq, Structural)]
pub enum Type {
    Integral,
    Unsigned,
    Floating,
}

/// Channel layout of a pixel; each number is the bit width of one channel.
#[derive(Clone, Copy, Debug, PartialEq, Eq, Structural)]
pub enum Format {
    R(u8),
    RG(u8, u8),
    RGB(u8, u8, u8),
    RGBA(u8, u8, u8, u8),
    Depth(u8),
}

/// A channel layout together with its encoding.
#[derive(Clone, Copy, Debug, PartialEq, Eq, Structural)]
pub struct PixelFormat {
    pub encoding: Type,
    pub format: Format,
}

/// The driver triple (transfer format, sized internal format, component type)
/// of a pixel format, or `None` where the backend has no encoding for it.
pub open spec fn resolve(pf: PixelFormat) -> Option<(u32, u32, u32)> {
    if pf.format == Format::RGB(8, 8, 8) && pf.encoding == Type::Unsigned {
        Some((glenum::RGB_INTEGER, glenum::RGB8UI, glenum::UNSIGNED_BYTE))
    } else if pf.format == Format::RGBA(8, 8, 8, 8) && pf.encoding == Type::Unsigned {
        Some((glenum::RGBA_INTEGER, glenum::RGBA8UI, glenum::UNSIGNED_BYTE))
    } else if pf.format == Format::RGB(32, 32, 32) && pf.encoding == Type::Floating {
        Some((glenum::RGB, glenum::RGB32F, glenum::FLOAT))
    } else if pf.format == Format::RGBA(32, 32, 32, 32) && pf.encoding == Type::Floating {
        Some((glenum::RGBA, glenum::RGBA32F, glenum::FLOAT))
    } else if pf.format == Format::Depth(32) && pf.encoding == Type::Floating {
        Some((glenum::DEPTH_COMPONENT, glenum::DEPTH_COMPONENT32F, glenum::FLOAT))
    } else {
        None
    }
}

/// Number of channels of a channel layout.
pub open spec fn channels(format: Format) -> nat {
    match format {
        Format::R(_) => 1,
        Format::RG(_, _) => 2,
        Format::RGB(_, _, _) => 3,
        Format::RGBA(_, _, _, _) => 4,
        Format::Depth(_) => 1,
    }
}

/// Returns the transfer format, the sized internal format and the component
/// type of `pf`, or `None` for a format the backend does not support.
pub fn gl_pixel_format(pf: PixelFormat) -> (triple: Option<(u32, u32, u32)>)
    ensures
        triple == resolve(pf),
{
    match (pf.format, pf.encoding) {
        (Format::RGB(8, 8, 8), Type::Unsigned) => Some(
            (glenum::RGB_INTEGER, glenum::RGB8UI, glenum::UNSIGNED_BYTE),
        ),
        (Format::RGBA(8, 8, 8, 8), Type::Unsigned) => Some(
            (glenum::RGBA_INTEGER, glenum::RGBA8UI, glenum::UNSIGNED_BYTE),
        ),
        (Format::RGB(32, 32, 32), Type::Floating) => Some(
            (glenum::RGB, glenum::RGB32F, glenum::FLOAT),
        ),
        (Format::RGBA(32, 32, 32, 32), Type::Floating) => Some(
            (glenum::RGBA, glenum::RGBA32F, glenum::FLOAT),
        ),
        (Format::Depth(32), Type::Floating) => Some(
            (glenum::DEPTH_COMPONENT, glenum::DEPTH_COMPONENT32F, glenum::FLOAT),
        ),
        _ => None,
    }
}

/// Returns the number of channels of `pf`.
pub fn pixel_components(pf: PixelFormat) -> (n: usize)
    ensures
        n == channels(pf.format),
        1 <= n <= 4,
{
    match pf.format {
        Format::R(_) => 1,
        Format::RG(_, _) => 2,
        Format::RGB(_, _, _) => 3,
        Format::RGBA(_, _, _, _) => 4,
        Format::Depth(_) => 1,
    }
}

/// Resolution is a function of the format alone: equal formats resolve to
/// equal triples, and both are supported or both are not.
pub proof fn lemma_resolve_deterministic(a: PixelFormat, b: PixelFormat)
    requires
        a == b,
    ensures
        resolve(a) == resolve(b),
{
}

/// The catalog holds exactly five formats, and each supported format has
/// three, four or one channel.
pub proof fn lemma_resolve_catalog(pf: PixelFormat)
    ensures
        resolve(pf).is_some() <==> (pf == (PixelFormat {
            encoding: Type::Unsigned,
            format: Format::RGB(8, 8, 8),
        }) || pf == (PixelFormat { encoding: Type::Unsigned, format: Format::RGBA(8, 8, 8, 8) })
            || pf == (PixelFormat { encoding: Type::Floating, format: Format::RGB(32, 32, 32) })
            || pf == (PixelFormat {
            encoding: Type::Floating,
            format: Format::RGBA(32, 32, 32, 32),
        }) || pf == (PixelFormat { encoding: Type::Floating, format: Format::Depth(32) })),
        resolve(pf).is_some() ==> channels(pf.format) == 3 || channels(pf.format) == 4
            || channels(pf.format) == 1,
{
}

} // verus!
