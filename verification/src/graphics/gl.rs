//! The numeric values of the OpenGL enumerants that the engine uses.

use vstd::prelude::*;

verus! {

pub const NO_ERROR: u32 = 0;

pub const INVALID_ENUM: u32 = 0x0500;

pub const INVALID_VALUE: u32 = 0x0501;

pub const INVALID_OPERATION: u32 = 0x0502;

pub const STACK_OVERFLOW: u32 = 0x0503;

pub const STACK_UNDERFLOW: u32 = 0x0504;

pub const OUT_OF_MEMORY: u32 = 0x0505;

pub const INVALID_FRAMEBUFFER_OPERATION: u32 = 0x0506;

pub const TEXTURE_MAG_FILTER: u32 = 0x2800;

pub const TEXTURE_MIN_FILTER: u32 = 0x2801;

pub const TEXTURE_WRAP_S: u32 = 0x2802;

pub const TEXTURE_WRAP_T: u32 = 0x2803;

pub const NEAREST: u32 = 0x2600;

pub const CLAMP_TO_EDGE: u32 = 0x812F;

pub const TEXTURE0: u32 = 0x84C0;

pub const ARRAY_BUFFER: u32 = 0x8892;

pub const ELEMENT_ARRAY_BUFFER: u32 = 0x8893;

pub const STREAM_DRAW: u32 = 0x88E0;

pub const STREAM_READ: u32 = 0x88E1;

pub const STREAM_COPY: u32 = 0x88E2;

pub const STATIC_DRAW: u32 = 0x88E4;

pub const STATIC_READ: u32 = 0x88E5;

pub const STATIC_COPY: u32 = 0x88E6;

pub const DYNAMIC_DRAW: u32 = 0x88E8;

pub const DYNAMIC_READ: u32 = 0x88E9;

pub const DYNAMIC_COPY: u32 = 0x88EA;

} // verus!
