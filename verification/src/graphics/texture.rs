//! Texture handles.

use vstd::arithmetic::power2::is_pow2;
use vstd::prelude::*;
use crate::graphics::device::{Destroy, GraphicDevice};
use crate::graphics::errors::{GfxError, GfxResult};
use crate::graphics::gl;
use crate::graphics::gpu::{GpuCommand, GpuReply, GpuStep, ReplyKind};
use crate::graphics::rect::Rect;

verus! {

/// The extension that lifts the power-of-two restriction on texture sizes.
pub const NPOT_EXTENSION: &'static str = "GL_ARB_texture_non_power_of_two";

/// Whether a texture of the given size may be allocated: neither dimension
/// is zero, and both are powers of two unless the device supports other
/// sizes.
pub open spec fn size_accepted(npot: bool, width: u32, height: u32) -> bool {
    &&& width != 0
    &&& height != 0
    &&& (npot || (is_pow2(width as int) && is_pow2(height as int)))
}

/// Whether the region at `pos` of the size `size` lies inside a storage of
/// the given width and height.
pub open spec fn region_fits(extent: (u32, u32), pos: [u32; 2], size: [u32; 2]) -> bool {
    &&& pos[0] + size[0] <= extent.0
    &&& pos[1] + size[1] <= extent.1
}

/// Whether the rectangle is the whole of a storage of the given width and
/// height.
pub open spec fn is_storage(rect: Rect<u32>, extent: (u32, u32)) -> bool {
    &&& rect.pos[0] == 0
    &&& rect.pos[1] == 0
    &&& rect.size[0] == extent.0
    &&& rect.size[1] == extent.1
}

/// The number of bytes of an RGBA8 image of the given size.
pub open spec fn image_bytes(width: u32, height: u32) -> int {
    width as int * height as int * 4
}

/// The commands that create a texture of the given size, in order, once the
/// driver has named its handle.
pub open spec fn create_commands(width: u32, height: u32, handle: u32) -> Seq<GpuCommand> {
    seq![
        GpuCommand::CreateTexture,
        GpuCommand::GetError,
        GpuCommand::BindTexture(Some(handle)),
        GpuCommand::AllocateTexture { width, height },
        GpuCommand::GetError,
        GpuCommand::TextureParameter { name: gl::TEXTURE_MIN_FILTER, value: gl::NEAREST },
        GpuCommand::TextureParameter { name: gl::TEXTURE_MAG_FILTER, value: gl::NEAREST },
        GpuCommand::TextureParameter { name: gl::TEXTURE_WRAP_S, value: gl::CLAMP_TO_EDGE },
        GpuCommand::TextureParameter { name: gl::TEXTURE_WRAP_T, value: gl::CLAMP_TO_EDGE },
        GpuCommand::BindTexture(None),
    ]
}

proof fn lemma_power_of_two(n: u32)
    requires
        n >= 1,
    ensures
        ((n & ((n - 1) as u32)) == 0) <==> is_pow2(n as int),
    decreases n,
{
    reveal(is_pow2);
    if n > 1 {
        let half: u32 = n / 2;
        lemma_power_of_two(half);
        assert(n > 1 ==> (((n & ((n - 1) as u32)) == 0) <==> (n % 2 == 0 && ((n / 2) & ((n / 2
            - 1) as u32)) == 0))) by (bit_vector);
    } else {
        assert((1u32 & ((1u32 - 1) as u32)) == 0) by (bit_vector);
    }
}

/// A size with a dimension of zero is not accepted, whatever the device
/// supports.
pub proof fn lemma_zero_size_rejected(npot: bool, width: u32, height: u32)
    requires
        width == 0 || height == 0,
    ensures
        !size_accepted(npot, width, height),
{
}

fn texel_bytes(width: u32, height: u32) -> (n: u128)
    ensures
        n == image_bytes(width, height),
{
    assert(0 <= width as int * height as int <= 0xFFFF_FFFF * 0xFFFF_FFFF) by (nonlinear_arith)
        requires
            0 <= width <= 0xFFFF_FFFF,
            0 <= height <= 0xFFFF_FFFF,
    ;
    let area: u128 = width as u128 * height as u128;
    area * 4
}

/// The part of a texture that is shared by all views into it: the GPU
/// object and the size of its storage.
#[derive(Debug, Clone, Copy, PartialEq, Eq)]
pub struct TextureHandle {
    handle: u32,
    size: [u32; 2],
}

impl TextureHandle {
    /// The GPU object.
    pub closed spec fn raw(self) -> u32 {
        self.handle
    }

    /// Width and height of the storage in texels.
    pub closed spec fn extent(self) -> (u32, u32) {
        (self.size[0], self.size[1])
    }

    pub fn handle(&self) -> (handle: u32)
        ensures
            handle == self.raw(),
    {
        self.handle
    }

    pub fn size(&self) -> (size: [u32; 2])
        ensures
            (size[0], size[1]) == self.extent(),
    {
        self.size
    }

    /// The whole storage as a rectangle.
    pub fn storage_rect(&self) -> (rect: Rect<u32>)
        ensures
            is_storage(rect, self.extent()),
    {
        Rect { pos: [0, 0], size: self.size }
    }

    /// The message that the last owner of the handle queues when it lets
    /// go.
    pub fn destroy_message(&self) -> (message: Destroy)
        ensures
            message == Destroy::Texture(self.raw()),
    {
        Destroy::Texture(self.handle)
    }
}

/// Handle to a texture located in video memory, or to a rectangular view
/// into one.
#[derive(Debug, Clone, Copy, PartialEq, Eq)]
pub struct Texture {
    texture: u32,
    rect: Rect<u32>,
    handle: TextureHandle,
}

impl Texture {
    /// The GPU object.
    pub closed spec fn raw(self) -> u32 {
        self.texture
    }

    /// The view of this texture into the storage.
    pub closed spec fn view_rect(self) -> Rect<u32> {
        self.rect
    }

    /// The shared part.
    pub closed spec fn shared(self) -> TextureHandle {
        self.handle
    }

    /// Whether the texture is the whole storage of the given GPU object and
    /// size.
    pub open spec fn is_whole(self, handle: u32, width: u32, height: u32) -> bool {
        &&& self.raw() == handle
        &&& self.shared().raw() == handle
        &&& self.shared().extent() == (width, height)
        &&& self.view_rect().pos[0] == 0
        &&& self.view_rect().pos[1] == 0
        &&& self.view_rect().size[0] == width
        &&& self.view_rect().size[1] == height
    }

    /// Checks the size and begins the creation of a texture. Nothing
    /// touches the GPU before the size is accepted, and a rejected size
    /// leaves the device, its release queue included, as it was.
    pub fn create(device: &GraphicDevice, width: u32, height: u32) -> (r: GfxResult<
        TextureCreate,
    >)
        ensures
            match r {
                Ok(pending) => {
                    &&& size_accepted(device.supports(NPOT_EXTENSION@), width, height)
                    &&& pending.stage() == 0
                    &&& pending.extent() == (width, height)
                },
                Err(e) => {
                    &&& !size_accepted(device.supports(NPOT_EXTENSION@), width, height)
                    &&& e == GfxError::InvalidTextureSize(width, height)
                },
            },
    {
        match Self::validate_size(width, height) {
            Err(e) => {
                return Err(e);
            },
            Ok(_) => {},
        }
        if !Self::is_npot_available(device) {
            if !Self::is_power_of_two(width) || !Self::is_power_of_two(height) {
                return Err(GfxError::InvalidTextureSize(width, height));
            }
        }
        Ok(TextureCreate { width, height, handle: 0, stage: 0 })
    }

    /// Create a sub texture from the given texture view.
    ///
    /// Does not allocate new texture space in video memory.
    /// Instead creates a view into the same memory backed
    /// by `self`.
    ///
    /// # Errors
    ///
    /// Returns `InvalidSubTexture` if the given position and
    /// size do not fit inside the source texture.
    ///
    /// Returns `InvalidTextureSize` if any given dimension is 0.
    pub fn new_sub(&self, pos: [u32; 2], size: [u32; 2]) -> (r: GfxResult<Texture>)
        ensures
            match r {
                Ok(sub) => {
                    &&& self.view_rect().contains(Rect { pos, size })
                    &&& size[0] != 0 && size[1] != 0
                    &&& sub.raw() == self.raw()
                    &&& sub.shared() == self.shared()
                    &&& sub.view_rect() == (Rect { pos, size })
                },
                Err(e) => if !self.view_rect().contains(Rect { pos, size }) {
                    e == (GfxError::InvalidSubTexture {
                        outer: self.view_rect(),
                        inner: Rect { pos, size },
                    })
                } else {
                    (size[0] == 0 || size[1] == 0) && e == GfxError::InvalidTextureSize(
                        size[0],
                        size[1],
                    )
                },
            },
    {
        let target_rect = Rect { pos, size };
        if !self.rect.can_fit(&target_rect) {
            return Err(GfxError::InvalidSubTexture { outer: self.rect, inner: target_rect });
        }
        match Self::validate_size(size[0], size[1]) {
            Err(e) => {
                return Err(e);
            },
            Ok(_) => {},
        }
        Ok(Texture { texture: self.texture, rect: target_rect, handle: self.handle })
    }

    /// Rejects a size with a dimension of zero.
    pub fn validate_size(width: u32, height: u32) -> (r: GfxResult<()>)
        ensures
            match r {
                Ok(_) => width != 0 && height != 0,
                Err(e) => (width == 0 || height == 0) && e == GfxError::InvalidTextureSize(
                    width,
                    height,
                ),
            },
    {
        if width == 0 || height == 0 {
            return Err(GfxError::InvalidTextureSize(width, height));
        }
        Ok(())
    }

    /// Checks whether the given number is power-of-two.
    pub fn is_power_of_two(n: u32) -> (r: bool)
        ensures
            r == is_pow2(n as int),
    {
        proof {
            reveal(is_pow2);
            if n >= 1 {
                lemma_power_of_two(n);
            }
        }
        // This bitwise test does not work on the number zero.
        n != 0 && ((n & (n - 1)) == 0)
    }

    /// Queries the device support for non-power-of-two-textures.
    pub fn is_npot_available(device: &GraphicDevice) -> (r: bool)
        ensures
            r == device.supports(NPOT_EXTENSION@),
    {
        device.has_extension(NPOT_EXTENSION)
    }

    pub fn raw_handle(&self) -> (handle: u32)
        ensures
            handle == self.raw(),
    {
        self.texture
    }

    /// The part shared with the other views into the same storage.
    pub fn handle(&self) -> (handle: TextureHandle)
        ensures
            handle == self.shared(),
    {
        self.handle
    }

    /// The view of this texture into the storage.
    pub fn rect(&self) -> (rect: Rect<u32>)
        ensures
            rect == self.view_rect(),
    {
        self.rect
    }

    /// Begins the upload of image data for the whole storage.
    pub fn update_data(&self, data: &[u8]) -> (r: GfxResult<TextureUpload>)
        ensures
            match r {
                Ok(pending) => {
                    &&& data@.len() == image_bytes(self.shared().extent().0, self.shared().extent().1)
                    &&& pending.stage() == 0
                    &&& pending.target() == self.raw()
                    &&& pending.region() == (0u32, 0u32, self.shared().extent().0, self.shared().extent().1)
                },
                Err(e) => {
                    &&& data@.len() != image_bytes(self.shared().extent().0, self.shared().extent().1)
                    &&& e == (GfxError::InvalidImageData {
                        expected: expected_len(self.shared().extent().0, self.shared().extent().1),
                        actual: data@.len() as usize,
                    })
                },
            },
    {
        let size = self.handle.size();
        self.update_sub_data([0, 0], size, data)
    }

    /// Begins the upload of image data to a region of the texture's storage
    /// on the GPU device. The data must hold four bytes per texel of the
    /// region, and the region must lie inside the storage; otherwise
    /// nothing touches the GPU. The length of the data is checked first.
    pub fn update_sub_data(&self, pos: [u32; 2], size: [u32; 2], data: &[u8]) -> (r: GfxResult<
        TextureUpload,
    >)
        ensures
            match r {
                Ok(pending) => {
                    &&& data@.len() == image_bytes(size[0], size[1])
                    &&& region_fits(self.shared().extent(), pos, size)
                    &&& pending.stage() == 0
                    &&& pending.target() == self.raw()
                    &&& pending.region() == (pos[0], pos[1], size[0], size[1])
                },
                Err(e) => if data@.len() != image_bytes(size[0], size[1]) {
                    e == (GfxError::InvalidImageData {
                        expected: expected_len(size[0], size[1]),
                        actual: data@.len() as usize,
                    })
                } else {
                    &&& !region_fits(self.shared().extent(), pos, size)
                    &&& e matches GfxError::InvalidSubTexture { outer, inner }
                    &&& is_storage(outer, self.shared().extent())
                    &&& inner == (Rect { pos, size })
                },
            },
    {
        let wide: u128 = texel_bytes(size[0], size[1]);
        let expected: usize = if wide > usize::MAX as u128 {
            usize::MAX
        } else {
            wide as usize
        };
        if data.len() != expected || wide > usize::MAX as u128 {
            return Err(GfxError::InvalidImageData { expected, actual: data.len() });
        }
        let storage = self.handle.storage_rect();
        let region = Rect { pos, size };
        if !storage.can_fit(&region) {
            return Err(GfxError::InvalidSubTexture { outer: storage, inner: region });
        }
        Ok(TextureUpload { texture: self.texture, pos, size, saved: 0, code: gl::NO_ERROR, stage: 0 })
    }

    /// Returns the number of bytes contained in the texture's storage.
    pub fn data_len(&self) -> (n: usize)
        requires
            image_bytes(self.shared().extent().0, self.shared().extent().1) <= usize::MAX,
        ensures
            n == image_bytes(self.shared().extent().0, self.shared().extent().1),
    {
        let size = self.handle.size();
        let wide: u128 = texel_bytes(size[0], size[1]);
        wide as usize
    }
}

/// The expected length that an image data error reports: the number of
/// bytes of the region, or the largest length where that number exceeds it.
pub open spec fn expected_len(width: u32, height: u32) -> usize {
    if image_bytes(width, height) > usize::MAX {
        usize::MAX
    } else {
        image_bytes(width, height) as usize
    }
}

/// The creation of a texture in progress.
#[derive(Debug)]
pub struct TextureCreate {
    width: u32,
    height: u32,
    handle: u32,
    stage: u8,
}

impl TextureCreate {
    /// The number of commands handed out so far; one more once the creation
    /// is finished.
    pub closed spec fn stage(self) -> nat {
        self.stage as nat
    }

    /// The size of the texture to create.
    pub closed spec fn extent(self) -> (u32, u32) {
        (self.width, self.height)
    }

    /// The handle that the driver named; zero before it did.
    pub closed spec fn handle(self) -> u32 {
        self.handle
    }

    /// The commands of this creation.
    pub open spec fn commands(self) -> Seq<GpuCommand> {
        create_commands(self.extent().0, self.extent().1, self.handle())
    }

    /// Whether the result was given out.
    pub open spec fn finished(self) -> bool {
        self.stage() > self.commands().len()
    }

    /// Whether `reply` answers the command handed out last; before the
    /// first command there is nothing to answer.
    pub open spec fn accepts(self, reply: GpuReply) -> bool {
        &&& !self.finished()
        &&& reply.kind() == if self.stage() == 0 {
            ReplyKind::Nothing
        } else {
            self.commands()[self.stage() - 1].reply_kind()
        }
    }

    /// Takes the reply to the previous command and gives the next step.
    ///
    /// The commands of `create_commands` are handed out in order. A reported
    /// error code ends the creation at once with that code. After the last
    /// command the texture is handed out: the whole storage under the
    /// handle that the driver named.
    pub fn advance(&mut self, reply: GpuReply) -> (step: GpuStep<Texture>)
        requires
            old(self).accepts(reply),
        ensures
            final(self).extent() == old(self).extent(),
            match step {
                GpuStep::Call(command) => {
                    &&& !(reply matches GpuReply::Code(code) && code != gl::NO_ERROR)
                    &&& old(self).stage() < final(self).commands().len()
                    &&& command == final(self).commands()[old(self).stage() as int]
                    &&& final(self).stage() == old(self).stage() + 1
                    &&& final(self).handle() == if old(self).stage() == 1 {
                        reply->Handle_0
                    } else {
                        old(self).handle()
                    }
                },
                GpuStep::Finished(Ok(texture)) => {
                    &&& old(self).stage() == old(self).commands().len()
                    &&& texture.is_whole(old(self).handle(), old(self).extent().0, old(self).extent().1)
                    &&& final(self).finished()
                },
                GpuStep::Finished(Err(e)) => {
                    &&& reply matches GpuReply::Code(code) && code != gl::NO_ERROR
                        && e == GfxError::OpenGl(code)
                    &&& final(self).finished()
                },
            },
    {
        let stage = self.stage;
        match reply {
            GpuReply::Handle(handle) => {
                self.handle = handle;
            },
            GpuReply::Code(code) => {
                if code != gl::NO_ERROR {
                    self.stage = 11;
                    return GpuStep::Finished(Err(GfxError::OpenGl(code)));
                }
            },
            _ => {},
        }
        if stage >= 10 {
            self.stage = 11;
            return GpuStep::Finished(
                Ok(
                    Texture {
                        texture: self.handle,
                        rect: Rect { pos: [0, 0], size: [self.width, self.height] },
                        handle: TextureHandle { handle: self.handle, size: [self.width, self.height] },
                    },
                ),
            );
        }
        self.stage = stage + 1;
        let command = if stage == 0 {
            GpuCommand::CreateTexture
        } else if stage == 1 || stage == 4 {
            GpuCommand::GetError
        } else if stage == 2 {
            GpuCommand::BindTexture(Some(self.handle))
        } else if stage == 3 {
            GpuCommand::AllocateTexture { width: self.width, height: self.height }
        } else if stage == 5 {
            GpuCommand::TextureParameter { name: gl::TEXTURE_MIN_FILTER, value: gl::NEAREST }
        } else if stage == 6 {
            GpuCommand::TextureParameter { name: gl::TEXTURE_MAG_FILTER, value: gl::NEAREST }
        } else if stage == 7 {
            GpuCommand::TextureParameter { name: gl::TEXTURE_WRAP_S, value: gl::CLAMP_TO_EDGE }
        } else if stage == 8 {
            GpuCommand::TextureParameter { name: gl::TEXTURE_WRAP_T, value: gl::CLAMP_TO_EDGE }
        } else {
            GpuCommand::BindTexture(None)
        };
        GpuStep::Call(command)
    }
}

/// An upload of image data in progress.
#[derive(Debug)]
pub struct TextureUpload {
    texture: u32,
    pos: [u32; 2],
    size: [u32; 2],
    saved: u32,
    code: u32,
    stage: u8,
}

impl TextureUpload {
    /// The number of commands handed out so far; one more once the upload
    /// is finished.
    pub closed spec fn stage(self) -> nat {
        self.stage as nat
    }

    /// The texture that receives the data.
    pub closed spec fn target(self) -> u32 {
        self.texture
    }

    /// The region that receives the data: horizontal and vertical offset,
    /// width and height.
    pub closed spec fn region(self) -> (u32, u32, u32, u32) {
        (self.pos[0], self.pos[1], self.size[0], self.size[1])
    }

    /// The texture that was bound before the upload; zero before the
    /// driver told.
    pub closed spec fn saved(self) -> u32 {
        self.saved
    }

    /// The error code that the driver reported for the upload; zero before
    /// it was asked and where it reported none.
    pub closed spec fn reported(self) -> u32 {
        self.code
    }

    /// The commands of this upload.
    pub open spec fn commands(self) -> Seq<GpuCommand> {
        seq![
            GpuCommand::GetTextureBinding,
            GpuCommand::BindTexture(Some(self.target())),
            GpuCommand::UploadTexture {
                x: self.region().0,
                y: self.region().1,
                width: self.region().2,
                height: self.region().3,
            },
            GpuCommand::GetError,
            GpuCommand::BindTexture(Some(self.saved())),
        ]
    }

    /// Whether the result was given out.
    pub open spec fn finished(self) -> bool {
        self.stage() > self.commands().len()
    }

    /// Whether `reply` answers the command handed out last; before the
    /// first command there is nothing to answer.
    pub open spec fn accepts(self, reply: GpuReply) -> bool {
        &&& !self.finished()
        &&& reply.kind() == if self.stage() == 0 {
            ReplyKind::Nothing
        } else {
            self.commands()[self.stage() - 1].reply_kind()
        }
    }

    /// Takes the reply to the previous command and gives the next step.
    ///
    /// All commands are handed out in order whatever the driver reports:
    /// the binding that was current before the upload is put back also
    /// when the upload failed. The result is the error code reported for
    /// the upload, if there was one.
    pub fn advance(&mut self, reply: GpuReply) -> (step: GpuStep<()>)
        requires
            old(self).accepts(reply),
        ensures
            final(self).target() == old(self).target(),
            final(self).region() == old(self).region(),
            match step {
                GpuStep::Call(command) => {
                    &&& old(self).stage() < final(self).commands().len()
                    &&& command == final(self).commands()[old(self).stage() as int]
                    &&& final(self).stage() == old(self).stage() + 1
                    &&& final(self).saved() == if old(self).stage() == 1 {
                        reply->Handle_0
                    } else {
                        old(self).saved()
                    }
                    &&& final(self).reported() == if old(self).stage() == 4 {
                        reply->Code_0
                    } else {
                        old(self).reported()
                    }
                },
                GpuStep::Finished(result) => {
                    &&& old(self).stage() == old(self).commands().len()
                    &&& final(self).finished()
                    &&& result == if old(self).reported() == gl::NO_ERROR {
                        Ok::<(), GfxError>(())
                    } else {
                        Err::<(), GfxError>(GfxError::OpenGl(old(self).reported()))
                    }
                },
            },
    {
        let stage = self.stage;
        match reply {
            GpuReply::Handle(handle) => {
                self.saved = handle;
            },
            GpuReply::Code(code) => {
                self.code = code;
            },
            _ => {},
        }
        if stage >= 5 {
            self.stage = 6;
            if self.code != gl::NO_ERROR {
                return GpuStep::Finished(Err(GfxError::OpenGl(self.code)));
            }
            return GpuStep::Finished(Ok(()));
        }
        self.stage = stage + 1;
        let command = if stage == 0 {
            GpuCommand::GetTextureBinding
        } else if stage == 1 {
            GpuCommand::BindTexture(Some(self.texture))
        } else if stage == 2 {
            GpuCommand::UploadTexture {
                x: self.pos[0],
                y: self.pos[1],
                width: self.size[0],
                height: self.size[1],
            }
        } else if stage == 3 {
            GpuCommand::GetError
        } else {
            GpuCommand::BindTexture(Some(self.saved))
        };
        GpuStep::Call(command)
    }
}

} // verus!
