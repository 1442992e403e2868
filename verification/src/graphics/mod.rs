//! Graphics resources and the commands that create, draw and release them.

pub mod device;
pub mod errors;
pub mod gl;
pub mod gpu;
pub mod rect;
pub mod shader;
pub mod sprite_batch;
pub mod texture;
pub mod vao;

pub use self::device::{Destroy, DestroyQueue, GraphicDevice, OpenGlInfo};
pub use self::errors::{GfxError, GfxResult};
pub use self::gpu::{BufferSource, GpuCommand, GpuReply, GpuStep, ReplyKind, ShaderStage};
pub use self::rect::{Coordinate, Rect};
pub use self::shader::{Route, Shader, ShaderBuild};
pub use self::sprite_batch::{Batch, BatchItem, DrawPlan, SpriteBatch};
pub use self::texture::{Texture, TextureCreate, TextureHandle, TextureUpload};
pub use self::vao::{UsageFrequency, UsageNature, VaoCreate, VertexArrayObject, VertexLayout};
