use gers::graphics::gl;
use gers::graphics::{
    Batch, BufferSource, Destroy, DestroyQueue, GfxError, GpuCommand, GpuReply, GpuStep,
    GraphicDevice, OpenGlInfo, Rect, Route, Shader, ShaderBuild, ShaderStage, SpriteBatch, Texture,
    TextureCreate, TextureUpload, UsageFrequency, UsageNature, VaoCreate, VertexArrayObject,
    VertexLayout,
};

/// A stand-in for the graphics context. It numbers the objects it
/// creates from `first_handle` on, reports the error codes of `errors` in
/// turn (then none), and records every command.
struct FakeGpu {
    next_handle: u32,
    errors: Vec<u32>,
    compile_ok: Vec<bool>,
    link_ok: bool,
    bound_texture: u32,
    log: Vec<GpuCommand>,
}

impl FakeGpu {
    fn new() -> Self {
        FakeGpu {
            next_handle: 7,
            errors: vec![],
            compile_ok: vec![],
            link_ok: true,
            bound_texture: 99,
            log: vec![],
        }
    }

    fn fresh(&mut self) -> GpuReply {
        let handle = self.next_handle;
        self.next_handle += 1;
        GpuReply::Handle(handle)
    }

    fn execute(&mut self, command: GpuCommand) -> GpuReply {
        self.log.push(command);
        match command {
            GpuCommand::GetError => {
                if self.errors.is_empty() {
                    GpuReply::Code(0)
                } else {
                    GpuReply::Code(self.errors.remove(0))
                }
            }
            GpuCommand::GetTextureBinding => GpuReply::Handle(self.bound_texture),
            GpuCommand::CreateTexture
            | GpuCommand::CreateProgram
            | GpuCommand::CreateShader(_)
            | GpuCommand::CreateVertexArray
            | GpuCommand::CreateBuffer => self.fresh(),
            GpuCommand::GetCompileStatus(_) => {
                if self.compile_ok.is_empty() {
                    GpuReply::Flag(true)
                } else {
                    GpuReply::Flag(self.compile_ok.remove(0))
                }
            }
            GpuCommand::GetLinkStatus(_) => GpuReply::Flag(self.link_ok),
            GpuCommand::GetShaderInfoLog(shader) => GpuReply::Text(format!("shader {} is wrong", shader)),
            GpuCommand::GetProgramInfoLog(program) => {
                GpuReply::Text(format!("program {} is wrong", program))
            }
            _ => GpuReply::Nothing,
        }
    }
}

fn run_texture_create(gpu: &mut FakeGpu, mut pending: TextureCreate) -> Result<Texture, GfxError> {
    let mut reply = GpuReply::Nothing;
    loop {
        match pending.advance(reply) {
            GpuStep::Call(command) => {
                assert_eq!(command.expects(), kind_of(&gpu.execute_peek(command)));
                reply = gpu.execute(command);
            }
            GpuStep::Finished(result) => return result,
        }
    }
}

fn kind_of(reply: &GpuReply) -> gers::graphics::ReplyKind {
    match reply {
        GpuReply::Nothing => gers::graphics::ReplyKind::Nothing,
        GpuReply::Handle(_) => gers::graphics::ReplyKind::Handle,
        GpuReply::Code(_) => gers::graphics::ReplyKind::Code,
        GpuReply::Flag(_) => gers::graphics::ReplyKind::Flag,
        GpuReply::Text(_) => gers::graphics::ReplyKind::Text,
    }
}

impl FakeGpu {
    /// The reply that `execute` would give, without side effect.
    fn execute_peek(&self, command: GpuCommand) -> GpuReply {
        match command {
            GpuCommand::GetError => GpuReply::Code(0),
            GpuCommand::GetTextureBinding
            | GpuCommand::CreateTexture
            | GpuCommand::CreateProgram
            | GpuCommand::CreateShader(_)
            | GpuCommand::CreateVertexArray
            | GpuCommand::CreateBuffer => GpuReply::Handle(0),
            GpuCommand::GetCompileStatus(_) | GpuCommand::GetLinkStatus(_) => GpuReply::Flag(true),
            GpuCommand::GetShaderInfoLog(_) | GpuCommand::GetProgramInfoLog(_) => {
                GpuReply::Text(String::new())
            }
            _ => GpuReply::Nothing,
        }
    }
}

fn run_upload(gpu: &mut FakeGpu, mut pending: TextureUpload) -> Result<(), GfxError> {
    let mut reply = GpuReply::Nothing;
    loop {
        match pending.advance(reply) {
            GpuStep::Call(command) => reply = gpu.execute(command),
            GpuStep::Finished(result) => return result,
        }
    }
}

fn run_shader(gpu: &mut FakeGpu, mut pending: ShaderBuild) -> Result<Shader, GfxError> {
    let mut reply = GpuReply::Nothing;
    loop {
        match pending.advance(reply) {
            GpuStep::Call(command) => reply = gpu.execute(command),
            GpuStep::Finished(result) => return result,
        }
    }
}

fn run_vao(gpu: &mut FakeGpu, mut pending: VaoCreate) -> Result<VertexArrayObject, GfxError> {
    let mut reply = GpuReply::Nothing;
    loop {
        match pending.advance(reply) {
            GpuStep::Call(command) => reply = gpu.execute(command),
            GpuStep::Finished(result) => return result,
        }
    }
}

fn device_with(extensions: &[&str]) -> GraphicDevice {
    GraphicDevice::new(extensions.iter().map(|e| e.to_string()).collect())
}

fn npot_device() -> GraphicDevice {
    device_with(&["GL_ARB_texture_non_power_of_two"])
}

fn make_texture(gpu: &mut FakeGpu, width: u32, height: u32) -> Texture {
    let pending = Texture::create(&npot_device(), width, height).unwrap();
    run_texture_create(gpu, pending).unwrap()
}

#[test]
fn texture_create_rejects_zero_size_and_queues_nothing() {
    let device = npot_device();
    for (width, height) in [(0u32, 0u32), (0, 16), (16, 0)] {
        match Texture::create(&device, width, height) {
            Err(e) => assert_eq!(e, GfxError::InvalidTextureSize(width, height)),
            Ok(_) => panic!("size {}x{} was accepted", width, height),
        }
    }
    assert!(device.destroy_queue().is_empty());
}

#[test]
fn texture_create_needs_power_of_two_without_extension() {
    let plain = device_with(&["GL_EXT_something"]);
    assert!(!Texture::is_npot_available(&plain));
    assert!(Texture::create(&plain, 64, 128).is_ok());
    match Texture::create(&plain, 100, 128) {
        Err(e) => assert_eq!(e, GfxError::InvalidTextureSize(100, 128)),
        Ok(_) => panic!("accepted"),
    }
    match Texture::create(&plain, 64, 3) {
        Err(e) => assert_eq!(e, GfxError::InvalidTextureSize(64, 3)),
        Ok(_) => panic!("accepted"),
    }
    let npot = npot_device();
    assert!(Texture::is_npot_available(&npot));
    assert!(Texture::create(&npot, 100, 3).is_ok());
}

#[test]
fn power_of_two_test() {
    assert!(!Texture::is_power_of_two(0));
    assert!(Texture::is_power_of_two(1));
    assert!(Texture::is_power_of_two(2));
    assert!(!Texture::is_power_of_two(3));
    assert!(Texture::is_power_of_two(1 << 31));
    assert!(!Texture::is_power_of_two(u32::MAX));
    assert!(!Texture::is_power_of_two(96));
}

#[test]
fn texture_create_issues_commands_in_order() {
    let mut gpu = FakeGpu::new();
    let texture = make_texture(&mut gpu, 100, 50);
    assert_eq!(texture.raw_handle(), 7);
    assert_eq!(texture.handle().handle(), 7);
    assert_eq!(texture.handle().size(), [100, 50]);
    assert_eq!(texture.rect(), Rect::new([0, 0], [100, 50]));
    assert_eq!(texture.data_len(), 100 * 50 * 4);
    assert_eq!(texture.handle().destroy_message(), Destroy::Texture(7));
    assert_eq!(
        gpu.log,
        vec![
            GpuCommand::CreateTexture,
            GpuCommand::GetError,
            GpuCommand::BindTexture(Some(7)),
            GpuCommand::AllocateTexture { width: 100, height: 50 },
            GpuCommand::GetError,
            GpuCommand::TextureParameter { name: 0x2801, value: 0x2600 },
            GpuCommand::TextureParameter { name: 0x2800, value: 0x2600 },
            GpuCommand::TextureParameter { name: 0x2802, value: 0x812F },
            GpuCommand::TextureParameter { name: 0x2803, value: 0x812F },
            GpuCommand::BindTexture(None),
        ]
    );
}

#[test]
fn texture_create_stops_at_reported_error() {
    let mut gpu = FakeGpu::new();
    gpu.errors = vec![0, gl::OUT_OF_MEMORY];
    let pending = Texture::create(&npot_device(), 4, 4).unwrap();
    assert_eq!(run_texture_create(&mut gpu, pending), Err(GfxError::OpenGl(gl::OUT_OF_MEMORY)));
    assert_eq!(gpu.log.len(), 5);
    assert_eq!(gpu.log[4], GpuCommand::GetError);

    let mut gpu = FakeGpu::new();
    gpu.errors = vec![gl::INVALID_OPERATION];
    let pending = Texture::create(&npot_device(), 4, 4).unwrap();
    assert_eq!(run_texture_create(&mut gpu, pending), Err(GfxError::OpenGl(gl::INVALID_OPERATION)));
    assert_eq!(gpu.log, vec![GpuCommand::CreateTexture, GpuCommand::GetError]);
}

#[test]
fn sub_texture_must_fit() {
    let mut gpu = FakeGpu::new();
    let texture = make_texture(&mut gpu, 10, 10);
    let sub = texture.new_sub([2, 2], [5, 5]).unwrap();
    assert_eq!(sub.raw_handle(), texture.raw_handle());
    assert_eq!(sub.handle(), texture.handle());
    assert_eq!(sub.rect(), Rect::new([2, 2], [5, 5]));
    assert_eq!(
        texture.new_sub([2, 2], [10, 10]),
        Err(GfxError::InvalidSubTexture {
            outer: Rect::new([0, 0], [10, 10]),
            inner: Rect::new([2, 2], [10, 10]),
        })
    );
    assert_eq!(texture.new_sub([3, 3], [0, 4]), Err(GfxError::InvalidTextureSize(0, 4)));
    assert_eq!(
        sub.new_sub([0, 0], [1, 1]),
        Err(GfxError::InvalidSubTexture {
            outer: Rect::new([2, 2], [5, 5]),
            inner: Rect::new([0, 0], [1, 1]),
        })
    );
    assert_eq!(
        texture.new_sub([u32::MAX, 0], [u32::MAX, 1]),
        Err(GfxError::InvalidSubTexture {
            outer: Rect::new([0, 0], [10, 10]),
            inner: Rect::new([u32::MAX, 0], [u32::MAX, 1]),
        })
    );
}

#[test]
fn texture_upload_checks_data_length() {
    let mut gpu = FakeGpu::new();
    let texture = make_texture(&mut gpu, 2, 3);
    gpu.log.clear();
    match texture.update_data(&[0u8; 23]) {
        Err(e) => assert_eq!(e, GfxError::InvalidImageData { expected: 24, actual: 23 }),
        Ok(_) => panic!("accepted"),
    }
    match texture.update_sub_data([0, 0], [1, 1], &[0u8; 5]) {
        Err(e) => assert_eq!(e, GfxError::InvalidImageData { expected: 4, actual: 5 }),
        Ok(_) => panic!("accepted"),
    }
    match texture.update_sub_data([0, 0], [u32::MAX, u32::MAX], &[]) {
        Err(GfxError::InvalidImageData { expected, actual }) => {
            assert_eq!(actual, 0);
            let bytes = u32::MAX as u128 * u32::MAX as u128 * 4;
            assert_eq!(expected as u128, bytes.min(usize::MAX as u128));
        }
        _ => panic!("accepted"),
    }
    assert!(gpu.log.is_empty());
}

#[test]
fn texture_upload_must_lie_inside_the_storage() {
    let mut gpu = FakeGpu::new();
    let texture = make_texture(&mut gpu, 4, 4);
    gpu.log.clear();
    let storage = Rect::new([0, 0], [4, 4]);
    match texture.update_sub_data([3, 0], [2, 1], &[0u8; 8]) {
        Err(e) => assert_eq!(
            e,
            GfxError::InvalidSubTexture { outer: storage, inner: Rect::new([3, 0], [2, 1]) }
        ),
        Ok(_) => panic!("accepted"),
    }
    match texture.update_sub_data([0, 4], [1, 1], &[0u8; 4]) {
        Err(e) => assert_eq!(
            e,
            GfxError::InvalidSubTexture { outer: storage, inner: Rect::new([0, 4], [1, 1]) }
        ),
        Ok(_) => panic!("accepted"),
    }
    match texture.update_sub_data([u32::MAX, 0], [1, 1], &[0u8; 4]) {
        Err(e) => assert_eq!(
            e,
            GfxError::InvalidSubTexture { outer: storage, inner: Rect::new([u32::MAX, 0], [1, 1]) }
        ),
        Ok(_) => panic!("accepted"),
    }
    // The length of the data is looked at first.
    match texture.update_sub_data([3, 0], [2, 1], &[0u8; 7]) {
        Err(e) => assert_eq!(e, GfxError::InvalidImageData { expected: 8, actual: 7 }),
        Ok(_) => panic!("accepted"),
    }
    assert!(gpu.log.is_empty());
    // The storage's edge is inside; a view into the texture does not narrow the storage.
    assert!(texture.update_sub_data([3, 3], [1, 1], &[0u8; 4]).is_ok());
    assert!(texture.update_sub_data([4, 4], [0, 0], &[]).is_ok());
    let view = texture.new_sub([1, 1], [2, 2]).unwrap();
    assert!(view.update_sub_data([0, 0], [4, 4], &[0u8; 64]).is_ok());
    assert_eq!(texture.handle().storage_rect(), storage);
}

#[test]
fn texture_upload_restores_binding() {
    let mut gpu = FakeGpu::new();
    let texture = make_texture(&mut gpu, 2, 3);
    gpu.log.clear();
    let pending = texture.update_sub_data([1, 0], [1, 2], &[0u8; 8]).unwrap();
    assert_eq!(run_upload(&mut gpu, pending), Ok(()));
    let expected = vec![
        GpuCommand::GetTextureBinding,
        GpuCommand::BindTexture(Some(7)),
        GpuCommand::UploadTexture { x: 1, y: 0, width: 1, height: 2 },
        GpuCommand::GetError,
        GpuCommand::BindTexture(Some(99)),
    ];
    assert_eq!(gpu.log, expected);

    gpu.log.clear();
    gpu.errors = vec![gl::INVALID_VALUE];
    let pending = texture.update_data(&[0u8; 24]).unwrap();
    assert_eq!(run_upload(&mut gpu, pending), Err(GfxError::OpenGl(gl::INVALID_VALUE)));
    assert_eq!(gpu.log.len(), 5);
    assert_eq!(gpu.log[2], GpuCommand::UploadTexture { x: 0, y: 0, width: 2, height: 3 });
    assert_eq!(gpu.log[4], GpuCommand::BindTexture(Some(99)));
}

#[test]
fn shader_build_succeeds_and_cleans_up() {
    let mut gpu = FakeGpu::new();
    let build = Shader::from_source("vertex text", "fragment text");
    assert_eq!(build.source(ShaderStage::Vertex), "vertex text");
    assert_eq!(build.source(ShaderStage::Fragment), "fragment text");
    let shader = run_shader(&mut gpu, build).unwrap();
    assert_eq!(shader.program(), 7);
    assert_eq!(shader.destroy_message(), Destroy::Shader(7));
    assert_eq!(
        gpu.log,
        vec![
            GpuCommand::CreateProgram,
            GpuCommand::CreateShader(ShaderStage::Vertex),
            GpuCommand::ShaderSource { shader: 8, stage: ShaderStage::Vertex },
            GpuCommand::CompileShader(8),
            GpuCommand::GetCompileStatus(8),
            GpuCommand::AttachShader { program: 7, shader: 8 },
            GpuCommand::CreateShader(ShaderStage::Fragment),
            GpuCommand::ShaderSource { shader: 9, stage: ShaderStage::Fragment },
            GpuCommand::CompileShader(9),
            GpuCommand::GetCompileStatus(9),
            GpuCommand::AttachShader { program: 7, shader: 9 },
            GpuCommand::LinkProgram(7),
            GpuCommand::GetLinkStatus(7),
            GpuCommand::DetachShader { program: 7, shader: 8 },
            GpuCommand::DeleteShader(8),
            GpuCommand::DetachShader { program: 7, shader: 9 },
            GpuCommand::DeleteShader(9),
        ]
    );
}

#[test]
fn shader_vertex_failure_deletes_stage() {
    let mut gpu = FakeGpu::new();
    gpu.compile_ok = vec![false];
    let result = run_shader(&mut gpu, Shader::from_source("v", "f"));
    assert_eq!(result, Err(GfxError::ShaderCompile("shader 8 is wrong".to_string())));
    assert_eq!(
        gpu.log[5..].to_vec(),
        vec![
            GpuCommand::GetShaderInfoLog(8),
            GpuCommand::DeleteShader(8),
            GpuCommand::DeleteProgram(7),
        ]
    );
}

#[test]
fn shader_fragment_failure_deletes_both_stages() {
    let mut gpu = FakeGpu::new();
    gpu.compile_ok = vec![true, false];
    let result = run_shader(&mut gpu, Shader::from_source("v", "f"));
    assert_eq!(result, Err(GfxError::ShaderCompile("shader 9 is wrong".to_string())));
    assert_eq!(
        gpu.log[10..].to_vec(),
        vec![
            GpuCommand::GetShaderInfoLog(9),
            GpuCommand::DeleteShader(9),
            GpuCommand::DetachShader { program: 7, shader: 8 },
            GpuCommand::DeleteShader(8),
            GpuCommand::DeleteProgram(7),
        ]
    );
}

#[test]
fn shader_link_failure_deletes_both_stages() {
    let mut gpu = FakeGpu::new();
    gpu.link_ok = false;
    let result = run_shader(&mut gpu, Shader::from_source("v", "f"));
    assert_eq!(result, Err(GfxError::ShaderCompile("program 7 is wrong".to_string())));
    assert_eq!(
        gpu.log[13..].to_vec(),
        vec![
            GpuCommand::GetProgramInfoLog(7),
            GpuCommand::DetachShader { program: 7, shader: 8 },
            GpuCommand::DeleteShader(8),
            GpuCommand::DetachShader { program: 7, shader: 9 },
            GpuCommand::DeleteShader(9),
            GpuCommand::DeleteProgram(7),
        ]
    );
    assert_ne!(Route::Build, Route::LinkFailed);
}

fn layout() -> VertexLayout {
    VertexLayout { stride: 32, position: 0, uv: 8, color: 16 }
}

#[test]
fn vao_create_issues_commands_in_order() {
    let mut gpu = FakeGpu::new();
    let pending =
        VertexArrayObject::create(layout(), &[0, 1, 2], UsageFrequency::Static, UsageNature::Draw);
    let vao = run_vao(&mut gpu, pending).unwrap();
    assert_eq!(vao.handle(), 7);
    assert_eq!(vao.vertex_buf_handle(), 8);
    assert_eq!(vao.index_buf_handle(), 9);
    assert_eq!(vao.len(), 3);
    assert!(!vao.is_empty());
    assert_eq!(vao.destroy_message(), Destroy::VertexArray(7));
    assert_eq!(gpu.log.len(), 21);
    assert_eq!(gpu.log[0], GpuCommand::CreateVertexArray);
    assert_eq!(gpu.log[1], GpuCommand::BindVertexArray(Some(7)));
    assert_eq!(gpu.log[3], GpuCommand::BindBuffer { target: 0x8892, buffer: Some(8) });
    assert_eq!(
        gpu.log[4],
        GpuCommand::BufferData { target: 0x8892, source: BufferSource::Vertices, usage: 0x88E4 }
    );
    assert_eq!(
        gpu.log[7],
        GpuCommand::VertexAttribPointer { location: 0, components: 2, stride: 32, offset: 0 }
    );
    assert_eq!(
        gpu.log[10],
        GpuCommand::VertexAttribPointer { location: 1, components: 2, stride: 32, offset: 8 }
    );
    assert_eq!(
        gpu.log[13],
        GpuCommand::VertexAttribPointer { location: 2, components: 4, stride: 32, offset: 16 }
    );
    assert_eq!(gpu.log[16], GpuCommand::BindBuffer { target: 0x8893, buffer: Some(9) });
    assert_eq!(
        gpu.log[17],
        GpuCommand::BufferData { target: 0x8893, source: BufferSource::Indices, usage: 0x88E4 }
    );
    assert_eq!(gpu.log[19], GpuCommand::BindBuffer { target: 0x8892, buffer: None });
    assert_eq!(gpu.log[20], GpuCommand::BindVertexArray(None));
    for check in [5, 8, 11, 14, 18] {
        assert_eq!(gpu.log[check], GpuCommand::GetError);
    }
}

#[test]
fn vao_create_stops_at_reported_error() {
    let mut gpu = FakeGpu::new();
    gpu.errors = vec![0, 0, gl::INVALID_ENUM];
    let pending =
        VertexArrayObject::create(layout(), &[], UsageFrequency::Dynamic, UsageNature::Draw);
    assert_eq!(run_vao(&mut gpu, pending), Err(GfxError::OpenGl(gl::INVALID_ENUM)));
    assert_eq!(gpu.log.len(), 12);
}

#[test]
fn mem_hint_table() {
    let cases = [
        (UsageFrequency::Stream, UsageNature::Draw, 0x88E0),
        (UsageFrequency::Stream, UsageNature::Read, 0x88E1),
        (UsageFrequency::Stream, UsageNature::Copy, 0x88E2),
        (UsageFrequency::Static, UsageNature::Draw, 0x88E4),
        (UsageFrequency::Static, UsageNature::Read, 0x88E5),
        (UsageFrequency::Static, UsageNature::Copy, 0x88E6),
        (UsageFrequency::Dynamic, UsageNature::Draw, 0x88E8),
        (UsageFrequency::Dynamic, UsageNature::Read, 0x88E9),
        (UsageFrequency::Dynamic, UsageNature::Copy, 0x88EA),
    ];
    for (frequency, nature, hint) in cases {
        assert_eq!(VertexArrayObject::mem_hint(frequency, nature), hint);
    }
}

#[test]
fn destroy_queue_is_first_in_first_out() {
    let mut queue = DestroyQueue::new();
    assert!(queue.is_empty());
    queue.send(Destroy::Shader(3));
    queue.send(Destroy::Texture(1));
    assert_eq!(queue.len(), 2);
    assert_eq!(queue.drain(), vec![Destroy::Shader(3), Destroy::Texture(1)]);
    assert!(queue.is_empty());
    assert_eq!(queue.drain(), vec![]);
}

#[test]
fn maintain_deletes_each_released_resource_once() {
    let mut gpu = FakeGpu::new();
    let texture = make_texture(&mut gpu, 4, 4);
    let shader = run_shader(&mut gpu, Shader::from_source("v", "f")).unwrap();
    let pending =
        VertexArrayObject::create(layout(), &[0], UsageFrequency::Static, UsageNature::Draw);
    let vao = run_vao(&mut gpu, pending).unwrap();

    let mut device = npot_device();
    assert_eq!(device.maintain(), vec![]);
    device.release(texture.handle().destroy_message());
    device.release(shader.destroy_message());
    device.release(vao.destroy_message());
    assert_eq!(device.destroy_queue().len(), 3);
    assert_eq!(
        device.maintain(),
        vec![
            GpuCommand::DeleteTexture(texture.raw_handle()),
            GpuCommand::DeleteProgram(shader.program()),
            GpuCommand::DeleteVertexArray(vao.handle()),
        ]
    );
    assert!(device.destroy_queue().is_empty());
    assert_eq!(device.maintain(), vec![]);
}

#[test]
fn device_viewport_and_extensions() {
    let mut device = device_with(&["a", "b"]);
    assert_eq!(device.viewport_size(), [640, 480]);
    device.set_viewport_2(800, 600);
    assert_eq!(device.viewport_size(), [800, 600]);
    device.set_viewport_size([1, 2]);
    assert_eq!(device.viewport_size(), [1, 2]);
    assert!(device.has_extension("a"));
    assert!(device.has_extension("b"));
    assert!(!device.has_extension("c"));
    assert!(!device.has_extension(""));
    assert_eq!(
        device.clear_screen_4(1, 2, 3, 4),
        vec![
            GpuCommand::Viewport { width: 1, height: 2 },
            GpuCommand::ClearScreen { r: 1, g: 2, b: 3, a: 4 },
        ]
    );
}

#[test]
fn device_draws_vertex_array_object() {
    let mut gpu = FakeGpu::new();
    let texture = make_texture(&mut gpu, 4, 4);
    let shader = run_shader(&mut gpu, Shader::from_source("v", "f")).unwrap();
    let pending =
        VertexArrayObject::create(layout(), &[0, 1, 2, 0, 2, 3], UsageFrequency::Static, UsageNature::Draw);
    let vao = run_vao(&mut gpu, pending).unwrap();
    let device = npot_device();
    assert_eq!(
        device.draw_vertex_array_object(&vao, &texture, &shader),
        vec![
            GpuCommand::Viewport { width: 640, height: 480 },
            GpuCommand::UseProgram(Some(shader.program())),
            GpuCommand::UniformCanvasSize { location: 0, width: 640, height: 480 },
            GpuCommand::UniformTransform { location: 1 },
            GpuCommand::BindVertexArray(Some(vao.handle())),
            GpuCommand::UniformSampler { location: 2, unit: 0 },
            GpuCommand::ActiveTexture(0x84C0),
            GpuCommand::BindTexture(Some(texture.raw_handle())),
            GpuCommand::DrawElements { count: 6 },
            GpuCommand::BindVertexArray(None),
            GpuCommand::UseProgram(None),
        ]
    );
}

#[test]
fn opengl_info_text() {
    let info = OpenGlInfo {
        version: "4.5".to_string(),
        vendor: "ACME".to_string(),
        renderer: "Soft".to_string(),
    };
    assert_eq!(
        info.to_string(),
        "OpenGL Info:\n    Version: 4.5\n    Vendor: ACME\n    Renderer: Soft\n"
    );
}

#[test]
fn gfx_error_text() {
    assert_eq!(
        GfxError::OpenGl(0x0502).to_string(),
        "OpenGL Error: 0x502 GL_INVALID_OPERATION The specified operation is not allowed in the current state."
    );
    assert_eq!(GfxError::OpenGl(0).to_string(), "OpenGL Error: 0x0 GL_NO_ERROR No error has been recorded");
    assert_eq!(GfxError::OpenGl(0xBEEF).to_string(), "OpenGL Error: 0xbeef ");
    assert_eq!(
        GfxError::OpenGl(0x0505).to_string(),
        "OpenGL Error: 0x505 GL_INVALID_FRAMEBUFFER_OPERATION There is not enough memory left to execute the command."
    );
    assert_eq!(
        GfxError::InvalidVertexArray { index: 9, vertex_count: 4 }.to_string(),
        "Invalid vertex array object. Index 9 is out of bounds for the given 4 vertices."
    );
    assert_eq!(
        GfxError::InvalidTextureSize(0, 12).to_string(),
        "Invalid texture size (0, 12). Ensure that neither dimension is zero, and is power-of-two."
    );
    assert_eq!(
        GfxError::InvalidSubTexture {
            outer: Rect::new([0, 0], [10, 10]),
            inner: Rect::new([2, 2], [10, 10]),
        }
        .to_string(),
        "Sub-texture rectangle [2, 2, 10, 10] does not fit in [0, 0, 10, 10]."
    );
    assert_eq!(
        GfxError::InvalidImageData { expected: 16, actual: 3 }.to_string(),
        "Image data does not match texture storage size. Expected bytes 16. Actual bytes 3."
    );
    assert_eq!(
        GfxError::ShaderCompile("0:1: syntax".to_string()).to_string(),
        "Shader compile error: 0:1: syntax"
    );
}

#[test]
fn gfx_error_names() {
    assert_eq!(GfxError::OpenGl(0).opengl_error_name(), Some("GL_NO_ERROR"));
    assert_eq!(GfxError::OpenGl(0x0500).opengl_error_name(), Some("GL_INVALID_ENUM"));
    assert_eq!(GfxError::OpenGl(0x0501).opengl_error_name(), Some("GL_INVALID_VALUE"));
    assert_eq!(GfxError::OpenGl(0x0502).opengl_error_name(), Some("GL_INVALID_OPERATION"));
    assert_eq!(
        GfxError::OpenGl(0x0506).opengl_error_name(),
        Some("GL_INVALID_FRAMEBUFFER_OPERATION")
    );
    assert_eq!(
        GfxError::OpenGl(0x0505).opengl_error_name(),
        Some("GL_INVALID_FRAMEBUFFER_OPERATION")
    );
    assert_eq!(GfxError::OpenGl(0x0504).opengl_error_name(), Some("GL_STACK_UNDERFLOW"));
    assert_eq!(GfxError::OpenGl(0x0503).opengl_error_name(), Some("GL_STACK_OVERFLOW"));
    assert_eq!(GfxError::OpenGl(1).opengl_error_name(), None);
    assert_eq!(GfxError::InvalidTextureSize(1, 1).opengl_error_name(), None);
}

fn batch_with(gpu: &mut FakeGpu, textures: &[u32]) -> (SpriteBatch, VertexArrayObject) {
    let indices = SpriteBatch::initial_indices();
    let vao = run_vao(gpu, SpriteBatch::create(layout(), &indices)).unwrap();
    let mut batch = SpriteBatch::new(vao);
    let mut made: Vec<Texture> = vec![];
    let mut handles: Vec<u32> = vec![];
    for wanted in textures {
        let texture = match handles.iter().position(|h| h == wanted) {
            Some(at) => made[at],
            None => {
                gpu.next_handle = *wanted;
                let texture = make_texture(gpu, 1, 1);
                handles.push(*wanted);
                made.push(texture);
                texture
            }
        };
        assert!(batch.add(Some(&texture)));
    }
    (batch, vao)
}

#[test]
fn sprite_batch_initial_indices() {
    let indices = SpriteBatch::initial_indices();
    assert_eq!(indices.len(), 2048 * 6);
    assert_eq!(indices[..12].to_vec(), vec![0, 1, 2, 0, 2, 3, 1, 2, 3, 1, 3, 4]);
    assert_eq!(indices[2047 * 6..].to_vec(), vec![2047, 2048, 2049, 2047, 2049, 2050]);
}

#[test]
fn sprite_batch_quad_indices() {
    assert_eq!(SpriteBatch::quad_indices(0), vec![]);
    assert_eq!(SpriteBatch::quad_indices(2), vec![0, 1, 2, 0, 2, 3, 4, 5, 6, 4, 6, 7]);
    let full = SpriteBatch::quad_indices(2048);
    assert_eq!(full.len(), 2048 * 6);
    assert_eq!(full[2047 * 6..].to_vec(), vec![8188, 8189, 8190, 8188, 8190, 8191]);
}

#[test]
fn sprite_batch_without_sprites_draws_nothing() {
    let mut gpu = FakeGpu::new();
    let (mut batch, _) = batch_with(&mut gpu, &[]);
    assert!(!batch.add(None));
    let shader = run_shader(&mut gpu, Shader::from_source("v", "f")).unwrap();
    let plan = batch.draw(&npot_device(), &shader);
    assert!(plan.batches.is_empty());
    assert!(plan.commands.is_empty());
}

#[test]
fn sprite_batch_groups_runs_of_one_texture() {
    let mut gpu = FakeGpu::new();
    let (mut batch, vao) = batch_with(&mut gpu, &[50, 50, 60, 50]);
    assert_eq!(batch.len(), 4);
    assert_eq!(
        batch.plan(),
        vec![
            Batch { texture: 50, first: 0, count: 2 },
            Batch { texture: 60, first: 2, count: 1 },
            Batch { texture: 50, first: 3, count: 1 },
        ]
    );
    gpu.next_handle = 200;
    let shader = run_shader(&mut gpu, Shader::from_source("v", "f")).unwrap();
    let plan = batch.draw(&npot_device(), &shader);
    assert_eq!(batch.len(), 0);
    assert_eq!(plan.batches.len(), 3);
    let flush = |first: usize, count: usize| {
        vec![
            GpuCommand::BindBuffer { target: 0x8892, buffer: Some(vao.vertex_buf_handle()) },
            GpuCommand::BufferSprites {
                target: 0x8892,
                source: BufferSource::Vertices,
                first,
                count,
            },
            GpuCommand::BindBuffer { target: 0x8893, buffer: Some(vao.index_buf_handle()) },
            GpuCommand::BufferSprites { target: 0x8893, source: BufferSource::Indices, first, count },
            GpuCommand::DrawElements { count: count * 6 },
        ]
    };
    let bind = |texture: u32| {
        vec![
            GpuCommand::UniformSampler { location: 2, unit: 0 },
            GpuCommand::ActiveTexture(0x84C0),
            GpuCommand::BindTexture(Some(texture)),
        ]
    };
    let mut expected = vec![
        GpuCommand::Viewport { width: 640, height: 480 },
        GpuCommand::UseProgram(Some(200)),
        GpuCommand::UniformCanvasSize { location: 0, width: 640, height: 480 },
        GpuCommand::UniformTransform { location: 1 },
        GpuCommand::BindVertexArray(Some(vao.handle())),
    ];
    expected.extend(bind(50));
    expected.extend(flush(0, 2));
    expected.extend(bind(60));
    expected.extend(flush(2, 1));
    expected.extend(bind(50));
    expected.extend(flush(3, 1));
    expected.extend(vec![
        GpuCommand::BindTexture(None),
        GpuCommand::BindVertexArray(None),
        GpuCommand::UseProgram(None),
    ]);
    assert_eq!(plan.commands, expected);
}

#[test]
fn sprite_batch_splits_full_runs() {
    let mut gpu = FakeGpu::new();
    let textures = vec![50u32; 2048 * 2 + 5];
    let (batch, _) = batch_with(&mut gpu, &textures);
    assert_eq!(
        batch.plan(),
        vec![
            Batch { texture: 50, first: 0, count: 2048 },
            Batch { texture: 50, first: 2048, count: 2048 },
            Batch { texture: 50, first: 4096, count: 5 },
        ]
    );
    let mut batch = batch;
    gpu.next_handle = 200;
    let shader = run_shader(&mut gpu, Shader::from_source("v", "f")).unwrap();
    let plan = batch.draw(&npot_device(), &shader);
    let binds = plan
        .commands
        .iter()
        .filter(|c| matches!(c, GpuCommand::BindTexture(Some(_))))
        .count();
    assert_eq!(binds, 1);
    let draws = plan.commands.iter().filter(|c| matches!(c, GpuCommand::DrawElements { .. })).count();
    assert_eq!(draws, 3);
}
