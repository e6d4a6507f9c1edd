use learn_opengl::info_log::{info_log_text, InfoLog};
use learn_opengl::gl::GlLoaded;
use learn_opengl::objects::{
    shader_kind, Buffer, BufferType, Shader, ShaderProgram, ShaderType, Texture2D, VertexArray,
};
use learn_opengl::texture::{
    channels, plan_upload, Filter, PixelFormat, PixelUpload, TextureParams, Wrap,
};

#[test]
fn zero_names_are_refused() {
    assert!(VertexArray::from_name(0).is_none());
    assert!(Buffer::from_name(0).is_none());
    assert!(Texture2D::from_name(0).is_none());
    assert!(Shader::from_name(0, ShaderType::Vertex).is_none());
    assert!(ShaderProgram::from_name(0).is_none());
}

#[test]
fn shader_and_program_names_are_kept() {
    let s = Shader::from_name(4, ShaderType::Fragment).unwrap();
    assert_eq!(s.name(), 4);
    assert_eq!(s.shader_type(), ShaderType::Fragment);
    assert_eq!(ShaderProgram::from_name(8).unwrap().name(), 8);
}

#[test]
fn no_witness_before_gl_is_loaded() {
    assert!(GlLoaded::check().is_none());
}

#[test]
fn nonzero_names_are_kept() {
    assert_eq!(VertexArray::from_name(3).unwrap().name(), 3);
    assert_eq!(Buffer::from_name(9).unwrap().name(), 9);
    assert_eq!(Texture2D::from_name(u32::MAX).unwrap().name(), u32::MAX);
}

#[test]
fn log_text_takes_the_written_bytes() {
    let buffer = b"0: error: bad token\0junk".to_vec();
    assert_eq!(info_log_text(&buffer, 19), "0: error: bad token");
    assert_eq!(info_log_text(&buffer, 0), "");
    assert_eq!(info_log_text(&buffer, -4), "");
    assert_eq!(info_log_text(&buffer, 1000), "0: error: bad token\u{0}junk");
}

#[test]
fn log_text_replaces_invalid_utf8() {
    let buffer = vec![b'o', b'k', 0xff, b'!'];
    assert_eq!(info_log_text(&buffer, 4), "ok\u{fffd}!");
}

struct FakeLog {
    reported: i32,
    text: &'static [u8],
    written: i32,
}

impl InfoLog for FakeLog {
    fn get_info_length(&self) -> i32 {
        self.reported
    }

    fn write_info_log(&self, buffer: &mut Vec<u8>) -> i32 {
        assert!(buffer.capacity() >= self.reported.max(0) as usize);
        buffer.extend_from_slice(self.text);
        self.written
    }
}

#[test]
fn info_log_trusts_the_written_length() {
    let log = FakeLog { reported: 12, text: b"link failed\0", written: 11 };
    assert_eq!(log.get_info_log(), "link failed");
}

#[test]
fn info_log_of_nothing_is_empty() {
    let log = FakeLog { reported: 0, text: b"", written: 0 };
    assert_eq!(log.get_info_log(), "");
    let odd = FakeLog { reported: -1, text: b"x", written: -1 };
    assert_eq!(odd.get_info_log(), "");
}

#[test]
fn default_texture_params() {
    let p = TextureParams::new();
    assert_eq!(p.wrap_s, Wrap::Repeat);
    assert_eq!(p.wrap_t, Wrap::Repeat);
    assert_eq!(p.min_filter, Filter::LinearMipmapLinear);
    assert_eq!(p.mag_filter, Filter::Linear);
    assert!(p.needs_mipmaps());
    let nearest = p.with_filter(Filter::Nearest, Filter::Nearest);
    assert!(!nearest.needs_mipmaps());
    assert_eq!(nearest.wrap_s, Wrap::Repeat);
    let clamped = p.with_wrap(Wrap::ClampToEdge, Wrap::MirroredRepeat);
    assert_eq!(clamped.wrap_t, Wrap::MirroredRepeat);
    assert_eq!(clamped.min_filter, Filter::LinearMipmapLinear);
}

#[test]
fn upload_sizes() {
    assert_eq!(channels(PixelFormat::Rgb), 3);
    assert_eq!(channels(PixelFormat::Rgba), 4);
    assert_eq!(
        plan_upload(512, 512, PixelFormat::Rgb, 786_432),
        Some(PixelUpload {
            width: 512,
            height: 512,
            external: PixelFormat::Rgb,
            internal: PixelFormat::Rgb,
            len: 786_432,
        })
    );
    let face = plan_upload(476, 476, PixelFormat::Rgba, 1_000_000).unwrap();
    assert_eq!(face.len, 906_304);
    assert_eq!(face.internal, PixelFormat::Rgb);
    assert_eq!(face.external, PixelFormat::Rgba);
    assert_eq!(plan_upload(512, 512, PixelFormat::Rgb, 786_431), None);
    assert_eq!(plan_upload(1 << 31, 1, PixelFormat::Rgb, usize::MAX), None);
    assert_eq!(plan_upload(0, 100, PixelFormat::Rgba, 0).unwrap().len, 0);
}

#[test]
fn gl_kinds_and_targets() {
    assert_eq!(shader_kind(ShaderType::Vertex), 0x8B31);
    assert_eq!(shader_kind(ShaderType::Fragment), 0x8B30);
    assert_eq!(shader_kind(ShaderType::Vertex), gl33::GL_VERTEX_SHADER.0);
    assert_eq!(shader_kind(ShaderType::Fragment), gl33::GL_FRAGMENT_SHADER.0);
    assert_eq!(BufferType::Array.target(), gl33::GL_ARRAY_BUFFER.0);
    assert_eq!(BufferType::ElementArray.target(), gl33::GL_ELEMENT_ARRAY_BUFFER.0);
}

#[test]
fn valid_utf8_log_is_kept() {
    let buffer = "héllo wörld".as_bytes().to_vec();
    assert_eq!(info_log_text(&buffer, buffer.len() as i32), "héllo wörld");
}
