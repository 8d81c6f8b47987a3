//! Textures, and what a decoded image becomes on the GPU.
//!
//! Decoding an image file and talking to the driver are the caller's
//! business. This module decides, from what the decoder reports of an image,
//! how it is uploaded: its pixel format, its wrap mode, its filters, and for
//! a cubemap which face each image becomes.

use vstd::prelude::*;

verus! {

/// What a texture contributes to a material.
#[derive(Debug, Clone, Copy, PartialEq, Eq, Hash, Structural)]
pub enum TextureType {
    Diffuse,
    Specular,
}

/// A texture that lives on the GPU.
#[derive(Debug, Clone, Copy, PartialEq, Eq, Structural)]
pub struct Texture {
    pub id: u32,
    pub type_: TextureType,
}

impl Texture {
    /// Names the uploaded texture `id` as one of kind `type_`.
    pub fn new(id: u32, type_: TextureType) -> (texture: Self)
        ensures
            texture == (Texture { id, type_ }),
    {
        Texture { id, type_ }
    }
}

/// What a decoder reports of an image: its size in pixels and the number of
/// channels of each pixel.
#[derive(Debug, Clone, Copy, PartialEq, Eq, Structural)]
pub struct ImageInfo {
    pub width: u32,
    pub height: u32,
    pub channels: u8,
}

/// Pixel format of an upload.
#[derive(Debug, Clone, Copy, PartialEq, Eq, Structural)]
pub enum PixelFormat {
    Rgb,
    Rgba,
}

/// How texture coordinates outside the unit square are treated.
#[derive(Debug, Clone, Copy, PartialEq, Eq, Structural)]
pub enum WrapMode {
    Repeat,
    ClampToEdge,
}

/// How texels are sampled.
#[derive(Debug, Clone, Copy, PartialEq, Eq, Structural)]
pub enum Filter {
    Linear,
    LinearMipmapLinear,
}

/// The faces of a cubemap, in the order in which they are uploaded.
#[derive(Debug, Clone, Copy, PartialEq, Eq, Structural)]
pub enum CubeFace {
    PositiveX,
    NegativeX,
    PositiveY,
    NegativeY,
    PositiveZ,
    NegativeZ,
}

/// Why an image cannot become a texture.
#[derive(Debug, Clone, Copy, PartialEq, Eq, Structural)]
pub enum TextureError {
    /// The image has neither three nor four channels.
    UnsupportedChannels { channels: u8 },
    /// A cubemap was given another number of images than six.
    WrongFaceCount { count: usize },
    /// The image for a cubemap face could not be read.
    UnreadableFace { face: usize },
    /// The image for a cubemap face does not have three channels.
    UnsupportedFace { face: usize, channels: u8 },
    /// The image for a cubemap face is wider or higher than the driver can be told.
    FaceTooLarge { face: usize },
}

/// How a two-dimensional texture is uploaded.
#[derive(Debug, Clone, Copy, PartialEq, Eq, Structural)]
pub struct TextureUpload {
    pub texture: u32,
    pub format: PixelFormat,
    pub width: i32,
    pub height: i32,
    pub mipmaps: bool,
    pub wrap_s: WrapMode,
    pub wrap_t: WrapMode,
    pub min_filter: Filter,
    pub mag_filter: Filter,
}

/// How one face of a cubemap is uploaded.
#[derive(Debug, Clone, Copy, PartialEq, Eq, Structural)]
pub struct FaceUpload {
    pub face: CubeFace,
    pub format: PixelFormat,
    pub width: i32,
    pub height: i32,
}

/// How a cubemap is uploaded: its faces in order, then its parameters. The
/// wrap mode holds in all three directions.
#[derive(Debug)]
pub struct CubemapUpload {
    pub texture: u32,
    pub faces: Vec<FaceUpload>,
    pub wrap: WrapMode,
    pub min_filter: Filter,
    pub mag_filter: Filter,
}

/// Number of faces of a cubemap.
pub const CUBE_FACES: usize = 6;

/// The pixel format for a channel count, if there is one.
pub open spec fn format_of(channels: u8) -> Option<PixelFormat> {
    if channels == 3 {
        Some(PixelFormat::Rgb)
    } else if channels == 4 {
        Some(PixelFormat::Rgba)
    } else {
        None
    }
}

/// The wrap mode that goes with a pixel format: textures with an alpha
/// channel are clamped, so that their border does not bleed in from the
/// opposite edge, and the others repeat.
pub open spec fn wrap_of(format: PixelFormat) -> WrapMode {
    match format {
        PixelFormat::Rgba => WrapMode::ClampToEdge,
        PixelFormat::Rgb => WrapMode::Repeat,
    }
}

/// The upload of `image` as texture `texture`, if its format is supported.
pub open spec fn texture_upload(image: ImageInfo, texture: u32) -> Result<
    TextureUpload,
    TextureError,
> {
    match format_of(image.channels) {
        Some(format) => Ok(
            TextureUpload {
                texture,
                format,
                width: image.width as i32,
                height: image.height as i32,
                mipmaps: true,
                wrap_s: wrap_of(format),
                wrap_t: wrap_of(format),
                min_filter: Filter::LinearMipmapLinear,
                mag_filter: Filter::Linear,
            },
        ),
        None => Err(TextureError::UnsupportedChannels { channels: image.channels }),
    }
}

/// Infers the pixel format of an image from its channel count.
pub fn pixel_format(channels: u8) -> (format: Option<PixelFormat>)
    ensures
        format == format_of(channels),
{
    if channels == 3 {
        Some(PixelFormat::Rgb)
    } else if channels == 4 {
        Some(PixelFormat::Rgba)
    } else {
        None
    }
}

/// Plans the upload of a decoded image as the mipmapped two-dimensional
/// texture `texture`.
///
/// A size beyond `i32::MAX` is handed on as the driver's signed size type
/// holds it, for the driver to refuse.
pub fn load_texture(image: &ImageInfo, texture: u32) -> (upload: Result<
    TextureUpload,
    TextureError,
>)
    ensures
        upload == texture_upload(*image, texture),
{
    match pixel_format(image.channels) {
        Some(format) => {
            let wrap = match format {
                PixelFormat::Rgba => WrapMode::ClampToEdge,
                PixelFormat::Rgb => WrapMode::Repeat,
            };
            Ok(
                TextureUpload {
                    texture,
                    format,
                    width: #[verifier::truncate]
                    (image.width as i32),
                    height: #[verifier::truncate]
                    (image.height as i32),
                    mipmaps: true,
                    wrap_s: wrap,
                    wrap_t: wrap,
                    min_filter: Filter::LinearMipmapLinear,
                    mag_filter: Filter::Linear,
                },
            )
        },
        None => Err(TextureError::UnsupportedChannels { channels: image.channels }),
    }
}

/// The cubemap face that the image at position `i` becomes.
pub open spec fn face_at(i: int) -> CubeFace {
    if i == 0 {
        CubeFace::PositiveX
    } else if i == 1 {
        CubeFace::NegativeX
    } else if i == 2 {
        CubeFace::PositiveY
    } else if i == 3 {
        CubeFace::NegativeY
    } else if i == 4 {
        CubeFace::PositiveZ
    } else {
        CubeFace::NegativeZ
    }
}

/// Whether an image can be a cubemap face.
pub open spec fn face_ok(image: Option<ImageInfo>) -> bool {
    &&& image matches Some(image)
    &&& image.channels == 3
    &&& image.width <= i32::MAX
    &&& image.height <= i32::MAX
}

/// The upload of `image` as the face at position `i`.
pub open spec fn face_upload(image: Option<ImageInfo>, i: int) -> FaceUpload {
    FaceUpload {
        face: face_at(i),
        format: PixelFormat::Rgb,
        width: image->0.width as i32,
        height: image->0.height as i32,
    }
}

/// What `load_cubemap` answers on `faces`: the upload of all six, or the
/// first thing that is wrong.
pub open spec fn cubemap_answer(
    faces: Seq<Option<ImageInfo>>,
    texture: u32,
    answer: Result<CubemapUpload, TextureError>,
) -> bool {
    match answer {
        Ok(upload) => {
            &&& faces.len() == CUBE_FACES
            &&& forall|i: int| 0 <= i < faces.len() ==> face_ok(#[trigger] faces[i])
            &&& upload.texture == texture
            &&& upload.faces@ == Seq::new(faces.len(), |i: int| face_upload(faces[i], i))
            &&& upload.wrap == WrapMode::ClampToEdge
            &&& upload.min_filter == Filter::Linear
            &&& upload.mag_filter == Filter::Linear
        },
        Err(TextureError::WrongFaceCount { count }) => {
            &&& faces.len() != CUBE_FACES
            &&& count == faces.len()
        },
        Err(TextureError::UnreadableFace { face }) => {
            &&& faces.len() == CUBE_FACES
            &&& face < faces.len()
            &&& forall|i: int| 0 <= i < face ==> face_ok(#[trigger] faces[i])
            &&& faces[face as int] is None
        },
        Err(TextureError::UnsupportedFace { face, channels }) => {
            &&& faces.len() == CUBE_FACES
            &&& face < faces.len()
            &&& forall|i: int| 0 <= i < face ==> face_ok(#[trigger] faces[i])
            &&& faces[face as int] matches Some(image)
            &&& image.channels == channels
            &&& channels != 3
        },
        Err(TextureError::FaceTooLarge { face }) => {
            &&& faces.len() == CUBE_FACES
            &&& face < faces.len()
            &&& forall|i: int| 0 <= i < face ==> face_ok(#[trigger] faces[i])
            &&& faces[face as int] matches Some(image)
            &&& image.channels == 3
            &&& !face_ok(faces[face as int])
        },
        Err(TextureError::UnsupportedChannels { .. }) => false,
    }
}

/// The face that the image at position `i` of a cubemap becomes.
pub fn cube_face(i: usize) -> (face: CubeFace)
    requires
        i < CUBE_FACES,
    ensures
        face == face_at(i as int),
{
    if i == 0 {
        CubeFace::PositiveX
    } else if i == 1 {
        CubeFace::NegativeX
    } else if i == 2 {
        CubeFace::PositiveY
    } else if i == 3 {
        CubeFace::NegativeY
    } else if i == 4 {
        CubeFace::PositiveZ
    } else {
        CubeFace::NegativeZ
    }
}

/// Plans the upload of six decoded images as the cubemap `texture`.
///
/// The images become the faces +X, -X, +Y, -Y, +Z, -Z in the order given;
/// `None` stands for an image that could not be read. Each must have three
/// channels. With another number of images than six nothing is uploaded;
/// otherwise the first image that cannot be a face is reported.
pub fn load_cubemap(faces: &[Option<ImageInfo>], texture: u32) -> (answer: Result<
    CubemapUpload,
    TextureError,
>)
    ensures
        cubemap_answer(faces@, texture, answer),
{
    if faces.len() != CUBE_FACES {
        return Err(TextureError::WrongFaceCount { count: faces.len() });
    }
    let mut uploads: Vec<FaceUpload> = Vec::new();
    let mut i: usize = 0;
    while i < CUBE_FACES
        invariant
            faces.len() == CUBE_FACES,
            i <= CUBE_FACES,
            uploads.len() == i,
            forall|k: int| 0 <= k < i ==> face_ok(#[trigger] faces[k]),
            forall|k: int| 0 <= k < i ==> #[trigger] uploads[k] == face_upload(faces[k], k),
        decreases CUBE_FACES - i,
    {
        let image = match faces[i] {
            Some(image) => image,
            None => {
                return Err(TextureError::UnreadableFace { face: i });
            },
        };
        if image.channels != 3 {
            return Err(TextureError::UnsupportedFace { face: i, channels: image.channels });
        }
        if image.width > 0x7fff_ffff || image.height > 0x7fff_ffff {
            return Err(TextureError::FaceTooLarge { face: i });
        }
        uploads.push(
            FaceUpload {
                face: cube_face(i),
                format: PixelFormat::Rgb,
                width: image.width as i32,
                height: image.height as i32,
            },
        );
        i += 1;
    }
    assert(uploads@ =~= Seq::new(faces@.len(), |i: int| face_upload(faces@[i], i)));
    Ok(
        CubemapUpload {
            texture,
            faces: uploads,
            wrap: WrapMode::ClampToEdge,
            min_filter: Filter::Linear,
            mag_filter: Filter::Linear,
        },
    )
}

/// A cubemap is planned exactly when it is given six images that can each
/// be a face, and then the images become the faces in the order given.
pub proof fn cubemap_needs_six_faces(
    faces: Seq<Option<ImageInfo>>,
    texture: u32,
    answer: Result<CubemapUpload, TextureError>,
)
    requires
        cubemap_answer(faces, texture, answer),
    ensures
        answer is Ok <==> faces.len() == CUBE_FACES && forall|i: int|
            0 <= i < faces.len() ==> face_ok(#[trigger] faces[i]),
        answer matches Ok(upload) ==> upload.faces.len() == CUBE_FACES && forall|i: int|
            0 <= i < CUBE_FACES ==> (#[trigger] upload.faces[i]).face == face_at(i)
                && upload.faces[i].width == faces[i]->0.width && upload.faces[i].height
                == faces[i]->0.height,
{
    match answer {
        Ok(upload) => {},
        Err(TextureError::UnsupportedFace { face, .. }) => {
            assert(!face_ok(faces[face as int]));
        },
        Err(TextureError::FaceTooLarge { face }) => {
            assert(!face_ok(faces[face as int]));
        },
        Err(TextureError::UnreadableFace { face }) => {
            assert(!face_ok(faces[face as int]));
        },
        Err(_) => {},
    }
}

} // verus!
