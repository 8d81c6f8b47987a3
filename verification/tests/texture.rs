use game_engine::texture::{cube_face, pixel_format, CUBE_FACES};
use game_engine::{
    load_cubemap, load_texture, CubeFace, FaceUpload, Filter, ImageInfo, PixelFormat, Texture,
    TextureError, TextureType, TextureUpload, WrapMode,
};

fn rgb(width: u32, height: u32) -> ImageInfo {
    ImageInfo { width, height, channels: 3 }
}

fn face(width: u32, height: u32) -> Option<ImageInfo> {
    Some(rgb(width, height))
}

fn with_channels(channels: u8) -> Option<ImageInfo> {
    Some(ImageInfo { width: 8, height: 8, channels })
}

#[test]
fn texture_new_keeps_handle_and_kind() {
    let texture = Texture::new(42, TextureType::Specular);
    assert_eq!(texture.id, 42);
    assert_eq!(texture.type_, TextureType::Specular);
    assert_eq!(Texture::new(0, TextureType::Diffuse), Texture { id: 0, type_: TextureType::Diffuse });
}

#[test]
fn three_channels_are_rgb_and_four_rgba() {
    assert_eq!(pixel_format(3), Some(PixelFormat::Rgb));
    assert_eq!(pixel_format(4), Some(PixelFormat::Rgba));
    for channels in [0u8, 1, 2, 5, 8, 255] {
        assert_eq!(pixel_format(channels), None);
    }
}

#[test]
fn rgb_texture_repeats() {
    let upload = load_texture(&rgb(640, 480), 3);
    assert_eq!(
        upload,
        Ok(TextureUpload {
            texture: 3,
            format: PixelFormat::Rgb,
            width: 640,
            height: 480,
            mipmaps: true,
            wrap_s: WrapMode::Repeat,
            wrap_t: WrapMode::Repeat,
            min_filter: Filter::LinearMipmapLinear,
            mag_filter: Filter::Linear,
        })
    );
}

#[test]
fn rgba_texture_is_clamped() {
    let upload = load_texture(&ImageInfo { width: 16, height: 32, channels: 4 }, 9);
    assert_eq!(
        upload,
        Ok(TextureUpload {
            texture: 9,
            format: PixelFormat::Rgba,
            width: 16,
            height: 32,
            mipmaps: true,
            wrap_s: WrapMode::ClampToEdge,
            wrap_t: WrapMode::ClampToEdge,
            min_filter: Filter::LinearMipmapLinear,
            mag_filter: Filter::Linear,
        })
    );
}

#[test]
fn other_channel_counts_are_not_uploaded() {
    for channels in [0u8, 1, 2, 5] {
        let upload = load_texture(&ImageInfo { width: 1, height: 1, channels }, 1);
        assert_eq!(upload, Err(TextureError::UnsupportedChannels { channels }));
    }
}

#[test]
fn texture_size_is_handed_on_as_signed() {
    let upload = load_texture(&rgb(0x8000_0000, u32::MAX), 1).unwrap();
    assert_eq!(upload.width, i32::MIN);
    assert_eq!(upload.height, -1);
    let upload = load_texture(&rgb(0x7fff_ffff, 0), 1).unwrap();
    assert_eq!(upload.width, i32::MAX);
    assert_eq!(upload.height, 0);
}

#[test]
fn cube_faces_in_order() {
    assert_eq!(CUBE_FACES, 6);
    let faces: Vec<CubeFace> = (0..6).map(cube_face).collect();
    assert_eq!(
        faces,
        vec![
            CubeFace::PositiveX,
            CubeFace::NegativeX,
            CubeFace::PositiveY,
            CubeFace::NegativeY,
            CubeFace::PositiveZ,
            CubeFace::NegativeZ,
        ]
    );
}

#[test]
fn cubemap_of_six_rgb_images() {
    let images: Vec<Option<ImageInfo>> = (0..6).map(|i| face(100 + i, 200 + i)).collect();
    let upload = load_cubemap(&images, 17).unwrap();
    assert_eq!(upload.texture, 17);
    assert_eq!(upload.wrap, WrapMode::ClampToEdge);
    assert_eq!(upload.min_filter, Filter::Linear);
    assert_eq!(upload.mag_filter, Filter::Linear);
    assert_eq!(
        upload.faces,
        vec![
            FaceUpload { face: CubeFace::PositiveX, format: PixelFormat::Rgb, width: 100, height: 200 },
            FaceUpload { face: CubeFace::NegativeX, format: PixelFormat::Rgb, width: 101, height: 201 },
            FaceUpload { face: CubeFace::PositiveY, format: PixelFormat::Rgb, width: 102, height: 202 },
            FaceUpload { face: CubeFace::NegativeY, format: PixelFormat::Rgb, width: 103, height: 203 },
            FaceUpload { face: CubeFace::PositiveZ, format: PixelFormat::Rgb, width: 104, height: 204 },
            FaceUpload { face: CubeFace::NegativeZ, format: PixelFormat::Rgb, width: 105, height: 205 },
        ]
    );
}

#[test]
fn cubemap_of_five_or_seven_images_fails() {
    for count in [0usize, 1, 5, 7, 12] {
        let images = vec![face(8, 8); count];
        let answer = load_cubemap(&images, 1);
        assert_eq!(answer.err(), Some(TextureError::WrongFaceCount { count }));
    }
}

#[test]
fn cubemap_with_a_face_that_is_not_rgb_fails() {
    let mut images = vec![face(8, 8); 6];
    images[4] = with_channels(4);
    assert_eq!(
        load_cubemap(&images, 1).err(),
        Some(TextureError::UnsupportedFace { face: 4, channels: 4 })
    );
    images[1] = with_channels(1);
    assert_eq!(
        load_cubemap(&images, 1).err(),
        Some(TextureError::UnsupportedFace { face: 1, channels: 1 })
    );
}

#[test]
fn cubemap_with_a_face_too_large_fails() {
    let mut images = vec![face(8, 8); 6];
    images[5] = face(8, 0x8000_0000);
    assert_eq!(load_cubemap(&images, 1).err(), Some(TextureError::FaceTooLarge { face: 5 }));
    images[2] = face(u32::MAX, 8);
    assert_eq!(load_cubemap(&images, 1).err(), Some(TextureError::FaceTooLarge { face: 2 }));
    images[2] = Some(ImageInfo { width: u32::MAX, height: 8, channels: 2 });
    assert_eq!(
        load_cubemap(&images, 1).err(),
        Some(TextureError::UnsupportedFace { face: 2, channels: 2 })
    );
}

#[test]
fn cubemap_face_of_the_largest_size() {
    let mut images = vec![face(8, 8); 6];
    images[0] = face(0x7fff_ffff, 0x7fff_ffff);
    let upload = load_cubemap(&images, 1).unwrap();
    assert_eq!(upload.faces[0].width, i32::MAX);
    assert_eq!(upload.faces[0].height, i32::MAX);
}

#[test]
fn wrong_count_comes_before_wrong_faces() {
    let images = vec![with_channels(4); 5];
    assert_eq!(load_cubemap(&images, 1).err(), Some(TextureError::WrongFaceCount { count: 5 }));
}

#[test]
fn cubemap_with_a_face_that_cannot_be_read_fails() {
    let mut images = vec![face(8, 8); 6];
    images[3] = None;
    assert_eq!(load_cubemap(&images, 1).err(), Some(TextureError::UnreadableFace { face: 3 }));
    images[5] = with_channels(4);
    assert_eq!(load_cubemap(&images, 1).err(), Some(TextureError::UnreadableFace { face: 3 }));
    images[0] = with_channels(4);
    assert_eq!(
        load_cubemap(&images, 1).err(),
        Some(TextureError::UnsupportedFace { face: 0, channels: 4 })
    );
    assert_eq!(
        load_cubemap(&vec![None; 7], 1).err(),
        Some(TextureError::WrongFaceCount { count: 7 })
    );
}
