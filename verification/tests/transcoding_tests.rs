use basis_universal::BasisTextureFormat;
use basis_universal::BasisTextureType;
use basis_universal::Compressor;
use basis_universal::CompressorParams;
use basis_universal::TranscodeParameters;
use basis_universal::Transcoder;
use basis_universal::TranscoderTextureFormat;

/// A container built from a small synthetic image, in the requested
/// sub-format, with mipmaps.
fn build_container(format: BasisTextureFormat, width: u32, height: u32) -> Vec<u8> {
    let mut params = CompressorParams::new();
    params.set_basis_format(format);
    params.set_generate_mipmaps(true);
    let mut data: Vec<u8> = Vec::new();
    let mut i: u32 = 0;
    while i < width * height {
        data.push((i % 251) as u8);
        data.push((i % 13) as u8);
        data.push((i % 7) as u8);
        i += 1;
    }
    params.source_image_mut(0).init(&data, width, height, 3);
    let mut compressor = Compressor::default();
    compressor.init(&params);
    compressor.process().unwrap();
    compressor.basis_file().clone()
}

#[test]
fn test_get_bytes_per_block_or_pixel() {
    assert_eq!(
        TranscoderTextureFormat::BC1_RGB.bytes_per_block_or_pixel(),
        8
    );
}

#[test]
fn test_get_format_name() {
    assert_eq!(TranscoderTextureFormat::BC1_RGB.format_name(), "BC1_RGB");
}

#[test]
fn test_transcoder_format_has_alpha() {
    assert_eq!(TranscoderTextureFormat::BC1_RGB.has_alpha(), false);
    assert_eq!(TranscoderTextureFormat::BC7_RGBA.has_alpha(), true);
}

#[test]
fn test_get_texture_type_name() {
    assert_eq!(BasisTextureType::TextureType2D.texture_type_name(), "2D");
}

#[test]
fn test_new_transcoder() {
    let transcoder = Transcoder::new();
    std::mem::drop(transcoder);
}

#[test]
fn test_transcoder_get_total_images() {
    let basis_file = build_container(BasisTextureFormat::ETC1S, 64, 64);
    let transcoder = Transcoder::new();
    assert_eq!(transcoder.image_count(&basis_file), 1);
    std::mem::drop(transcoder);
}

#[test]
fn test_transcoder_info() {
    let basis_file = build_container(BasisTextureFormat::ETC1S, 64, 64);
    let transcoder = Transcoder::new();

    let file_info = transcoder.file_info(&basis_file).unwrap();

    // These should all return valid results
    assert!(transcoder.image_info(&basis_file, 0).is_some());
    assert!(transcoder
        .image_level_description(&basis_file, 0, 0)
        .is_some());
    assert!(transcoder.image_level_info(&basis_file, 0, 0).is_some());

    // These return invalid results because we are passing image index > image count
    assert!(transcoder
        .image_info(&basis_file, file_info.m_total_images + 1)
        .is_none());
    assert!(transcoder
        .image_level_description(&basis_file, file_info.m_total_images + 1, 0)
        .is_none());
    assert!(transcoder
        .image_level_info(&basis_file, file_info.m_total_images + 1, 0)
        .is_none());

    // These return invalid results because we are passing level index > level count
    assert!(transcoder
        .image_level_description(&basis_file, 0, 100)
        .is_none());
    assert!(transcoder.image_level_info(&basis_file, 0, 100).is_none());

    std::mem::drop(transcoder);
}

#[test]
fn test_transcoder_get_tex_format() {
    let basis_file = build_container(BasisTextureFormat::ETC1S, 32, 32);
    let transcoder = Transcoder::new();
    assert_eq!(
        transcoder.basis_texture_format(&basis_file),
        BasisTextureFormat::ETC1S
    );
    std::mem::drop(transcoder);

    let basis_file = build_container(BasisTextureFormat::UASTC4x4, 32, 32);
    let transcoder = Transcoder::new();
    assert_eq!(
        transcoder.basis_texture_format(&basis_file),
        BasisTextureFormat::UASTC4x4
    );
    std::mem::drop(transcoder);
}

#[test]
fn test_transcoder_get_total_image_levels() {
    let basis_file = build_container(BasisTextureFormat::ETC1S, 64, 64);
    let transcoder = Transcoder::new();
    assert_eq!(transcoder.image_level_count(&basis_file, 0), 7);
    std::mem::drop(transcoder);
}

#[test]
fn test_transcoder_transcode_etc() {
    let basis_file = build_container(BasisTextureFormat::ETC1S, 64, 64);
    do_test_transcoder_transcode(&basis_file, "test_transcode_image_etc");
}

#[test]
fn test_transcoder_transcode_uastc() {
    let basis_file = build_container(BasisTextureFormat::UASTC4x4, 64, 64);
    do_test_transcoder_transcode(&basis_file, "test_transcode_image_uastc");
}

// Transcode to a variety of formats
fn do_test_transcoder_transcode(basis_file: &[u8], _name: &str) {
    let mut transcoder = Transcoder::new();
    transcoder.prepare_transcoding(basis_file).unwrap();

    transcoder
        .transcode_image_level(
            basis_file,
            TranscoderTextureFormat::ETC1_RGB,
            TranscodeParameters {
                image_index: 0,
                level_index: 0,
                ..Default::default()
            },
        )
        .unwrap();

    transcoder
        .transcode_image_level(
            basis_file,
            TranscoderTextureFormat::ASTC_4x4_RGBA,
            TranscodeParameters {
                image_index: 0,
                level_index: 0,
                ..Default::default()
            },
        )
        .unwrap();

    if transcoder.basis_texture_format(basis_file) == BasisTextureFormat::ETC1S {
        transcoder
            .transcode_image_level(
                basis_file,
                TranscoderTextureFormat::FXT1_RGB,
                TranscodeParameters {
                    image_index: 0,
                    level_index: 0,
                    ..Default::default()
                },
            )
            .unwrap();
    }

    let _result = transcoder
        .transcode_image_level(
            basis_file,
            TranscoderTextureFormat::RGBA32,
            TranscodeParameters {
                image_index: 0,
                level_index: 0,
                ..Default::default()
            },
        )
        .unwrap();
    transcoder.end_transcoding();

    std::mem::drop(transcoder);
}
