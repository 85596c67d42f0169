use basis_universal::BasisTextureFormat;
use basis_universal::Compressor;
use basis_universal::CompressorParams;
use basis_universal::DecodeFlags;
use basis_universal::LowLevelUastcTranscoder;
use basis_universal::SliceParametersUastc;
use basis_universal::TranscodeError;
use basis_universal::TranscodeParameters;
use basis_universal::Transcoder;
use basis_universal::TranscoderBlockFormat;
use basis_universal::TranscoderTextureFormat;
use basis_universal::UserData;
use basis_universal::formats::DECODE_FLAGS_TRANSCODE_ALPHA_DATA_TO_OPAQUE_FORMATS;

/// A container for one synthetic image with the given channel count.
fn build(
    format: BasisTextureFormat,
    width: u32,
    height: u32,
    channel_count: u8,
    mipmaps: bool,
) -> Vec<u8> {
    let mut params = CompressorParams::new();
    params.set_basis_format(format);
    params.set_generate_mipmaps(mipmaps);
    params.set_userdata(UserData {
        userdata0: 0xdead_0001,
        userdata1: 0xbeef_0002,
    });
    let mut data: Vec<u8> = Vec::new();
    let mut i: u32 = 0;
    while i < width * height * (channel_count as u32) {
        data.push(((i * 7 + 5) % 256) as u8);
        i += 1;
    }
    params.source_image_mut(0).init(&data, width, height, channel_count);
    let mut compressor = Compressor::default();
    compressor.init(&params);
    compressor.process().unwrap();
    compressor.basis_file().clone()
}

// Buffer-size determinism: a compressed non-FXT1 format takes the
// stored block count, whatever the overrides say.
#[test]
fn test_min_buffer_size_deterministic_for_compressed() {
    let fmt = TranscoderTextureFormat::BC1_RGB;
    let a = fmt.calculate_minimum_output_buffer_blocks_or_pixels(10, 7, 12, None, None);
    let b = fmt.calculate_minimum_output_buffer_blocks_or_pixels(10, 7, 12, Some(99), Some(55));
    assert_eq!(a, 12);
    assert_eq!(b, 12);
    assert_eq!(
        fmt.calculate_minimum_output_buffer_bytes(10, 7, 12, Some(99), Some(55)),
        96
    );
}

// The FXT1 exception: the size comes from the dimensions and the 8x4
// block, not from the stored block count.
#[test]
fn test_min_buffer_size_fxt1_edge_case() {
    let fmt = TranscoderTextureFormat::FXT1_RGB;
    let units = fmt.calculate_minimum_output_buffer_blocks_or_pixels(10, 7, 12, None, None);
    assert_eq!(units, 4); // two 8-wide columns, two 4-tall rows
    assert_eq!(fmt.calculate_minimum_output_buffer_bytes(10, 7, 12, None, None), 32);
}

#[test]
fn test_min_buffer_size_uncompressed_uses_overrides() {
    let fmt = TranscoderTextureFormat::RGBA32;
    assert_eq!(
        fmt.calculate_minimum_output_buffer_blocks_or_pixels(10, 7, 12, None, None),
        70
    );
    assert_eq!(
        fmt.calculate_minimum_output_buffer_blocks_or_pixels(10, 7, 12, Some(16), Some(8)),
        128
    );
    assert!(fmt.validate_output_buffer_size(70, 10, 7, 12, None, None));
    assert!(!fmt.validate_output_buffer_size(69, 10, 7, 12, None, None));
}

// The support matrix: both sub-formats reach every format enabled in
// this build, and the two directions of the check agree.
#[test]
fn test_format_support_matrix() {
    let reachable = [
        TranscoderTextureFormat::ETC1_RGB,
        TranscoderTextureFormat::BC1_RGB,
        TranscoderTextureFormat::BC7_RGBA,
        TranscoderTextureFormat::ASTC_4x4_RGBA,
        TranscoderTextureFormat::RGBA32,
    ];
    for fmt in reachable {
        assert!(BasisTextureFormat::ETC1S.can_transcode_to_format(fmt));
        assert!(BasisTextureFormat::UASTC4x4.can_transcode_to_format(fmt));
        assert!(fmt.can_transcode_from_format(BasisTextureFormat::ETC1S));
    }
    let excluded = [
        TranscoderTextureFormat::PVRTC1_4_RGB,
        TranscoderTextureFormat::PVRTC2_4_RGBA,
        TranscoderTextureFormat::ATC_RGB,
        TranscoderTextureFormat::ETC2_EAC_R11,
    ];
    for fmt in excluded {
        assert!(!BasisTextureFormat::ETC1S.can_transcode_to_format(fmt));
        assert!(!BasisTextureFormat::UASTC4x4.can_transcode_to_format(fmt));
        assert!(!fmt.can_transcode_from_format(BasisTextureFormat::UASTC4x4));
    }
}

// The state machine: transcoding before preparing fails predictably,
// and preparing twice is safe.
#[test]
fn test_transcode_before_prepare_fails() {
    let basis_file = build(BasisTextureFormat::ETC1S, 16, 16, 3, false);
    let mut transcoder = Transcoder::new();
    assert!(!transcoder.is_prepared_to_transcode());
    let r = transcoder.transcode_image_level(
        &basis_file,
        TranscoderTextureFormat::RGBA32,
        TranscodeParameters {
            image_index: 0,
            level_index: 0,
            ..Default::default()
        },
    );
    assert_eq!(r, Err(TranscodeError::TranscodeFailed));

    transcoder.prepare_transcoding(&basis_file).unwrap();
    transcoder.prepare_transcoding(&basis_file).unwrap();
    assert!(transcoder.is_prepared_to_transcode());
    transcoder.end_transcoding();
    assert!(!transcoder.is_prepared_to_transcode());
    transcoder.end_transcoding();
}

// The round trip for a source without alpha: RGBA32 output has
// exactly width * height * 4 bytes and fully opaque alpha.
#[test]
fn test_round_trip_rgba32_opaque_etc1s() {
    let basis_file = build(BasisTextureFormat::ETC1S, 10, 7, 3, false);
    let mut transcoder = Transcoder::new();
    transcoder.prepare_transcoding(&basis_file).unwrap();
    let out = transcoder
        .transcode_image_level(
            &basis_file,
            TranscoderTextureFormat::RGBA32,
            TranscodeParameters {
                image_index: 0,
                level_index: 0,
                ..Default::default()
            },
        )
        .unwrap();
    assert_eq!(out.len(), 10 * 7 * 4);
    let mut i = 3;
    while i < out.len() {
        assert_eq!(out[i], 255);
        i += 4;
    }
}

#[test]
fn test_round_trip_rgba32_opaque_uastc() {
    let basis_file = build(BasisTextureFormat::UASTC4x4, 9, 5, 1, false);
    let mut transcoder = Transcoder::new();
    transcoder.prepare_transcoding(&basis_file).unwrap();
    let out = transcoder
        .transcode_image_level(
            &basis_file,
            TranscoderTextureFormat::RGBA32,
            TranscodeParameters {
                image_index: 0,
                level_index: 0,
                ..Default::default()
            },
        )
        .unwrap();
    assert_eq!(out.len(), 9 * 5 * 4);
    let mut i = 3;
    while i < out.len() {
        assert_eq!(out[i], 255);
        i += 4;
    }
}

// The encode scenario: a 256x256 four-channel UASTC image with
// mipmaps gives nine levels at roughly eight bits per texel.
#[test]
fn test_encode_uastc_256_mipmapped() {
    let basis_file = build(BasisTextureFormat::UASTC4x4, 256, 256, 4, true);
    assert!(basis_file.len() > 0);
    let transcoder = Transcoder::new();
    assert_eq!(transcoder.image_level_count(&basis_file, 0), 9);

    // the payload holds 16 bytes per 4x4 block: eight bits per texel
    let blocks: u64 = 4096 + 1024 + 256 + 64 + 16 + 4 + 1 + 1 + 1;
    let payload_bytes = blocks * 16;
    assert!(basis_file.len() as u64 >= payload_bytes);
    assert!((basis_file.len() as u64) < payload_bytes + 2048);
}

// The transcode scenario on the same container.
#[test]
fn test_transcode_uastc_256_to_astc_and_rgba32() {
    let basis_file = build(BasisTextureFormat::UASTC4x4, 256, 256, 4, true);
    let mut transcoder = Transcoder::new();
    transcoder.prepare_transcoding(&basis_file).unwrap();
    let astc = transcoder
        .transcode_image_level(
            &basis_file,
            TranscoderTextureFormat::ASTC_4x4_RGBA,
            TranscodeParameters {
                image_index: 0,
                level_index: 0,
                ..Default::default()
            },
        )
        .unwrap();
    assert_eq!(astc.len(), 65536); // 4096 blocks of 16 bytes
    let rgba = transcoder
        .transcode_image_level(
            &basis_file,
            TranscoderTextureFormat::RGBA32,
            TranscodeParameters {
                image_index: 0,
                level_index: 0,
                ..Default::default()
            },
        )
        .unwrap();
    assert_eq!(rgba.len(), 256 * 256 * 4);
}

// Out-of-range indices report "not found" instead of failing hard.
#[test]
fn test_out_of_range_indices_not_found() {
    let basis_file = build(BasisTextureFormat::ETC1S, 16, 16, 3, false);
    let mut transcoder = Transcoder::new();
    transcoder.prepare_transcoding(&basis_file).unwrap();
    let r = transcoder.transcode_image_level(
        &basis_file,
        TranscoderTextureFormat::RGBA32,
        TranscodeParameters {
            image_index: 5,
            level_index: 0,
            ..Default::default()
        },
    );
    assert_eq!(r, Err(TranscodeError::ImageLevelNotFound));
    let r = transcoder.transcode_image_level(
        &basis_file,
        TranscoderTextureFormat::RGBA32,
        TranscodeParameters {
            image_index: 0,
            level_index: 100,
            ..Default::default()
        },
    );
    assert_eq!(r, Err(TranscodeError::ImageLevelNotFound));
    assert!(transcoder.image_level_description(&basis_file, 5, 0).is_none());
}

#[test]
fn test_unsupported_format_rejected_before_parsing() {
    let transcoder = Transcoder::new();
    // even unreadable data is rejected on the static support check
    let r = transcoder.transcode_image_level(
        &[1, 2, 3],
        TranscoderTextureFormat::PVRTC1_4_RGB,
        TranscodeParameters {
            image_index: 0,
            level_index: 0,
            ..Default::default()
        },
    );
    assert_eq!(r, Err(TranscodeError::TranscodeFormatNotSupported));
}

#[test]
fn test_user_data_round_trip() {
    let basis_file = build(BasisTextureFormat::ETC1S, 8, 8, 3, false);
    let transcoder = Transcoder::new();
    let ud = transcoder.user_data(&basis_file).unwrap();
    assert_eq!(ud.userdata0, 0xdead_0001);
    assert_eq!(ud.userdata1, 0xbeef_0002);
}

#[test]
fn test_validate_checksums_and_corruption() {
    let mut basis_file = build(BasisTextureFormat::ETC1S, 12, 12, 3, false);
    let transcoder = Transcoder::new();
    assert!(transcoder.validate_header(&basis_file));
    assert!(transcoder.validate_file_checksums(&basis_file, false));
    assert!(transcoder.validate_file_checksums(&basis_file, true));

    // flip one payload byte: the full checksum must catch it
    let n = basis_file.len();
    basis_file[n - 5] ^= 0xff;
    assert!(!transcoder.validate_file_checksums(&basis_file, true));
}

#[test]
fn test_alpha_slices_present_only_for_alpha_sources() {
    let with_alpha = build(BasisTextureFormat::ETC1S, 16, 16, 4, false);
    let without_alpha = build(BasisTextureFormat::ETC1S, 16, 16, 3, false);
    let transcoder = Transcoder::new();
    let info_a = transcoder.image_info(&with_alpha, 0).unwrap();
    let info_b = transcoder.image_info(&without_alpha, 0).unwrap();
    assert!(info_a.m_alpha_flag);
    assert!(!info_b.m_alpha_flag);
    let fi = transcoder.file_info(&with_alpha).unwrap();
    assert!(fi.m_has_alpha_slices);
    assert!(fi.m_etc1s);
    assert_eq!(fi.m_total_images, 1);
    assert_eq!(fi.m_image_mipmap_levels.len(), 1);
    assert_eq!(fi.m_image_mipmap_levels[0], 1);
}

// The alpha-redirect decode flag substitutes the alpha slice as the
// color source of an opaque target.
#[test]
fn test_alpha_redirect_flag_changes_opaque_output() {
    let mut params = CompressorParams::new();
    params.set_basis_format(BasisTextureFormat::ETC1S);
    // color channels differ strongly from the alpha channel
    let mut data: Vec<u8> = Vec::new();
    let mut i: u32 = 0;
    while i < 8 * 8 {
        data.push(200);
        data.push(10);
        data.push(10);
        data.push((i % 97) as u8);
        i += 1;
    }
    params.source_image_mut(0).init(&data, 8, 8, 4);
    let mut compressor = Compressor::default();
    compressor.init(&params);
    compressor.process().unwrap();
    let basis_file = compressor.basis_file().clone();

    let mut transcoder = Transcoder::new();
    transcoder.prepare_transcoding(&basis_file).unwrap();
    let plain = transcoder
        .transcode_image_level(
            &basis_file,
            TranscoderTextureFormat::ETC1_RGB,
            TranscodeParameters {
                image_index: 0,
                level_index: 0,
                ..Default::default()
            },
        )
        .unwrap();
    let redirected = transcoder
        .transcode_image_level(
            &basis_file,
            TranscoderTextureFormat::ETC1_RGB,
            TranscodeParameters {
                image_index: 0,
                level_index: 0,
                decode_flags: Some(DecodeFlags::from_bits(
                    DECODE_FLAGS_TRANSCODE_ALPHA_DATA_TO_OPAQUE_FORMATS,
                )),
                ..Default::default()
            },
        )
        .unwrap();
    assert_eq!(plain.len(), redirected.len());
    assert_ne!(plain, redirected);
}

#[test]
fn test_mip_dimensions_halve() {
    let basis_file = build(BasisTextureFormat::ETC1S, 10, 7, 3, true);
    let transcoder = Transcoder::new();
    assert_eq!(transcoder.image_level_count(&basis_file, 0), 4);
    let dims = [(10u32, 7u32), (5, 3), (2, 1), (1, 1)];
    for (level, (w, h)) in dims.iter().enumerate() {
        let d = transcoder
            .image_level_description(&basis_file, 0, level as u32)
            .unwrap();
        assert_eq!(d.original_width, *w);
        assert_eq!(d.original_height, *h);
    }
}

#[test]
fn test_low_level_uastc_transcoder() {
    let transcoder = LowLevelUastcTranscoder::new();
    // an 8x8 slice: four 4x4 blocks of sixteen bytes each
    let data = vec![0u8; 64];
    let params = SliceParametersUastc {
        num_blocks_x: 2,
        num_blocks_y: 2,
        has_alpha: false,
        original_width: 8,
        original_height: 8,
    };
    let out = transcoder
        .transcode_slice(
            &data,
            params,
            DecodeFlags::empty(),
            TranscoderBlockFormat::ASTC_4x4,
        )
        .unwrap();
    assert_eq!(out.len(), 64);
    let out = transcoder
        .transcode_slice(
            &data,
            params,
            DecodeFlags::empty(),
            TranscoderBlockFormat::ETC1,
        )
        .unwrap();
    assert_eq!(out.len(), 32);

    // truncated data is rejected
    let r = transcoder.transcode_slice(
        &data[..60],
        params,
        DecodeFlags::empty(),
        TranscoderBlockFormat::ETC1,
    );
    assert_eq!(r, Err(TranscodeError::TranscodeFailed));

    // the slice path emits block-compressed data only
    let r = transcoder.transcode_slice(
        &data,
        params,
        DecodeFlags::empty(),
        TranscoderBlockFormat::RGBA32,
    );
    assert_eq!(r, Err(TranscodeError::TranscodeFailed));

    // the two-byte index stream has no writer in this build
    let r = transcoder.transcode_slice(
        &data,
        params,
        DecodeFlags::empty(),
        TranscoderBlockFormat::Indices,
    );
    assert_eq!(r, Err(TranscodeError::TranscodeFailed));
}

#[test]
fn test_block_format_tables() {
    assert_eq!(TranscoderBlockFormat::ETC1.bytes_per_block_or_pixel(), 8);
    assert_eq!(TranscoderBlockFormat::ASTC_4x4.bytes_per_block_or_pixel(), 16);
    assert_eq!(TranscoderBlockFormat::RGBA32.bytes_per_block_or_pixel(), 4);
    assert!(TranscoderBlockFormat::BC7.is_compressed());
    assert!(TranscoderBlockFormat::Indices.is_compressed());
    assert_eq!(
        TranscoderBlockFormat::Indices
            .calculate_minimum_output_buffer_blocks_or_pixels(10, 7, 12, None, None),
        12
    );
    assert_eq!(TranscoderBlockFormat::BC1.format_name(), "BC1");
    assert_eq!(TranscoderBlockFormat::ASTC_4x4.format_name(), "ASTC_4x4");
    assert!(!TranscoderBlockFormat::RGB565.is_compressed());
    assert_eq!(TranscoderBlockFormat::FXT1_RGB.block_width(), 8);
    assert_eq!(TranscoderBlockFormat::BC1.block_width(), 4);
    assert_eq!(TranscoderBlockFormat::BC1.block_height(), 4);
    assert_eq!(
        TranscoderBlockFormat::FXT1_RGB
            .calculate_minimum_output_buffer_blocks_or_pixels(10, 7, 12, None, None),
        4
    );
    assert_eq!(
        TranscoderBlockFormat::BC1.calculate_minimum_output_buffer_bytes(10, 7, 12, None, None),
        96
    );
}

#[test]
fn test_packed16_outputs() {
    let basis_file = build(BasisTextureFormat::ETC1S, 6, 5, 3, false);
    let mut transcoder = Transcoder::new();
    transcoder.prepare_transcoding(&basis_file).unwrap();
    for fmt in [
        TranscoderTextureFormat::RGB565,
        TranscoderTextureFormat::BGR565,
        TranscoderTextureFormat::RGBA4444,
    ] {
        let out = transcoder
            .transcode_image_level(
                &basis_file,
                fmt,
                TranscodeParameters {
                    image_index: 0,
                    level_index: 0,
                    ..Default::default()
                },
            )
            .unwrap();
        assert_eq!(out.len(), 6 * 5 * 2);
    }
}

// Several images in one container: lookups stay per image.
#[test]
fn test_multiple_images() {
    let mut params = CompressorParams::new();
    params.set_basis_format(BasisTextureFormat::ETC1S);
    let data_a = vec![10u8; 8 * 8 * 3];
    let data_b = vec![200u8; 12 * 4 * 3];
    params.source_image_mut(0).init(&data_a, 8, 8, 3);
    params.source_image_mut(1).init(&data_b, 12, 4, 3);
    let mut compressor = Compressor::default();
    compressor.init(&params);
    compressor.process().unwrap();
    let basis_file = compressor.basis_file().clone();

    let mut transcoder = Transcoder::new();
    assert_eq!(transcoder.image_count(&basis_file), 2);
    let d0 = transcoder.image_level_description(&basis_file, 0, 0).unwrap();
    let d1 = transcoder.image_level_description(&basis_file, 1, 0).unwrap();
    assert_eq!((d0.original_width, d0.original_height), (8, 8));
    assert_eq!((d1.original_width, d1.original_height), (12, 4));
    assert_eq!(d1.block_count, 3);

    transcoder.prepare_transcoding(&basis_file).unwrap();
    let out = transcoder
        .transcode_image_level(
            &basis_file,
            TranscoderTextureFormat::RGBA32,
            TranscodeParameters {
                image_index: 1,
                level_index: 0,
                ..Default::default()
            },
        )
        .unwrap();
    assert_eq!(out.len(), 12 * 4 * 4);
}

// The ETC1S quality dial: a coarser quality level cannot enlarge the
// shared codebook, so the file does not grow.
#[test]
fn test_etc1s_quality_dial() {
    let mut sizes = Vec::new();
    for quality in [1u32, 255u32] {
        let mut params = CompressorParams::new();
        params.set_basis_format(BasisTextureFormat::ETC1S);
        params.set_etc1s_quality_level(quality);
        let mut data: Vec<u8> = Vec::new();
        let mut i: u32 = 0;
        while i < 32 * 32 * 3 {
            data.push(((i * 31 + 7) % 256) as u8);
            i += 1;
        }
        params.source_image_mut(0).init(&data, 32, 32, 3);
        let mut compressor = Compressor::default();
        compressor.init(&params);
        compressor.process().unwrap();
        sizes.push(compressor.basis_file_size());
    }
    assert!(sizes[0] <= sizes[1]);
}

/// A container holding one constant-color 4x4 UASTC image.
fn build_constant_uastc() -> Vec<u8> {
    let mut params = CompressorParams::new();
    params.set_basis_format(BasisTextureFormat::UASTC4x4);
    let mut data: Vec<u8> = Vec::new();
    for _ in 0..16 {
        data.push(200);
        data.push(10);
        data.push(10);
    }
    params.source_image_mut(0).init(&data, 4, 4, 3);
    let mut compressor = Compressor::default();
    compressor.init(&params);
    compressor.process().unwrap();
    compressor.basis_file().clone()
}

// The published BC1 layout: two little-endian RGB565 endpoint words
// followed by four bytes of 2-bit indices. A constant-color block has
// equal endpoints and all indices zero.
#[test]
fn test_bc1_block_layout_constant_color() {
    let basis_file = build_constant_uastc();
    let mut transcoder = Transcoder::new();
    transcoder.prepare_transcoding(&basis_file).unwrap();
    let out = transcoder
        .transcode_image_level(
            &basis_file,
            TranscoderTextureFormat::BC1_RGB,
            TranscodeParameters {
                image_index: 0,
                level_index: 0,
                ..Default::default()
            },
        )
        .unwrap();
    // RGB565 of (200, 10, 10) is 0xC841
    assert_eq!(out, vec![0x41, 0xC8, 0x41, 0xC8, 0, 0, 0, 0]);
}

// The published ASTC layout: a constant-color block is a valid LDR
// void-extent block with all-ones extent coordinates and the color as
// four UNORM16 channels.
#[test]
fn test_astc_block_layout_constant_color() {
    let basis_file = build_constant_uastc();
    let mut transcoder = Transcoder::new();
    transcoder.prepare_transcoding(&basis_file).unwrap();
    let out = transcoder
        .transcode_image_level(
            &basis_file,
            TranscoderTextureFormat::ASTC_4x4_RGBA,
            TranscodeParameters {
                image_index: 0,
                level_index: 0,
                ..Default::default()
            },
        )
        .unwrap();
    assert_eq!(
        out,
        vec![
            0xFC, 0xFD, 0xFF, 0xFF, 0xFF, 0xFF, 0xFF, 0xFF, // void-extent header
            0xC8, 0xC8, 0x0A, 0x0A, 0x0A, 0x0A, 0xFF, 0xFF, // UNORM16 RGBA
        ]
    );
}

// Different targets write their own layouts: the outputs of the
// compressed targets differ pairwise on a non-trivial image.
#[test]
fn test_compressed_targets_differ() {
    let basis_file = build(BasisTextureFormat::ETC1S, 16, 16, 3, false);
    let mut transcoder = Transcoder::new();
    transcoder.prepare_transcoding(&basis_file).unwrap();
    let mut outs: Vec<Vec<u8>> = Vec::new();
    for fmt in [
        TranscoderTextureFormat::ETC1_RGB,
        TranscoderTextureFormat::BC1_RGB,
        TranscoderTextureFormat::BC4_R,
        TranscoderTextureFormat::FXT1_RGB,
    ] {
        outs.push(
            transcoder
                .transcode_image_level(
                    &basis_file,
                    fmt,
                    TranscodeParameters {
                        image_index: 0,
                        level_index: 0,
                        ..Default::default()
                    },
                )
                .unwrap(),
        );
    }
    assert_ne!(outs[0], outs[1]);
    assert_ne!(outs[0], outs[2]);
    assert_ne!(outs[1], outs[2]);
    let sixteen_byte = [
        TranscoderTextureFormat::ETC2_RGBA,
        TranscoderTextureFormat::BC3_RGBA,
        TranscoderTextureFormat::BC5_RG,
        TranscoderTextureFormat::BC7_RGBA,
        TranscoderTextureFormat::ASTC_4x4_RGBA,
    ];
    let mut outs16: Vec<Vec<u8>> = Vec::new();
    for fmt in sixteen_byte {
        outs16.push(
            transcoder
                .transcode_image_level(
                    &basis_file,
                    fmt,
                    TranscodeParameters {
                        image_index: 0,
                        level_index: 0,
                        ..Default::default()
                    },
                )
                .unwrap(),
        );
    }
    for a in 0..outs16.len() {
        for b in (a + 1)..outs16.len() {
            assert_ne!(outs16[a], outs16[b]);
        }
    }
}

// A container parses only if each image's level indices count up from
// zero: a directory that skips levels is rejected whole.
#[test]
fn test_non_contiguous_levels_rejected() {
    let mut basis_file = build(BasisTextureFormat::ETC1S, 8, 8, 3, false);
    let transcoder = Transcoder::new();
    assert!(transcoder.validate_header(&basis_file));
    // the slice directory's level_index word sits after the header,
    // the codebooks, and the first slice word; bump it to 7
    let words_before_slices = {
        // header and checksum
        let mut off = 13usize;
        // endpoint and selector tables
        let ne = u32::from_le_bytes([basis_file[40], basis_file[41], basis_file[42], basis_file[43]]);
        let ns = u32::from_le_bytes([basis_file[44], basis_file[45], basis_file[46], basis_file[47]]);
        off += 2 * ne as usize + ns as usize;
        off
    };
    let level_word = 4 * (words_before_slices + 1);
    assert_eq!(basis_file[level_word], 0);
    basis_file[level_word] = 7;
    assert!(!transcoder.validate_header(&basis_file));
    assert_eq!(transcoder.image_count(&basis_file), 0);
}
