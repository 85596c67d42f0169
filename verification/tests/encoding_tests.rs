use basis_universal::BasisTextureFormat;
use basis_universal::Compressor;
use basis_universal::CompressorErrorCode;
use basis_universal::CompressorParams;
use basis_universal::ETC1S_QUALITY_DEFAULT;
use basis_universal::UASTC_QUALITY_DEFAULT;

#[test]
fn test_new_compressor_params() {
    let compressor_params = CompressorParams::new();
    std::mem::drop(compressor_params);
}

#[test]
fn test_new_compressor() {
    let compressor = Compressor::default();
    std::mem::drop(compressor);
}

#[test]
fn test_compressor_init() {
    let compressor_params = CompressorParams::new();
    let mut compressor = Compressor::default();
    compressor.init(&compressor_params);
    std::mem::drop(compressor);
    std::mem::drop(compressor_params);
}

#[test]
fn test_compressor_params_smoketest_bindings() {
    let mut compressor_params = CompressorParams::new();

    // Call every parameter just to smoketest the bindings
    compressor_params.source_image_mut(5);
    compressor_params.resize_source_image_list(8);
    compressor_params.clear_source_image_list();
    compressor_params.set_print_status_to_stdout(false);
    compressor_params.set_etc1s_quality_level(ETC1S_QUALITY_DEFAULT);
    compressor_params.set_uastc_quality_level(UASTC_QUALITY_DEFAULT);
    compressor_params.set_basis_format(BasisTextureFormat::UASTC4x4);
    compressor_params.set_generate_mipmaps(true);

    compressor_params.reset();
}

#[test]
fn test_image_smoketest_bindings() {
    let mut compressor_params = CompressorParams::new();

    let image = compressor_params.source_image_mut(0);
    let color = image.pixel_at(50, 50);
    assert!(color.is_none());
    image.resize(100, 100);
    let color = image.pixel_at(50, 50);
    assert!(color.is_some());
    image.invalidate();
}

#[test]
fn test_encode_image() {
    // Synthesize a four-channel gradient in place of a decoded file
    let width: u32 = 64;
    let height: u32 = 64;
    let channel_count: u8 = 4;
    let mut image_data: Vec<u8> = Vec::new();
    let mut i: u32 = 0;
    while i < width * height {
        image_data.push((i % 255) as u8);
        image_data.push((i / 64 % 255) as u8);
        image_data.push(((i * 3) % 255) as u8);
        image_data.push(255 - (i % 17) as u8);
        i += 1;
    }

    let mut compressor_params = CompressorParams::new();
    compressor_params.set_generate_mipmaps(true);

    //
    // Set up the source image in the params
    //
    let compressor_image = compressor_params.source_image_mut(0);
    compressor_image.init(&image_data, width, height, channel_count);

    //
    // Create the compressor
    //
    let mut compressor = Compressor::default();
    compressor.init(&compressor_params);
    // Drop explicitly here to verify that borrowing rules allow this
    std::mem::drop(compressor_params);

    //
    // Do the compression
    //
    compressor.process().unwrap();

    let basis_file = compressor.basis_file();
    assert!(basis_file.len() > 0);
    assert_eq!(compressor.basis_file_size() as usize, basis_file.len());
    assert!(compressor.any_source_image_has_alpha());

    std::mem::drop(compressor);
}

#[test]
fn test_process_without_images_fails_validation() {
    let compressor_params = CompressorParams::new();
    let mut compressor = Compressor::default();
    compressor.init(&compressor_params);
    assert_eq!(
        compressor.process(),
        Err(CompressorErrorCode::cECFailedValidating)
    );
    assert_eq!(compressor.basis_file_size(), 0);
}

#[test]
fn test_process_with_empty_image_fails_reading() {
    let mut compressor_params = CompressorParams::new();
    compressor_params.resize_source_image_list(1);
    let mut compressor = Compressor::default();
    compressor.init(&compressor_params);
    assert_eq!(
        compressor.process(),
        Err(CompressorErrorCode::cECFailedReadingSourceImages)
    );
    assert_eq!(compressor.basis_file_size(), 0);
}

#[test]
fn test_image_accessors() {
    let mut params = CompressorParams::new();
    let image = params.source_image_mut(0);
    let data: Vec<u8> = vec![10, 20, 30, 40, 50, 60];
    image.init(&data, 2, 1, 3);
    assert_eq!(image.width(), 2);
    assert_eq!(image.height(), 1);
    assert_eq!(image.pitch(), 2);
    assert_eq!(image.total_pixels(), 2);
    assert_eq!(image.block_width(4), 1);
    assert_eq!(image.block_height(4), 1);
    assert_eq!(image.total_blocks(4, 4), 1);
    let p = image.pixel_at(0, 0).unwrap();
    assert_eq!(p.r, 10);
    assert_eq!(p.g, 20);
    assert_eq!(p.b, 30);
    assert_eq!(p.a, 255);
    let p1 = image.pixel_at(1, 0).unwrap();
    assert_eq!(p1.r, 40);
    assert_eq!(p1.a, 255);
    assert_eq!(image.pixel_data().len(), 2);
}
