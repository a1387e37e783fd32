use rainbowgif::color::quantize::{
    check_quantized, quantize_identity, quantize_image_quant, QuantizeError, Quantizer,
    QuantizerType,
};

const RED: (u8, u8, u8, u8) = (255, 0, 0, 255);
const GREEN: (u8, u8, u8, u8) = (0, 255, 0, 255);
const BLUE: (u8, u8, u8, u8) = (0, 0, 255, 255);

#[test]
fn identity_lists_colors_in_order_of_first_occurrence() {
    let img = vec![BLUE, RED, BLUE, GREEN, RED, BLUE];
    let (palette, indices) = quantize_identity(img, (3, 2)).unwrap();
    assert_eq!(palette, vec![BLUE, RED, GREEN]);
    assert_eq!(indices, vec![0, 1, 0, 2, 1, 0]);
}

#[test]
fn identity_maps_equal_colors_to_equal_indices() {
    let img: Vec<(u8, u8, u8, u8)> =
        (0..200u32).map(|i| ((i % 7) as u8, (i % 5) as u8, (i % 3) as u8, 255)).collect();
    let (palette, indices) = quantize_identity(img.clone(), (20, 10)).unwrap();
    assert_eq!(palette.len(), 105);
    assert_eq!(indices.len(), 200);
    for i in 0..img.len() {
        assert_eq!(palette[indices[i]], img[i]);
        for j in 0..img.len() {
            assert_eq!(indices[i] == indices[j], img[i] == img[j]);
        }
    }
}

#[test]
fn identity_tells_channels_apart() {
    let img = vec![(1, 0, 0, 0), (0, 1, 0, 0), (0, 0, 1, 0), (0, 0, 0, 1), (0, 0, 0, 0)];
    let (palette, indices) = quantize_identity(img.clone(), (5, 1)).unwrap();
    assert_eq!(palette, img);
    assert_eq!(indices, vec![0, 1, 2, 3, 4]);
}

#[test]
fn identity_pads_what_the_image_does_not_cover() {
    let (palette, indices) = quantize_identity(vec![GREEN, RED], (2, 2)).unwrap();
    assert_eq!(palette, vec![GREEN, RED]);
    assert_eq!(indices, vec![0, 1, 0, 0]);
    let (palette, indices) = quantize_identity(vec![], (0, 5)).unwrap();
    assert!(palette.is_empty());
    assert!(indices.is_empty());
}

#[test]
fn identity_does_not_bound_the_palette() {
    let img: Vec<(u8, u8, u8, u8)> = (0..300u32).map(|i| ((i / 256) as u8, i as u8, 0, 255)).collect();
    let (palette, indices) = quantize_identity(img, (300, 1)).unwrap();
    assert_eq!(palette.len(), 300);
    assert_eq!(indices[299], 299);
}

#[test]
fn quantizer_keeps_its_settings() {
    let quantizer = Quantizer::new(16, QuantizerType::IDENTITY);
    assert_eq!(quantizer.max_color_count, 16);
    assert_eq!(quantizer.quantizer_type, QuantizerType::IDENTITY);
}

#[test]
fn run_identity_narrows_the_indices() {
    let quantizer = Quantizer::new(256, QuantizerType::IDENTITY);
    let (palette, indices) = quantizer.run(vec![RED, RED, BLUE, GREEN], (2, 2)).unwrap();
    assert_eq!(palette, vec![RED, BLUE, GREEN]);
    assert_eq!(indices, vec![0u8, 0, 1, 2]);
}

#[test]
fn run_identity_refuses_more_than_256_colors() {
    let quantizer = Quantizer::new(256, QuantizerType::IDENTITY);
    let fits: Vec<(u8, u8, u8, u8)> = (0..256u32).map(|i| (i as u8, 0, 0, 255)).collect();
    let (palette, indices) = quantizer.run(fits, (16, 16)).unwrap();
    assert_eq!(palette.len(), 256);
    assert_eq!(indices[255], 255);
    let too_many: Vec<(u8, u8, u8, u8)> =
        (0..257u32).map(|i| (i as u8, (i / 256) as u8, 0, 255)).collect();
    let result = quantizer.run(too_many, (257, 1));
    assert!(matches!(result, Err(QuantizeError::InvalidType(None, _))));
}

#[test]
fn run_identity_refuses_an_image_beyond_its_dimensions() {
    let quantizer = Quantizer::new(256, QuantizerType::IDENTITY);
    let result = quantizer.run(vec![RED, GREEN, BLUE], (1, 2));
    assert!(matches!(result, Err(QuantizeError::Failed(None, _))));
    let result = quantizer.run(vec![RED], (usize::MAX, 2));
    assert!(matches!(result, Err(QuantizeError::Failed(None, _))));
}

#[test]
fn run_scalar_is_not_a_valid_quantizer() {
    let quantizer = Quantizer::new(256, QuantizerType::SCALAR);
    match quantizer.run(vec![RED], (1, 1)) {
        Err(error) => {
            assert!(matches!(error, QuantizeError::InvalidType(None, _)));
            assert_eq!(
                error.to_string(),
                "The given quantizer is not a valid one: Invalid quantizer SCALAR"
            );
        }
        Ok(_) => panic!("the scalar quantizer ran"),
    }
}

#[test]
fn image_quant_keeps_few_colors_exact() {
    let img: Vec<(u8, u8, u8, u8)> =
        (0..64).map(|i| if i % 8 < 4 { RED } else { BLUE }).collect();
    let (palette, indices) = quantize_image_quant(img.clone(), (8, 8)).unwrap();
    assert!(palette.len() <= 256);
    assert_eq!(indices.len(), 64);
    for (pixel, index) in img.iter().zip(indices.iter()) {
        assert_eq!(&palette[*index as usize], pixel);
    }
}

#[test]
fn image_quant_reduces_many_colors() {
    let img: Vec<(u8, u8, u8, u8)> =
        (0..4096u32).map(|i| ((i % 64 * 4) as u8, (i / 64 * 4) as u8, (i % 7 * 30) as u8, 255)).collect();
    let quantizer = Quantizer::new(256, QuantizerType::IMAGEQUANT);
    let (palette, indices) = quantizer.run(img, (64, 64)).unwrap();
    assert!(palette.len() <= 256);
    assert!(palette.len() > 1);
    assert_eq!(indices.len(), 4096);
    assert!(indices.iter().all(|index| (*index as usize) < palette.len()));
}

#[test]
fn image_quant_failure_is_reported() {
    let result = quantize_image_quant(vec![RED], (2, 2));
    match result {
        Err(error) => {
            assert!(matches!(error, QuantizeError::Failed(Some(_), _)));
            assert!(error.source().is_some());
            assert_eq!(
                error.to_string(),
                "The quantizer failed: The quantizer rejected the image or its settings"
            );
        }
        Ok(_) => panic!("an image smaller than its dimensions was quantized"),
    }
    assert!(matches!(quantize_image_quant(vec![], (0, 0)), Err(QuantizeError::Failed(..))));
}

#[test]
fn what_fits_the_image_is_passed_on() {
    let (palette, indices) = check_quantized(4, (2, 2), vec![RED, BLUE], vec![0, 1, 1, 0]).unwrap();
    assert_eq!(palette, vec![RED, BLUE]);
    assert_eq!(indices, vec![0, 1, 1, 0]);
    assert!(check_quantized(6, (2, 2), vec![RED], vec![0, 0, 0, 0]).is_ok());
}

#[test]
fn what_does_not_fit_the_image_is_a_failure() {
    let reject = |covered, dimensions, palette: Vec<(u8, u8, u8, u8)>, indices: Vec<u8>| {
        match check_quantized(covered, dimensions, palette, indices) {
            Err(error) => {
                assert!(matches!(error, QuantizeError::Failed(None, _)));
                assert_eq!(
                    error.to_string(),
                    "The quantizer failed: The quantizer returned what does not fit the image"
                );
            }
            Ok(_) => panic!("a palette and indices that do not fit were passed on"),
        }
    };
    reject(4, (2, 2), vec![RED, BLUE], vec![0, 1, 2, 0]);
    reject(4, (2, 2), vec![RED, BLUE], vec![0, 1, 1]);
    reject(3, (2, 2), vec![RED, BLUE], vec![0, 1, 1, 0]);
    reject(0, (0, 0), vec![RED], vec![]);
    reject(4, (2, 2), vec![RED; 257], vec![0, 0, 0, 0]);
    reject(4, (usize::MAX, 2), vec![RED], vec![0, 0, 0, 0]);
    reject(1, (1, 1), vec![], vec![0]);
}
