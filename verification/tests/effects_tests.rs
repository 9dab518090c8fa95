use rustcraft::effects::{BlurPass, GaussianBlurPostProcessingEffect};

#[test]
fn blur_passes_alternate_buffers_and_directions() {
    let passes = GaussianBlurPostProcessingEffect::blur_passes(4);
    assert_eq!(
        passes,
        vec![
            BlurPass { from_pingpong: false, horizontal: 0 },
            BlurPass { from_pingpong: true, horizontal: 1 },
            BlurPass { from_pingpong: false, horizontal: 0 },
            BlurPass { from_pingpong: true, horizontal: 1 },
        ]
    );
}

#[test]
fn blur_ends_in_the_bloom_texture() {
    for amount in [2, 6, 10] {
        let passes = GaussianBlurPostProcessingEffect::blur_passes(amount);
        assert_eq!(passes.len(), amount as usize);
        assert!(passes.last().unwrap().from_pingpong);
    }
}

#[test]
fn no_blur_passes_for_nothing_or_less() {
    assert!(GaussianBlurPostProcessingEffect::blur_passes(0).is_empty());
    assert!(GaussianBlurPostProcessingEffect::blur_passes(-4).is_empty());
}
