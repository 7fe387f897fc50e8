use ai_refinery::resample::{decode_step, DecodeAction, DecodeEvent, downmix_first_channel, interp_step, output_len, resample_linear, InterpStep};

fn lerp(a: f32, b: f32, s: InterpStep) -> f32 {
    let w = s.frac_num as f32 / s.frac_den as f32;
    a * (1.0 - w) + b * w
}

#[test]
fn equal_rates_give_the_input_back() {
    let input = vec![0.25f32, -0.5, 1.0, 0.0, 0.75];
    let out = resample_linear(&input, 16000, 16000, lerp);
    assert_eq!(out, input);
    let empty: Vec<f32> = Vec::new();
    assert!(resample_linear(&empty, 44100, 44100, lerp).is_empty());
}

#[test]
fn doubling_a_ramp_keeps_even_samples() {
    let input = vec![0.0f32, 1.0, 2.0, 3.0];
    let out = resample_linear(&input, 8000, 16000, lerp);
    assert_eq!(out.len(), 8);
    for k in 0..4 {
        assert_eq!(out[2 * k], input[k]);
    }
    assert_eq!(out[1], 0.5);
    assert_eq!(out[5], 2.5);
    // the last odd sample has no right neighbour: it is held
    assert_eq!(out[7], 3.0);
}

#[test]
fn downsampling_length_is_the_ceiling() {
    let input: Vec<f32> = (0..10).map(|i| i as f32).collect();
    let out = resample_linear(&input, 48000, 16000, lerp);
    assert_eq!(out.len(), 4);
    assert_eq!(out, vec![0.0, 3.0, 6.0, 9.0]);
    assert_eq!(output_len(10, 48000, 16000), 4);
    assert_eq!(output_len(0, 44100, 16000), 0);
    assert_eq!(output_len(441, 44100, 16000), 160);
}

#[test]
fn steps_have_exact_positions() {
    let s = interp_step(1, 10, 44100, 16000);
    assert_eq!(s, InterpStep { lo: 2, hi: 3, frac_num: 12100, frac_den: 16000 });
    let last = interp_step(7, 4, 8000, 16000);
    assert_eq!(last, InterpStep { lo: 3, hi: 3, frac_num: 8000, frac_den: 16000 });
}

#[test]
fn empty_input_resamples_to_nothing() {
    let empty: Vec<f32> = Vec::new();
    assert!(resample_linear(&empty, 44100, 16000, lerp).is_empty());
}

#[test]
fn downmix_keeps_the_first_channel() {
    let stereo = vec![1, 10, 2, 20, 3, 30];
    assert_eq!(downmix_first_channel(&stereo, 2), vec![1, 2, 3]);
    let ragged = vec![1, 2, 3, 4, 5];
    assert_eq!(downmix_first_channel(&ragged, 2), vec![1, 3, 5]);
    assert_eq!(downmix_first_channel(&ragged, 1), ragged);
    let none: Vec<i32> = Vec::new();
    assert!(downmix_first_channel(&none, 3).is_empty());
}

#[test]
fn decode_policy() {
    assert_eq!(decode_step(1, DecodeEvent::Packet(1)), DecodeAction::Decode);
    assert_eq!(decode_step(1, DecodeEvent::Packet(2)), DecodeAction::Skip);
    assert_eq!(decode_step(1, DecodeEvent::Decoded), DecodeAction::Append);
    assert_eq!(decode_step(1, DecodeEvent::DecodeFailed), DecodeAction::Stop);
    assert_eq!(decode_step(1, DecodeEvent::Exhausted), DecodeAction::Stop);
}
