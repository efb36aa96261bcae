use agent_core::token_usage::{format_token_count_compact, split_total_and_last, TokenUsage};

#[test]
fn format_token_count_compact_scales_k_and_m() {
    assert_eq!(format_token_count_compact(0), "0");
    assert_eq!(format_token_count_compact(999), "999");
    assert_eq!(format_token_count_compact(1_000), "1k");
    assert_eq!(format_token_count_compact(1_100), "1.1k");
    assert_eq!(format_token_count_compact(1_000_000), "1m");
    assert_eq!(format_token_count_compact(3_200_000), "3.2m");
    assert_eq!(format_token_count_compact(-5), "0");
}

#[test]
fn split_total_and_last_saturates_per_field() {
    let total = TokenUsage {
        input_tokens: 100,
        cached_input_tokens: 20,
        output_tokens: 40,
        reasoning_output_tokens: 5,
        total_tokens: 165,
    };
    let last = TokenUsage {
        input_tokens: 10,
        cached_input_tokens: 2,
        output_tokens: 4,
        reasoning_output_tokens: 1,
        total_tokens: 17,
    };
    let split = split_total_and_last(&total, &last);

    assert_eq!(
        split.prior,
        TokenUsage {
            input_tokens: 90,
            cached_input_tokens: 18,
            output_tokens: 36,
            reasoning_output_tokens: 4,
            total_tokens: 148,
        }
    );
    assert_eq!(split.last, last);
}

#[test]
fn split_clamps_to_zero_when_last_exceeds_total() {
    let total = TokenUsage {
        input_tokens: 10,
        cached_input_tokens: -3,
        output_tokens: 5,
        reasoning_output_tokens: 0,
        total_tokens: 15,
    };
    let last = TokenUsage {
        input_tokens: 25,
        cached_input_tokens: 2,
        output_tokens: -7,
        reasoning_output_tokens: 4,
        total_tokens: 40,
    };
    let split = split_total_and_last(&total, &last);
    assert_eq!(
        split.prior,
        TokenUsage {
            input_tokens: 0,
            cached_input_tokens: 0,
            output_tokens: 5,
            reasoning_output_tokens: 0,
            total_tokens: 0,
        }
    );
    assert_eq!(split.last.output_tokens, 0);
    assert_eq!(split.last.input_tokens, 25);
}

#[test]
fn format_token_count_compact_rounds_to_one_decimal() {
    assert_eq!(format_token_count_compact(1_049), "1k");
    assert_eq!(format_token_count_compact(1_050), "1.1k");
    assert_eq!(format_token_count_compact(12_345), "12.3k");
    assert_eq!(format_token_count_compact(999_999), "1000k");
    assert_eq!(format_token_count_compact(i64::MAX), "9223372036854.8m");
    assert_eq!(format_token_count_compact(1_250), "1.2k");
    assert_eq!(format_token_count_compact(1_750), "1.8k");
    assert_eq!(format_token_count_compact(1_150), "1.1k");
    assert_eq!(format_token_count_compact(1_350), "1.4k");
    assert_eq!(format_token_count_compact(2_250_000), "2.2m");
    for v in [1_000i64, 1_049, 1_150, 2_250, 3_350, 9_950, 123_456, 987_650, 1_050_000, 45_678_901] {
        let expected = if v >= 1_000_000 {
            format!("{:.1}", v as f64 / 1_000_000.0).trim_end_matches(".0").to_string() + "m"
        } else {
            format!("{:.1}", v as f64 / 1_000.0).trim_end_matches(".0").to_string() + "k"
        };
        assert_eq!(format_token_count_compact(v), expected, "value {v}");
    }
}
