use block_stats::json::parse_document;
use block_stats::{format_generic, summarize};

fn samples(seed: u64, count: usize, bound: u64) -> Vec<u64> {
    let mut state = seed;
    let mut values = Vec::new();
    for _ in 0..count {
        state = state.wrapping_mul(6364136223846793005).wrapping_add(1442695040888963407);
        values.push((state >> 11) % bound);
    }
    values
}

fn is_tie(numerator: u128, denominator: u128) -> bool {
    2 * (numerator % denominator) == denominator
}

fn scaled_in_floating_point(value: u32) -> String {
    let value = f64::from(value);
    if value < 1_000.0 {
        format!("{}", value)
    } else if value < 1_000_000.0 {
        format!("{:.1}K", value / 1_000.0)
    } else if value < 1_000_000_000.0 {
        format!("{:.1}M", value / 1_000_000.0)
    } else {
        format!("{:.1}B", value / 1_000_000_000.0)
    }
}

#[test]
fn magnitudes_agree_with_floating_point_off_the_ties() {
    let mut compared: u64 = 0;
    for bound in [2_000u64, 2_000_000, 2_000_000_000, 4_294_967_296] {
        for value in samples(bound, 2_000, bound) {
            let unit: u128 = if value < 1_000 {
                1
            } else if value < 1_000_000 {
                1_000
            } else if value < 1_000_000_000 {
                1_000_000
            } else {
                1_000_000_000
            };
            if is_tie(value as u128 * 10, unit) {
                continue;
            }
            assert_eq!(format_generic(value), scaled_in_floating_point(value as u32), "{}", value);
            compared += 1;
        }
    }
    assert!(compared > 7_000);
}

#[test]
fn a_tie_goes_up_where_floating_point_may_go_down() {
    assert_eq!(format_generic(1_250), "1.3K");
    assert_eq!(scaled_in_floating_point(1_250), "1.2K");
    assert_eq!(format_generic(1_150), "1.2K");
    assert_eq!(scaled_in_floating_point(1_150), "1.1K");
    assert_eq!(format_generic(1_050), "1.1K");
    assert_eq!(scaled_in_floating_point(1_050), "1.1K");
}

#[test]
fn gas_lines_agree_with_floating_point_off_the_ties() {
    let limits = samples(7, 40, 60_000_000);
    let mut compared: u64 = 0;
    for (round, limit) in limits.into_iter().enumerate() {
        let limit = limit + 2;
        let target = limit / 2;
        for used in samples(round as u64, 25, limit + 1) {
            let base_fee = samples(used, 1, 200_000_000_000)[0];
            let price = samples(used + 1, 1, 400_000_000_000)[0];
            let away = if used < target { target - used } else { used - target };
            let fee_away = if price < base_fee { base_fee - price } else { price - base_fee };
            if is_tie(away as u128 * 10_000, target as u128)
                || is_tie(used as u128 * 10_000, limit as u128)
                || is_tie(base_fee as u128 * 100, 1_000_000_000)
                || is_tie(price as u128 * 100, 1_000_000_000)
                || is_tie(fee_away as u128 * 100, 1_000_000_000)
            {
                continue;
            }
            let doc = parse_document(&format!(
                "{{\"hash\": \"h\", \"miner\": \"m\", \"size\": \"0x0\", \"timestamp\": \"0x0\",
                   \"gasUsed\": \"{:#x}\", \"gasLimit\": \"{:#x}\", \"baseFeePerGas\": \"{:#x}\",
                   \"transactions\": [{{\"gas\": \"0x1\", \"gasPrice\": \"{:#x}\",
                   \"type\": \"0x2\"}}]}}",
                used, limit, base_fee, price
            ))
            .unwrap();
            let lines = summarize(1, 2, &doc).unwrap();

            let target_diff = 100.0 * ((used as f64) - (target as f64)) / (target as f64);
            let max_diff = 100.0 * (used as f64) / (limit as f64);
            let objective = if used == target {
                format!(
                    "---Gas objective {:.2}% from target, {:.2}% of maximum",
                    target_diff, max_diff
                )
            } else {
                format!(
                    "---Gas objective {:+.2}% from target, {:.2}% of maximum",
                    target_diff, max_diff
                )
            };
            assert_eq!(lines[16], objective);
            let label = if target_diff < 0.0 {
                "---Base fee will decrease"
            } else {
                "---Base fee will increase"
            };
            assert_eq!(lines[17], label);
            let in_gwei = (price as f64) / 1e9;
            assert_eq!(
                lines[19],
                format!(
                    "---Gas price: min={:.2} Gwei, max={:.2} Gwei, avg={:.2} Gwei",
                    in_gwei, in_gwei, in_gwei
                )
            );
            assert_eq!(lines[20], format!("---Base fee: {:.2} gwei", (base_fee as f64) * 1e-9));
            compared += 1;
        }
    }
    assert!(compared > 900);
}

#[test]
fn what_is_no_number_is_written_as_floating_point_writes_it() {
    let doc = |used: u64, limit: u64| {
        parse_document(&format!(
            "{{\"hash\": \"h\", \"miner\": \"m\", \"size\": \"0x0\", \"timestamp\": \"0x0\",
               \"gasUsed\": \"{:#x}\", \"gasLimit\": \"{:#x}\", \"baseFeePerGas\": \"0x0\",
               \"transactions\": []}}",
            used, limit
        ))
        .unwrap()
    };
    for (used, limit) in [(0u64, 0u64), (5, 0), (0, 1), (5, 1)] {
        let target = limit / 2;
        let target_diff = 100.0 * ((used as f64) - (target as f64)) / (target as f64);
        let max_diff = 100.0 * (used as f64) / (limit as f64);
        let lines = summarize(1, 2, &doc(used, limit)).unwrap();
        assert_eq!(
            lines[16],
            format!(
                "---Gas objective {:+.2}% from target, {:.2}% of maximum",
                target_diff, max_diff
            )
        );
        assert_eq!(lines[17], "---Base fee will increase");
    }
}
