use ls7366::mdr0::{CycleCountMode, FilterClockDivisionFactor, IndexMode, Mdr0, QuadCountMode};
use ls7366::mdr1::{CounterMode, Mdr1};
use ls7366::str_register::{Direction, SignBit, Str};
use ls7366::{Decodable, Encodable};

#[test]
fn test_mdr0_encode_default() {
    let config = Mdr0 {
        quad_count_mode: QuadCountMode::Quad4x,
        cycle_count_mode: CycleCountMode::FreeRunning,
        index_mode: IndexMode::DisableIndex,
        is_index_inverted: false,
        filter_clock: FilterClockDivisionFactor::One,
    };
    assert_eq!(config.encode(), 0b00000011);
}

#[test]
fn test_mdr0_encode_fields() {
    let config = Mdr0 {
        quad_count_mode: QuadCountMode::Quad2x,
        cycle_count_mode: CycleCountMode::SingleCycle,
        index_mode: IndexMode::ClearCntr,
        is_index_inverted: true,
        filter_clock: FilterClockDivisionFactor::Two,
    };
    // filter:1 inverted:1 index:10 cycle:01 quad:10
    assert_eq!(config.encode(), 0b11100110);
}

#[test]
fn test_mdr0_round_trip_all() {
    let quads = [
        QuadCountMode::NonQuad,
        QuadCountMode::Quad1x,
        QuadCountMode::Quad2x,
        QuadCountMode::Quad4x,
    ];
    let cycles = [
        CycleCountMode::FreeRunning,
        CycleCountMode::SingleCycle,
        CycleCountMode::RangeLimit,
        CycleCountMode::ModuloN,
    ];
    let indexes = [
        IndexMode::DisableIndex,
        IndexMode::LoadCntr,
        IndexMode::ClearCntr,
        IndexMode::LoadOtr,
    ];
    let filters = [FilterClockDivisionFactor::One, FilterClockDivisionFactor::Two];
    for quad_count_mode in quads {
        for cycle_count_mode in cycles {
            for index_mode in indexes {
                for is_index_inverted in [false, true] {
                    for filter_clock in filters {
                        let config = Mdr0 {
                            quad_count_mode,
                            cycle_count_mode,
                            index_mode,
                            is_index_inverted,
                            filter_clock,
                        };
                        let decoded = Mdr0::decode(config.encode()).expect("failed decode");
                        assert_eq!(decoded, config);
                    }
                }
            }
        }
    }
}

#[test]
fn test_mdr1_encode_default() {
    let config = Mdr1 {
        counter_mode: CounterMode::Byte4,
        disable_counting: false,
        flag_on_idx: false,
        flag_on_cmp: false,
        flag_on_bw: false,
        flag_on_cy: false,
    };
    assert_eq!(config.encode(), 0b00000000);
}

#[test]
fn test_mdr1_encode_fields() {
    let config = Mdr1 {
        counter_mode: CounterMode::Byte3,
        disable_counting: true,
        flag_on_idx: true,
        flag_on_cmp: false,
        flag_on_bw: true,
        flag_on_cy: false,
    };
    // cy:0 bw:1 cmp:0 idx:1 reserved:0 disable:1 mode:01
    assert_eq!(config.encode(), 0b01010101);
}

#[test]
fn test_mdr1_round_trip_all() {
    let modes = [
        CounterMode::Byte4,
        CounterMode::Byte3,
        CounterMode::Byte2,
        CounterMode::Byte1,
    ];
    for counter_mode in modes {
        for disable_counting in [false, true] {
            for flag_on_idx in [false, true] {
                for flag_on_cmp in [false, true] {
                    for flag_on_bw in [false, true] {
                        for flag_on_cy in [false, true] {
                            let config = Mdr1 {
                                counter_mode,
                                disable_counting,
                                flag_on_idx,
                                flag_on_cmp,
                                flag_on_bw,
                                flag_on_cy,
                            };
                            let decoded = Mdr1::decode(config.encode()).expect("failed decode");
                            assert_eq!(decoded, config);
                        }
                    }
                }
            }
        }
    }
}

#[test]
fn test_str_decode_positive_up() {
    let decoded = Str::decode(0b00001010).expect("failed decode");
    let expected = Str {
        cary: false,
        borrow: false,
        compare: false,
        index: false,
        count_enabled: true,
        power_loss: false,
        count_direction: Direction::Up,
        sign_bit: SignBit::Positive,
    };
    assert_eq!(decoded, expected);
}

#[test]
fn test_str_decode_negative_down() {
    let decoded = Str::decode(0b11110101).expect("failed decode");
    let expected = Str {
        cary: true,
        borrow: true,
        compare: true,
        index: true,
        count_enabled: false,
        power_loss: true,
        count_direction: Direction::Down,
        sign_bit: SignBit::Negative,
    };
    assert_eq!(decoded, expected);
}

#[test]
fn test_sign_bit_decode() {
    assert_eq!(SignBit::decode(true).unwrap(), SignBit::Negative);
    assert_eq!(SignBit::decode(false).unwrap(), SignBit::Positive);
}

#[test]
fn test_direction_decode() {
    assert_eq!(Direction::decode(true).unwrap(), Direction::Up);
    assert_eq!(Direction::decode(false).unwrap(), Direction::Down);
}

#[test]
fn test_filter_clock_decode() {
    assert_eq!(
        FilterClockDivisionFactor::decode(false).unwrap(),
        FilterClockDivisionFactor::One
    );
    assert_eq!(
        FilterClockDivisionFactor::decode(true).unwrap(),
        FilterClockDivisionFactor::Two
    );
}

#[test]
fn test_counter_mode_decode_out_of_range() {
    assert!(CounterMode::decode(0b100).is_err());
    assert!(QuadCountMode::decode(0b100).is_err());
    assert!(CycleCountMode::decode(0b100).is_err());
    assert!(IndexMode::decode(0b100).is_err());
}
