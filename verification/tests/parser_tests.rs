use lite_rpc::compute_budget::{parse_compute_budget_instruction, ComputeBudgetInstruction};

#[test]
fn parse_legacy_request_units() {
    // tag 0, units = 5000, additional_fee = 10.
    let data = vec![0u8, 0x88, 0x13, 0, 0, 10, 0, 0, 0];
    assert_eq!(
        parse_compute_budget_instruction(&data),
        Some(ComputeBudgetInstruction::RequestUnitsDeprecated { units: 5000, additional_fee: 10 })
    );
}

#[test]
fn parse_request_heap_frame() {
    let data = vec![1u8, 0, 0, 1, 0];
    assert_eq!(
        parse_compute_budget_instruction(&data),
        Some(ComputeBudgetInstruction::RequestHeapFrame(65536))
    );
}

#[test]
fn parse_set_compute_unit_limit() {
    let data = vec![2u8, 0x0F, 0x27, 0, 0];
    assert_eq!(
        parse_compute_budget_instruction(&data),
        Some(ComputeBudgetInstruction::SetComputeUnitLimit(9999))
    );
}

#[test]
fn parse_set_compute_unit_price() {
    let data = vec![3u8, 42, 0, 0, 0, 0, 0, 0, 0];
    assert_eq!(
        parse_compute_budget_instruction(&data),
        Some(ComputeBudgetInstruction::SetComputeUnitPrice(42))
    );
}

#[test]
fn parse_set_compute_unit_price_large_value() {
    let data = vec![3u8, 0xFF, 0xFF, 0xFF, 0xFF, 0xFF, 0xFF, 0xFF, 0xFF];
    assert_eq!(
        parse_compute_budget_instruction(&data),
        Some(ComputeBudgetInstruction::SetComputeUnitPrice(u64::MAX))
    );
}

#[test]
fn parse_ignores_trailing_bytes() {
    let data = vec![2u8, 1, 0, 0, 0, 99, 99];
    assert_eq!(
        parse_compute_budget_instruction(&data),
        Some(ComputeBudgetInstruction::SetComputeUnitLimit(1))
    );
}

#[test]
fn parse_short_data_is_nothing() {
    assert_eq!(parse_compute_budget_instruction(&vec![0u8, 1, 2, 3]), None);
    assert_eq!(parse_compute_budget_instruction(&vec![2u8, 1, 0, 0]), None);
    assert_eq!(parse_compute_budget_instruction(&vec![3u8, 1, 0, 0, 0]), None);
    assert_eq!(parse_compute_budget_instruction(&Vec::new()), None);
}

#[test]
fn parse_unknown_tag_is_nothing() {
    assert_eq!(parse_compute_budget_instruction(&vec![9u8, 1, 0, 0, 0, 0, 0, 0, 0]), None);
    assert_eq!(parse_compute_budget_instruction(&vec![255u8]), None);
}
