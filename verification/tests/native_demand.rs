use decoders::native_demand::{
    checked_sum, elements_bytes, sum, DeviceByteDemand, ModelDeviceByteDemand,
    Qwen35NativeExecutionDeviceDemand, Qwen35NativeLayerDeviceDemand,
};
use decoders::Error;

fn model_bytes() -> ModelDeviceByteDemand {
    ModelDeviceByteDemand {
        weights: 11,
        full_workspace: 13,
        recurrent_workspace: 17,
        finish_workspace: 19,
        hidden_rows: 23,
        final_normalized: 29,
        logits: 31,
        mrope_controls: 37,
        key_values: 41,
        page_table: 43,
        recurrent_history_active: 47,
        recurrent_history_staged: 53,
        recurrent_state_active: 59,
        recurrent_state_staged: 61,
        numerical_status: 67,
    }
}

#[test]
fn byte_demand_sums_every_native_category() -> Result<(), String> {
    let demand = DeviceByteDemand {
        weights: 11,
        scratch: 13,
        input: 17,
        output: 19,
        controls: 23,
        key_values: 29,
        table: 31,
        numerical_status: 37,
    };
    assert_eq!(
        demand.total().map_err(|error| format!("{error:?}"))?,
        180,
        "native byte accounting must count weights, named scratch, I/O, controls, K/V, table, and numerical status"
    );
    Ok(())
}

#[test]
fn byte_demand_refuses_aggregate_overflow() {
    let demand = DeviceByteDemand {
        weights: usize::MAX,
        scratch: 1,
        input: 0,
        output: 0,
        controls: 0,
        key_values: 0,
        table: 0,
        numerical_status: 0,
    };
    assert!(
        demand.total().is_err(),
        "native aggregate accounting must fail before allocation on overflow"
    );
}

#[test]
fn demand_partitions_one_resident_model_from_one_session_and_token() -> Result<(), String> {
    let demand = Qwen35NativeExecutionDeviceDemand::from_bytes(model_bytes())
        .map_err(|error| format!("{error:?}"))?;

    assert_eq!(demand.resident_bytes(), 11);
    assert_eq!(
        demand.session_bytes(),
        472,
        "per-session demand must count only mutable state and workspaces"
    );
    assert_eq!(demand.step_bytes(), 37);
    assert_eq!(demand.output_bytes(), 31);
    assert_eq!(
        demand.total_bytes(),
        demand.resident_bytes()
            + demand.session_bytes()
            + demand.step_bytes()
            + demand.output_bytes(),
        "all demand categories must derive from the one checked resource plan"
    );
    Ok(())
}

#[test]
fn recurrent_workspace_sum_refuses_overflow() {
    assert!(
        sum(&[usize::MAX, 1], "native recurrent workspace elements").is_err(),
        "native workspace demand must reject overflow before device allocation"
    );
}

#[test]
fn a_model_demand_reports_each_category() -> Result<(), String> {
    let demand = Qwen35NativeExecutionDeviceDemand::from_bytes(model_bytes())
        .map_err(|error| format!("{error:?}"))?;
    assert_eq!(demand.weight_bytes(), 11);
    assert_eq!(demand.full_workspace_bytes(), 13);
    assert_eq!(demand.recurrent_workspace_bytes(), 17);
    assert_eq!(demand.finish_workspace_bytes(), 19);
    assert_eq!(demand.hidden_row_bytes(), 23);
    assert_eq!(demand.final_normalized_bytes(), 29);
    assert_eq!(demand.logits_bytes(), 31);
    assert_eq!(demand.mrope_control_bytes(), 37);
    assert_eq!(demand.key_value_bytes(), 41);
    assert_eq!(demand.page_table_bytes(), 43);
    assert_eq!(demand.recurrent_history_active_bytes(), 47);
    assert_eq!(demand.recurrent_history_staged_bytes(), 53);
    assert_eq!(demand.recurrent_state_active_bytes(), 59);
    assert_eq!(demand.recurrent_state_staged_bytes(), 61);
    assert_eq!(demand.numerical_status_bytes(), 67);
    assert_eq!(demand.total_bytes(), 551);
    Ok(())
}

#[test]
fn a_layer_demand_reports_each_category() -> Result<(), String> {
    let demand = Qwen35NativeLayerDeviceDemand::from_bytes(DeviceByteDemand {
        weights: 11,
        scratch: 13,
        input: 17,
        output: 19,
        controls: 23,
        key_values: 29,
        table: 31,
        numerical_status: 37,
    })
    .map_err(|error| format!("{error:?}"))?;
    assert_eq!(demand.weight_bytes(), 11);
    assert_eq!(demand.scratch_bytes(), 13);
    assert_eq!(demand.input_bytes(), 17);
    assert_eq!(demand.output_bytes(), 19);
    assert_eq!(demand.control_bytes(), 23);
    assert_eq!(demand.key_value_bytes(), 29);
    assert_eq!(demand.table_bytes(), 31);
    assert_eq!(demand.total_bytes(), 180);
    Ok(())
}

#[test]
fn an_overflowing_model_demand_is_refused() {
    let bytes = ModelDeviceByteDemand {
        weights: usize::MAX,
        ..model_bytes()
    };
    assert!(matches!(
        Qwen35NativeExecutionDeviceDemand::from_bytes(bytes),
        Err(Error::ArithmeticOverflow {
            context: "native main-model device bytes"
        })
    ));
}

#[test]
fn byte_helpers_multiply_and_add() {
    assert!(matches!(elements_bytes(3, 4, "bytes"), Ok(12)));
    assert!(matches!(
        elements_bytes(usize::MAX, 2, "bytes"),
        Err(Error::ArithmeticOverflow { context: "bytes" })
    ));
    assert!(matches!(checked_sum(3, 4, "sum"), Ok(7)));
    assert!(matches!(
        checked_sum(usize::MAX, 1, "sum"),
        Err(Error::ArithmeticOverflow { context: "sum" })
    ));
}
