use memristor::backend_output_or_passthrough;

#[test]
fn registered_handler_output_is_used() {
    let out = backend_output_or_passthrough(&[1.0_f32, 2.0], Some(Ok(vec![3.0, 6.0])));
    assert_eq!(out, vec![3.0, 6.0]);
}

#[test]
fn passthrough_without_handler() {
    let out = backend_output_or_passthrough(&[3.0_f32, 4.0], None);
    assert_eq!(out, vec![3.0, 4.0]);
}

#[test]
fn passthrough_on_handler_error_or_wrong_length() {
    let out = backend_output_or_passthrough(&[3.0_f32, 4.0], Some(Err("boom".to_string())));
    assert_eq!(out, vec![3.0, 4.0]);
    let out = backend_output_or_passthrough(&[3.0_f32, 4.0], Some(Ok(vec![1.0])));
    assert_eq!(out, vec![3.0, 4.0]);
}

#[test]
fn mlx_backend_registered_handler_runs() {
    let input = [1.0_f32, 2.0];
    let handler_output: Vec<f32> = input.iter().map(|x| x * 2.0).collect();
    let out = backend_output_or_passthrough(&input, Some(Ok(handler_output)));
    assert_eq!(out, vec![2.0, 4.0]);
}

#[test]
fn mlx_backend_passthrough_when_unset() {
    let out = backend_output_or_passthrough(&[3.0_f32, 4.0], None);
    assert_eq!(out, vec![3.0, 4.0]);
}

#[test]
fn coreml_backend_registered_handler_runs() {
    let input = [1.0_f32, 2.0];
    let handler_output: Vec<f32> = input.iter().map(|x| x * 3.0).collect();
    let out = backend_output_or_passthrough(&input, Some(Ok(handler_output)));
    assert_eq!(out, vec![3.0, 6.0]);
}

#[test]
fn coreml_backend_passthrough_when_unset() {
    let out = backend_output_or_passthrough(&[3.0_f32, 4.0], None);
    assert_eq!(out, vec![3.0, 4.0]);
}
