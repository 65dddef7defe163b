use ffts::{FFTSComplex, FFTSDirection, FFTSError, FFTSPlan, FFTS_BACKWARD, FFTS_FORWARD};

#[test]
fn test_init_1d() {
    let p = FFTSPlan::new_1d(2, FFTSDirection::Forward).unwrap();
    println!("fftsplan 1d struct: {:#?}", p);
}

#[test]
fn test_init_2d() {
    let p = FFTSPlan::new_2d(2, 2, FFTSDirection::Forward).unwrap();
    println!("fftsplan 2d struct: {:#?}", p);
}

#[test]
fn test_init_nd() {
    let p = FFTSPlan::new_nd(&mut vec![2usize, 2usize, 2usize], FFTSDirection::Forward).unwrap();
    println!("fftsplan nd struct: {:#?}", p);
}

#[test]
fn plan_records_its_configuration() {
    let p = FFTSPlan::new_nd(&mut vec![2usize, 3usize, 4usize], FFTSDirection::Backward).unwrap();
    assert_eq!(p.dims(), &[2usize, 3, 4][..]);
    assert_eq!(p.rank(), 3);
    assert_eq!(p.len(), 24);
    assert_eq!(p.direction(), FFTSDirection::Backward);
    assert_eq!(p.flag(), 1);
}

#[test]
fn new_nd_leaves_dimensions_unchanged() {
    let mut dims = vec![4usize, 8];
    let _ = FFTSPlan::new_nd(&mut dims, FFTSDirection::Forward).unwrap();
    assert_eq!(dims, vec![4usize, 8]);
}

#[test]
fn two_d_plan_length_is_product() {
    let p = FFTSPlan::new_2d(3, 5, FFTSDirection::Forward).unwrap();
    assert_eq!(p.len(), 15);
    assert_eq!(p.rank(), 2);
    assert_eq!(p.dims(), &[3usize, 5][..]);
}

#[test]
fn direction_flags() {
    assert_eq!(FFTSDirection::Forward.flag(), -1);
    assert_eq!(FFTSDirection::Backward.flag(), 1);
    assert_eq!(FFTS_FORWARD, -1);
    assert_eq!(FFTS_BACKWARD, 1);
    let p = FFTSPlan::new_1d(4, FFTSDirection::Forward).unwrap();
    assert_eq!(p.flag(), -1);
}

#[test]
fn empty_dimensions_are_an_invalid_rank() {
    let r = FFTSPlan::new_nd(&mut Vec::new(), FFTSDirection::Forward);
    assert_eq!(r.unwrap_err(), FFTSError::InvalidRank);
}

#[test]
fn zero_dimension_is_refused() {
    assert_eq!(
        FFTSPlan::new_1d(0, FFTSDirection::Forward).unwrap_err(),
        FFTSError::PlanInitializationFailed
    );
    assert_eq!(
        FFTSPlan::new_2d(4, 0, FFTSDirection::Backward).unwrap_err(),
        FFTSError::PlanInitializationFailed
    );
    assert_eq!(
        FFTSPlan::new_nd(&mut vec![2usize, 0, 2], FFTSDirection::Forward).unwrap_err(),
        FFTSError::PlanInitializationFailed
    );
}

#[test]
fn overflowing_transform_length_is_refused() {
    let big = usize::MAX / 2 + 1;
    assert_eq!(
        FFTSPlan::new_2d(big, 2, FFTSDirection::Forward).unwrap_err(),
        FFTSError::PlanInitializationFailed
    );
    assert_eq!(
        FFTSPlan::new_nd(&mut vec![big, 2, 0], FFTSDirection::Forward).unwrap_err(),
        FFTSError::PlanInitializationFailed
    );
    assert_eq!(FFTSPlan::new_2d(big, 1, FFTSDirection::Forward).unwrap().len(), big);
}

#[test]
fn null_native_handle_is_a_failure() {
    assert_eq!(
        FFTSPlan::check_native_init(true),
        Err(FFTSError::PlanInitializationFailed)
    );
    assert_eq!(FFTSPlan::check_native_init(false), Ok(()));
}

#[test]
fn output_buffer_matches_input_length() {
    let p = FFTSPlan::new_1d(4, FFTSDirection::Forward).unwrap();
    let input = FFTSComplex::vec_from_real(&[1u32, 2, 3, 4]);
    let out = p.output_for(&input).unwrap();
    assert_eq!(out, FFTSComplex::zeroed(4));
}

#[test]
fn wrong_input_length_is_a_mismatch() {
    let p = FFTSPlan::new_1d(4, FFTSDirection::Forward).unwrap();
    let input = FFTSComplex::zeroed(3);
    assert_eq!(p.output_for(&input).unwrap_err(), FFTSError::LengthMismatch);
    assert_eq!(p.output_for(&[]).unwrap_err(), FFTSError::LengthMismatch);
}

#[test]
fn plan_serves_repeated_inputs_independently() {
    let p = FFTSPlan::new_2d(2, 2, FFTSDirection::Backward).unwrap();
    let first = FFTSComplex::vec_from_real(&[7u32, 8, 9, 10]);
    let second = FFTSComplex::zeroed(4);
    let mut out1 = p.output_for(&first).unwrap();
    out1[0].re = 99;
    let out2 = p.output_for(&second).unwrap();
    assert_eq!(out2, FFTSComplex::zeroed(4));
    assert_eq!(out1.len(), 4);
    assert_eq!(p.len(), 4);
}

#[test]
fn error_descriptions() {
    assert_eq!(FFTSError::PlanInitializationFailed.description(), "ffts nullptr error");
    assert_eq!(FFTSError::InvalidRank.description(), "ffts invalid rank");
    assert_eq!(FFTSError::LengthMismatch.description(), "ffts buffer length mismatch");
}
