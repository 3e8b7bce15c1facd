use philpsx::math::{CP2Matrix, CP2Vector};

#[test]
fn multiplication_works_as_expected_between_matrix_and_vector() {

    let input_matrix = CP2Matrix::new(
        [1, 2, 3],
        [4, 5, 6],
        [7, 8, 9]
    );
    let input_vector = CP2Vector::new(
        10, 11, 12
    );

    let output_vector = input_matrix * input_vector;

    assert_eq!(output_vector.top(), 68);
    assert_eq!(output_vector.middle(), 167);
    assert_eq!(output_vector.bottom(), 266);
}

#[test]
fn addition_works_as_expected_between_two_vectors() {

    let input_vector_1 = CP2Vector::new(
        1, 2, 3
    );
    let input_vector_2 = CP2Vector::new(
        2, 4, 6
    );

    let output_vector = input_vector_1 + input_vector_2;

    assert_eq!(output_vector.top(), 3);
    assert_eq!(output_vector.middle(), 6);
    assert_eq!(output_vector.bottom(), 9);
}

#[test]
fn matrix_by_vector_multiplication_then_addition_works_as_expected() {

    let input_matrix = CP2Matrix::new(
        [1, 2, 3],
        [4, 5, 6],
        [7, 8, 9]
    );
    let input_vector_1 = CP2Vector::new(
        10, 11, 12
    );
    let input_vector_2 = CP2Vector::new(
        2, 4, 6
    );

    let output_vector = input_matrix * input_vector_1 + input_vector_2;

    assert_eq!(output_vector.top(), 70);
    assert_eq!(output_vector.middle(), 171);
    assert_eq!(output_vector.bottom(), 272);
}

#[test]
fn clarify_sign_extension_behaviour_when_going_from_i32_to_i64() {

    let i32_1 = -1_i32;
    let i32_2 = -1_i32;
    let i32_3 = -1_i32;

    let vector = CP2Vector::new(
        i32_1 as i64,
        i32_2 as i64,
        i32_3 as i64
    );

    assert_eq!(vector.top(), -1_i64);
    assert_eq!(vector.middle(), -1_i64);
    assert_eq!(vector.bottom(), -1_i64);
}
