use pathtracer::matrix::Matrix;
use pathtracer::vector::Vector;

#[test]
fn test_matrix_new() {
    let matrix = Matrix::new([[1, 2, 3], [4, 5, 6]]);
    assert_eq!(matrix[0], [1, 2, 3]);
    assert_eq!(matrix[1], [4, 5, 6]);
}

#[test]
fn test_matrix_index() {
    let matrix = Matrix::new([[7, 8], [9, 10]]);
    assert_eq!(matrix[0][1], 8);
    assert_eq!(matrix[1][0], 9);
}

#[test]
fn test_matrix_vector_multiplication() {
    let matrix = Matrix::new([[1, 2], [3, 4]]);
    let vector = Vector::new([1, 1]);
    let result = matrix.multiply_by_vector(&vector);
    assert_eq!(result, Vector::new([3, 7]));
}

#[test]
fn test_matrix_matrix_multiplication() {
    let a = Matrix::new([[1, 2, 3], [4, 5, 6]]);
    let b = Matrix::new([[7, 8], [9, 10], [11, 12]]);

    let expected = Matrix::new([
        [58, 64],   // = 1*7 + 2*9 + 3*11, 1*8 + 2*10 + 3*12
        [139, 154], // = 4*7 + 5*9 + 6*11, 4*8 + 5*10 + 6*12
    ]);

    let result = a * b;
    assert_eq!(result, expected);
}

#[test]
fn matrix_from_columns_transposes() {
    let m = Matrix::new_from_columns([[1, 2, 3], [4, 5, 6]]);
    assert_eq!(m, Matrix::new([[1, 4], [2, 5], [3, 6]]));
}

#[test]
fn matrix_multiply_method_agrees_with_operator() {
    let a = Matrix::new([[1, -2], [0, 3]]);
    let b = Matrix::new([[4, 1], [2, -5]]);
    assert_eq!(a.multiply(&b), a * b);
    assert_eq!(a * b, Matrix::new([[0, 11], [6, -15]]));
}

#[test]
fn matrix_identity_leaves_vector_unchanged() {
    let id = Matrix::new([[1, 0, 0], [0, 1, 0], [0, 0, 1]]);
    let v = Vector::new([3, -4, 5]);
    assert_eq!(id.multiply_by_vector(&v), v);
}

#[test]
fn matrix_inequality() {
    let a = Matrix::new([[1, 2], [3, 4]]);
    let b = Matrix::new([[1, 2], [3, 5]]);
    assert!(a != b);
    assert!(a == a);
}
