use math::constants::{FOUR, ZERO};
use math::mat4x4_i32::Vec16D;
use math::Matrix4x4;

fn random_vec16d() -> Vec16D {
    let mut v: Vec16D = Default::default();
    for i in 0..16 {
        v[i] = rand::random::<i32>();
    }
    v
}

fn random_mat4x4() -> Matrix4x4 {
    let mut v: Vec16D = Default::default();
    for i in 0..16 {
        v[i] = rand::random::<i32>() % 1_000_000;
    }
    Matrix4x4::from(v)
}

/// The matrix whose entry at row `i`, column `j` is `f(i, j)`.
fn build4(f: impl Fn(usize, usize) -> i32) -> Matrix4x4 {
    let mut v: Vec16D = Default::default();
    for i in 0..FOUR {
        for j in 0..FOUR {
            v[i * FOUR + j] = f(i, j);
        }
    }
    Matrix4x4::from(v)
}

#[test]
fn mat4x4_i32_new_test() {
    let v = random_vec16d();
    let [n00, n01, n02, n03, n10, n11, n12, n13, n20, n21, n22, n23, n30, n31, n32, n33] = v;

    let mat = Matrix4x4::new(
        n00, n01, n02, n03, n10, n11, n12, n13, n20, n21, n22, n23, n30, n31, n32, n33,
    );

    assert_eq!(mat.at(0, 0), v[0]);
    assert_eq!(mat.at(0, 1), v[1]);
    assert_eq!(mat.at(0, 2), v[2]);
    assert_eq!(mat.at(0, 3), v[3]);
    assert_eq!(mat.at(1, 0), v[4]);
    assert_eq!(mat.at(1, 1), v[5]);
    assert_eq!(mat.at(1, 2), v[6]);
    assert_eq!(mat.at(1, 3), v[7]);
    assert_eq!(mat.at(2, 0), v[8]);
    assert_eq!(mat.at(2, 1), v[9]);
    assert_eq!(mat.at(2, 2), v[10]);
    assert_eq!(mat.at(2, 3), v[11]);
    assert_eq!(mat.at(3, 0), v[12]);
    assert_eq!(mat.at(3, 1), v[13]);
    assert_eq!(mat.at(3, 2), v[14]);
    assert_eq!(mat.at(3, 3), v[15]);
}

#[test]
fn mat4x4_i32_from_i32_test() {
    let n = rand::random::<i32>();
    let mat = Matrix4x4::from(n);

    assert!((0..FOUR).all(|j| mat.col_at(j).iter().all(|&e| e == n)))
}

#[test]
fn from_vec16d_test() {
    let v = random_vec16d();
    let mat = Matrix4x4::from(v);

    for i in 0..FOUR {
        for j in 0..FOUR {
            assert_eq!(mat.at(i, j), v[i * FOUR + j]);
        }
    }
}

#[test]
fn mat4x4_i32_col_at_test() {
    let v = random_vec16d();
    let c1 = [v[ZERO], v[FOUR], v[FOUR * 2], v[FOUR * 3]];
    let c2 = [v[ZERO + 1], v[FOUR + 1], v[FOUR * 2 + 1], v[FOUR * 3 + 1]];
    let c3 = [v[ZERO + 2], v[FOUR + 2], v[FOUR * 2 + 2], v[FOUR * 3 + 2]];
    let c4 = [v[ZERO + 3], v[FOUR + 3], v[FOUR * 2 + 3], v[FOUR * 3 + 3]];

    let mat = Matrix4x4::from(v);

    assert_eq!(&c1, mat.col_at(0));
    assert_eq!(&c2, mat.col_at(1));
    assert_eq!(&c3, mat.col_at(2));
    assert_eq!(&c4, mat.col_at(3));
}

#[test]
fn mat4x4_i32_add_test() {
    let mat1 = random_mat4x4();
    let mat2 = random_mat4x4();
    let result = mat1 + mat2;

    let expected = build4(|i, j| mat1.at(i, j) + mat2.at(i, j));

    assert_eq!(result, expected);
}

#[test]
fn mat4x4_i32_sub_test() {
    let mat1 = random_mat4x4();
    let mat2 = random_mat4x4();
    let result = mat1 - mat2;

    let expected = build4(|i, j| mat1.at(i, j) - mat2.at(i, j));

    assert_eq!(result, expected);
}

#[test]
fn mat4x4_i32_scalar_mul_test() {
    let mat1 = random_mat4x4();
    let scalar = rand::random::<i32>() % 100 + 1;
    let result = mat1 * scalar;

    let expected = build4(|i, j| mat1.at(i, j) * scalar);

    assert_eq!(result, expected);
}

#[test]
fn mat4x4_new_row_major_scenario() {
    let m = Matrix4x4::new_row_major();

    assert_eq!(m.at(0, 0), 0);
    assert_eq!(m.at(0, 1), 1);
    assert_eq!(m.at(1, 0), 4);
    assert_eq!(m.at(3, 3), 15);
    for i in 0..FOUR {
        for j in 0..FOUR {
            assert_eq!(m.at(i, j), (i * FOUR + j) as i32);
        }
    }
}

#[test]
fn mat4x4_new_col_major_is_the_transpose() {
    let r = Matrix4x4::new_row_major();
    let c = Matrix4x4::new_col_major();

    for i in 0..FOUR {
        for j in 0..FOUR {
            assert_eq!(c.at(i, j), (j * FOUR + i) as i32);
            assert_eq!(c.at(i, j), r.at(j, i));
        }
    }
    assert_eq!(c.col_at(1), &[4, 5, 6, 7]);
}

#[test]
fn mat4x4_product_of_row_major_with_itself() {
    let a = Matrix4x4::new_row_major();

    assert_eq!(
        a * a,
        Matrix4x4::new(
            56, 62, 68, 74, 152, 174, 196, 218, 248, 286, 324, 362, 344, 398, 452, 506,
        )
    );
}

#[test]
fn mat4x4_product_is_row_by_column_sum() {
    let a = build4(|_, _| rand::random::<i32>() % 1000);
    let b = build4(|_, _| rand::random::<i32>() % 1000);
    let c = a * b;

    for i in 0..FOUR {
        for j in 0..FOUR {
            let expected: i32 = (0..FOUR).map(|k| a.at(i, k) * b.at(k, j)).sum();
            assert_eq!(c.at(i, j), expected);
        }
    }
}

#[test]
fn mat4x4_product_with_identity() {
    let identity = build4(|i, j| if i == j { 1 } else { 0 });
    let a = random_mat4x4();

    assert_eq!(a * identity, a);
    assert_eq!(identity * a, a);
}

#[test]
fn mat4x4_default_is_zero() {
    let m = Matrix4x4::default();

    assert_eq!(m, Matrix4x4::from(0));
    assert!(m.col_at(3).iter().all(|&e| e == 0));
}

#[test]
fn mat4x4_entrywise_on_fixed_values() {
    let a = Matrix4x4::new_row_major();
    let b = Matrix4x4::from(10);

    assert_eq!(a + b, build4(|i, j| (i * FOUR + j) as i32 + 10));
    assert_eq!(a - b, build4(|i, j| (i * FOUR + j) as i32 - 10));
    assert_eq!(a * 7, build4(|i, j| (i * FOUR + j) as i32 * 7));
}

#[test]
fn mat4x4_arithmetic_at_the_i32_limits() {
    let big = Matrix4x4::from(i32::MAX);
    let small = Matrix4x4::from(i32::MIN);

    assert_eq!(big + small, Matrix4x4::from(-1));
    assert_eq!(big - big, Matrix4x4::from(0));
    assert_eq!(small * 1, small);
}

#[test]
fn mat4x4_equality_is_exact() {
    let a = Matrix4x4::new_row_major();
    let b = build4(|i, j| (i * FOUR + j) as i32);
    let off = build4(|i, j| if i == 3 && j == 0 { 0 } else { (i * FOUR + j) as i32 });

    assert!(a == a);
    assert!(a == b && b == a);
    assert!(a != off && off != a);
}
