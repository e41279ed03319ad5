//! The schemes carried out on a real backend.
use burn_ndarray::NdArray;
use burn_tensor::backend::Backend;
use burn_tensor::{Data, ElementConversion, Tensor};
use libm::sqrt;
use weight_init::initializer::Initializer;
use weight_init::quantity::{Arithmetic, Quantity};
use weight_init::request::{Distribution, Filling, Request};

pub type TB = NdArray<f32>;

/// Computes the parameters in binary64 and has the backend make the tensor.
fn tensor<const D: usize>(request: Request<Quantity<f64>, D>) -> Tensor<TB, D> {
    let binary64 = Arithmetic {
        count: |n: u128| n as f64,
        neg: |a: f64| -a,
        mul: |a: f64, b: f64| a * b,
        div: |a: f64, b: f64| a / b,
        sqrt: |a: f64| sqrt(a),
    };
    let resolved = request.resolve(&binary64);
    match resolved.filling {
        Filling::Full(value) => Tensor::full(resolved.shape, value),
        Filling::Ones => Tensor::ones(resolved.shape),
        Filling::Zeros => Tensor::zeros(resolved.shape),
        Filling::Random(Distribution::Uniform { low, high }) => {
            Tensor::random(resolved.shape, burn_tensor::Distribution::Uniform(low, high))
        }
        Filling::Random(Distribution::Normal { mean, std }) => {
            Tensor::random(resolved.shape, burn_tensor::Distribution::Normal(mean, std))
        }
    }
}

/// Makes the tensor, or panics with the report where a fan is missing.
fn init_or_panic<const D: usize>(
    initializer: &Initializer<f64>,
    shape: [usize; D],
    fan_in: Option<usize>,
    fan_out: Option<usize>,
) -> Tensor<TB, D> {
    match initializer.try_init_with(shape, fan_in, fan_out) {
        Ok(request) => tensor(request),
        Err(missing) => panic!("{}", missing.message()),
    }
}

fn assert_normal_init(expected_mean: f64, expected_var: f64, tensor: &Tensor<TB, 2>) {
    let (actual_vars, actual_means) = tensor.clone().var_mean(0);

    for i in 0..tensor.shape().dims[0] {
        let actual_var = actual_vars.to_data().value[i] as f64;
        let actual_mean = actual_means.to_data().value[i] as f64;

        assert!(
            (expected_var - actual_var).abs() <= 0.1,
            "Expected variance to be between {expected_var} += 0.1, but got {actual_var}"
        );
        assert!(
            (expected_mean - actual_mean).abs() <= 0.1,
            "Expected mean to be between {expected_mean} += 0.1, but got {actual_mean}"
        );
    }
}

#[test]
fn initializer_uniform_init() {
    TB::seed(0);

    let (min, max) = (0.0, 1.0);
    let uniform = Initializer::Uniform { min, max };
    let tensor: Tensor<TB, 4> = tensor(uniform.init([2, 2, 2, 2]));

    tensor.into_data().assert_within_range(min..max);
}

#[test]
fn initializer_normal_init() {
    // seed random generator
    TB::seed(0);
    let (mean, std) = (0.0, 1.0);
    let normal: Tensor<TB, 1> = tensor(Initializer::Normal { mean, std }.init([1000]));
    let (var_act, mean_act) = normal.var_mean(0);

    let var_act: f32 = var_act.into_scalar().elem();
    let mean_act: f32 = mean_act.into_scalar().elem();

    assert!(
        var_act > 0.9 && var_act < 1.1,
        "Expected variance to be between 1.0 += 0.1, but got {var_act}"
    );
    assert!(
        mean_act > -0.1 && mean_act < 0.1,
        "Expected mean to be between 0.0 += 0.1, but got {mean_act}"
    );
}

#[test]
fn initializer_constant_init() {
    let value = 5.0;
    let constants: Tensor<TB, 4> = tensor(Initializer::Constant { value }.init([2, 2, 2, 2]));
    constants
        .sum()
        .to_data()
        .assert_approx_eq(&Data::from([value as f32 * 16.0]), 3);
}

#[test]
fn initializer_zeros_init() {
    let zeros: Tensor<TB, 4> = tensor(Initializer::<f64>::Zeros.init([2, 2, 2, 2]));
    zeros
        .sum()
        .to_data()
        .assert_approx_eq(&Data::from([0.0]), 3);
}

#[test]
fn initializer_ones_init() {
    let ones: Tensor<TB, 4> = tensor(Initializer::<f64>::Ones.init([2, 2, 2, 2]));
    ones.sum()
        .to_data()
        .assert_approx_eq(&Data::from([16.0]), 3);
}

#[test]
fn initializer_kaiming_uniform_init() {
    TB::seed(0);

    let gain = 2_f64;
    let (fan_in, fan_out) = (5, 6);
    let k = gain * sqrt(3.0 / fan_in as f64);

    let tensor: Tensor<TB, 2> = tensor(
        Initializer::KaimingUniform {
            gain,
            fan_out_only: false,
        }
        .init_with([fan_out, fan_in], Some(fan_in), None),
    );
    tensor.into_data().assert_within_range(-k..k);
}

#[test]
fn initializer_kaiming_normal_init() {
    TB::seed(0);

    let gain = 2.;
    let (fan_in, fan_out) = (1000, 10);
    let expected_mean = 0_f64;

    let expected_var = (gain * sqrt(1. / (fan_in as f64))).powf(2.);
    let tensor: Tensor<TB, 2> = tensor(
        Initializer::KaimingNormal {
            gain,
            fan_out_only: false,
        }
        .init_with([fan_out, fan_in], Some(fan_in), None),
    );
    assert_normal_init(expected_mean, expected_var, &tensor)
}

#[test]
fn initializer_kaiming_uniform_init_bias() {
    TB::seed(0);

    let gain = 2_f64;
    let shape = [3];
    let fan_in = 5;
    let k = gain * sqrt(3.0 / fan_in as f64);

    let tensor: Tensor<TB, 1> = tensor(
        Initializer::KaimingUniform {
            gain,
            fan_out_only: false,
        }
        .init_with(shape, Some(fan_in), None),
    );
    tensor.into_data().assert_within_range(-k..k);
}

#[test]
fn initializer_kaiming_uniform_init_fan_out() {
    TB::seed(0);

    let gain = 2_f64;
    let (fan_in, fan_out) = (5, 6);
    let k = gain * sqrt(3.0 / fan_out as f64);

    let tensor: Tensor<TB, 2> = tensor(
        Initializer::KaimingUniform {
            gain,
            fan_out_only: true,
        }
        .init_with([fan_out, fan_in], None, Some(fan_out)),
    );
    tensor.into_data().assert_within_range(-k..k);
}

#[test]
#[should_panic]
fn initializer_kaiming_uniform_no_fan() {
    TB::seed(0);

    let gain = 2_f64;
    let (fan_in, fan_out) = (5, 6);

    let _: Tensor<TB, 2> = init_or_panic(
        &Initializer::KaimingUniform {
            gain,
            fan_out_only: false,
        },
        [fan_out, fan_in],
        None,
        None,
    );
}

#[test]
fn initializer_xavier_uniform_init() {
    TB::seed(0);

    let gain = 2.;
    let (fan_in, fan_out) = (5, 6);
    let bound = gain * sqrt(6. / (fan_in + fan_out) as f64);
    let tensor: Tensor<TB, 2> = tensor(Initializer::XavierUniform { gain }.init_with(
        [fan_out, fan_in],
        Some(fan_in),
        Some(fan_out),
    ));

    tensor.into_data().assert_within_range(-bound..bound);
}

#[test]
fn initializer_xavier_normal_init() {
    TB::seed(0);

    let gain = 2.;
    let (fan_in, fan_out) = (1000, 10);
    let expected_mean = 0_f64;

    let expected_var = (gain * sqrt(2. / (fan_in as f64 + fan_out as f64))).powf(2.);
    let tensor: Tensor<TB, 2> = tensor(Initializer::XavierNormal { gain }.init_with(
        [fan_out, fan_in],
        Some(fan_in),
        Some(fan_out),
    ));
    assert_normal_init(expected_mean, expected_var, &tensor)
}

#[test]
#[should_panic]
fn initializer_xavier_uniform_no_fan() {
    TB::seed(0);

    let gain = 2.;
    let (fan_in, fan_out) = (5, 6);
    let _: Tensor<TB, 2> =
        init_or_panic(&Initializer::XavierUniform { gain }, [fan_out, fan_in], None, None);
}

#[test]
fn constant_fills_every_element() {
    let value = -2.5;
    let constants: Tensor<TB, 3> = tensor(Initializer::Constant { value }.init([2, 3, 4]));
    let data = constants.into_data();
    assert_eq!(data.value.len(), 24);
    assert!(data.value.iter().all(|element| *element == -2.5_f32));
}

#[test]
fn constant_ignores_fans() {
    let value = 0.75;
    let constants: Tensor<TB, 2> =
        tensor(Initializer::Constant { value }.init_with([3, 2], Some(7), Some(9)));
    constants
        .sum()
        .to_data()
        .assert_approx_eq(&Data::from([0.75_f32 * 6.0]), 3);
}

#[test]
fn ones_and_zeros_fill_every_element() {
    let ones: Tensor<TB, 2> = tensor(Initializer::<f64>::Ones.init([3, 5]));
    assert!(ones.into_data().value.iter().all(|element| *element == 1.0_f32));
    let zeros: Tensor<TB, 2> = tensor(Initializer::<f64>::Zeros.init([3, 5]));
    assert!(zeros.into_data().value.iter().all(|element| *element == 0.0_f32));
}

#[test]
fn uniform_draws_stay_between_the_bounds() {
    TB::seed(7);
    let (min, max) = (-3.0, 5.0);
    let drawn: Tensor<TB, 1> = tensor(Initializer::Uniform { min, max }.init([4000]));
    let data = drawn.clone().into_data();
    assert!(data.value.iter().all(|element| -3.0 <= *element && *element <= 5.0));
    let mean: f32 = drawn.mean().into_scalar().elem();
    assert!((mean - 1.0).abs() < 0.2, "the mean of the draws is {mean}");
}

#[test]
fn same_seed_gives_the_same_draws() {
    let normal = Initializer::Normal { mean: 1.0, std: 2.0 };
    TB::seed(42);
    let first: Tensor<TB, 2> = tensor(normal.init([8, 8]));
    let second: Tensor<TB, 2> = tensor(normal.init([8, 8]));
    TB::seed(42);
    let first_again: Tensor<TB, 2> = tensor(normal.init([8, 8]));
    let second_again: Tensor<TB, 2> = tensor(normal.init([8, 8]));
    assert_eq!(first.to_data(), first_again.into_data());
    assert_eq!(second.to_data(), second_again.into_data());
    assert_ne!(first.into_data(), second.into_data());
}

#[test]
fn tensor_has_the_requested_shape() {
    TB::seed(0);
    let made: Tensor<TB, 3> =
        tensor(Initializer::XavierNormal { gain: 1.0 }.init_with([2, 3, 4], Some(3), Some(4)));
    assert_eq!(made.shape().dims, [2, 3, 4]);
}
