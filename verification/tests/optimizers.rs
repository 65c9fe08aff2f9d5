use primitiv::library::Library;
use primitiv::optimizers::{
    rule_of, AdaDelta, AdaGrad, Adam, MomentumSGD, RMSProp, Rule, ADAM_ALPHA, ADAM_BETA1,
    ADAM_BETA2, ADAM_EPS, ADA_DELTA_EPS, ADA_DELTA_RHO, ADA_GRAD_EPS, ADA_GRAD_ETA,
    MOMENTUM_SGD_ETA, MOMENTUM_SGD_MOMENTUM, RMS_PROP_ALPHA, RMS_PROP_EPS, RMS_PROP_ETA, SGD,
    SGD_ETA,
};
use primitiv::status::{Failure, NOT_SUPPORTED};
use primitiv::wrap::{release, Wrap};

#[test]
fn the_default_hyperparameters_are_the_documented_numbers() {
    assert_eq!(f32::from_bits(SGD_ETA), 0.1);
    assert_eq!(f32::from_bits(MOMENTUM_SGD_ETA), 0.01);
    assert_eq!(f32::from_bits(MOMENTUM_SGD_MOMENTUM), 0.9);
    assert_eq!(f32::from_bits(ADA_GRAD_ETA), 0.001);
    assert_eq!(f32::from_bits(ADA_GRAD_EPS), 1e-8);
    assert_eq!(f32::from_bits(RMS_PROP_ETA), 0.01);
    assert_eq!(f32::from_bits(RMS_PROP_ALPHA), 0.9);
    assert_eq!(f32::from_bits(RMS_PROP_EPS), 1e-8);
    assert_eq!(f32::from_bits(ADA_DELTA_RHO), 0.95);
    assert_eq!(f32::from_bits(ADA_DELTA_EPS), 1e-6);
    assert_eq!(f32::from_bits(ADAM_ALPHA), 0.001);
    assert_eq!(f32::from_bits(ADAM_BETA1), 0.9);
    assert_eq!(f32::from_bits(ADAM_BETA2), 0.999);
    assert_eq!(f32::from_bits(ADAM_EPS), 1e-8);
}

#[test]
fn sgd_default_has_eta_one_tenth() {
    let mut lib = Library::new();
    let optimizer = SGD::default(&mut lib).unwrap();
    assert_eq!(
        rule_of(&lib, &optimizer).unwrap(),
        Rule::Sgd { eta: 0.1f32.to_bits() }
    );
}

#[test]
fn momentum_sgd_default_matches() {
    let mut lib = Library::new();
    let optimizer = MomentumSGD::default(&mut lib).unwrap();
    assert_eq!(
        rule_of(&lib, &optimizer).unwrap(),
        Rule::MomentumSgd { eta: 0.01f32.to_bits(), momentum: 0.9f32.to_bits() }
    );
}

#[test]
fn ada_grad_default_matches() {
    let mut lib = Library::new();
    let optimizer = AdaGrad::default(&mut lib).unwrap();
    assert_eq!(
        rule_of(&lib, &optimizer).unwrap(),
        Rule::AdaGrad { eta: 0.001f32.to_bits(), eps: 1e-8f32.to_bits() }
    );
}

#[test]
fn rms_prop_default_matches() {
    let mut lib = Library::new();
    let optimizer = RMSProp::default(&mut lib).unwrap();
    assert_eq!(
        rule_of(&lib, &optimizer).unwrap(),
        Rule::RmsProp {
            eta: 0.01f32.to_bits(),
            alpha: 0.9f32.to_bits(),
            eps: 1e-8f32.to_bits()
        }
    );
}

#[test]
fn ada_delta_default_matches() {
    let mut lib = Library::new();
    let optimizer = AdaDelta::default(&mut lib).unwrap();
    assert_eq!(
        rule_of(&lib, &optimizer).unwrap(),
        Rule::AdaDelta { rho: 0.95f32.to_bits(), eps: 1e-6f32.to_bits() }
    );
}

#[test]
fn adam_default_matches() {
    let mut lib = Library::new();
    let optimizer = Adam::default(&mut lib).unwrap();
    assert_eq!(
        rule_of(&lib, &optimizer).unwrap(),
        Rule::Adam {
            alpha: 0.001f32.to_bits(),
            beta1: 0.9f32.to_bits(),
            beta2: 0.999f32.to_bits(),
            eps: 1e-8f32.to_bits()
        }
    );
}

#[test]
fn new_keeps_the_hyperparameters_it_is_given() {
    let mut lib = Library::new();
    let sgd = SGD::new(&mut lib, 0.5f32.to_bits()).unwrap();
    let momentum = MomentumSGD::new(&mut lib, 1.0f32.to_bits(), 2.0f32.to_bits()).unwrap();
    let ada_grad = AdaGrad::new(&mut lib, 3.0f32.to_bits(), 4.0f32.to_bits()).unwrap();
    let rms_prop =
        RMSProp::new(&mut lib, 5.0f32.to_bits(), 6.0f32.to_bits(), 7.0f32.to_bits()).unwrap();
    let ada_delta = AdaDelta::new(&mut lib, 8.0f32.to_bits(), 9.0f32.to_bits()).unwrap();
    let adam = Adam::new(
        &mut lib,
        10.0f32.to_bits(),
        11.0f32.to_bits(),
        12.0f32.to_bits(),
        13.0f32.to_bits(),
    )
    .unwrap();
    assert_eq!(rule_of(&lib, &sgd).unwrap(), Rule::Sgd { eta: 0x3f00_0000 });
    assert_eq!(
        rule_of(&lib, &momentum).unwrap(),
        Rule::MomentumSgd { eta: 1.0f32.to_bits(), momentum: 2.0f32.to_bits() }
    );
    assert_eq!(
        rule_of(&lib, &ada_grad).unwrap(),
        Rule::AdaGrad { eta: 3.0f32.to_bits(), eps: 4.0f32.to_bits() }
    );
    assert_eq!(
        rule_of(&lib, &rms_prop).unwrap(),
        Rule::RmsProp { eta: 5.0f32.to_bits(), alpha: 6.0f32.to_bits(), eps: 7.0f32.to_bits() }
    );
    assert_eq!(
        rule_of(&lib, &ada_delta).unwrap(),
        Rule::AdaDelta { rho: 8.0f32.to_bits(), eps: 9.0f32.to_bits() }
    );
    assert_eq!(
        rule_of(&lib, &adam).unwrap(),
        Rule::Adam {
            alpha: 10.0f32.to_bits(),
            beta1: 11.0f32.to_bits(),
            beta2: 12.0f32.to_bits(),
            eps: 13.0f32.to_bits()
        }
    );
}

#[test]
fn hyperparameters_out_of_any_sensible_range_are_taken_as_they_are() {
    let mut lib = Library::new();
    let negative = SGD::new(&mut lib, (-1.0f32).to_bits()).unwrap();
    assert_eq!(
        rule_of(&lib, &negative).unwrap(),
        Rule::Sgd { eta: (-1.0f32).to_bits() }
    );
    let not_a_number = SGD::new(&mut lib, f32::NAN.to_bits()).unwrap();
    assert_eq!(
        rule_of(&lib, &not_a_number).unwrap(),
        Rule::Sgd { eta: f32::NAN.to_bits() }
    );
}

#[test]
fn an_optimizer_owns_its_object() {
    let mut lib = Library::new();
    let optimizer = Adam::default(&mut lib).unwrap();
    let addr = optimizer.as_ptr();
    assert_eq!(addr, 1);
    assert!(optimizer.is_owned());
    release(&mut lib, optimizer).unwrap();
    assert_eq!(lib.release_count(addr), 1);
}

#[test]
fn a_released_optimizer_has_no_rule_to_read() {
    let mut lib = Library::new();
    let optimizer = SGD::default(&mut lib).unwrap();
    let addr = optimizer.as_ptr();
    release(&mut lib, optimizer).unwrap();
    let view = SGD::from_raw(addr, false).unwrap();
    match rule_of(&lib, &view) {
        Err(Failure::Construction(status)) => assert_eq!(status.raw(), NOT_SUPPORTED),
        other => panic!("{:?}", other),
    }
}

#[test]
fn a_handle_to_something_else_is_no_optimizer() {
    let mut lib = Library::new();
    let device = primitiv::devices::Naive::new(&mut lib).unwrap();
    let wrong = SGD::from_raw(device.as_ptr(), false).unwrap();
    assert!(matches!(rule_of(&lib, &wrong), Err(Failure::Construction(_))));
}
