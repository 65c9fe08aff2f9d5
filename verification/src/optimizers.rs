//! The optimizer family: six update rules, each a set of hyperparameters
//! fixed when the optimizer is made. A hyperparameter is kept as the bit
//! pattern of a single-precision number, and no range is asked of it here:
//! what the foreign side makes of a value is its own affair.

use vstd::prelude::*;
use crate::foreign::{Kind, ObjectView};
use crate::handle::Handle;
use crate::library::{message, Library};
use crate::status::{from_api_status, Failure};
use crate::wrap::{made, replied, wrap_reply, Wrap};

verus! {

/// An update rule with its hyperparameters.
#[derive(Clone, Copy, Debug, PartialEq, Eq, Structural)]
pub enum Rule {
    Sgd { eta: u32 },
    MomentumSgd { eta: u32, momentum: u32 },
    AdaGrad { eta: u32, eps: u32 },
    RmsProp { eta: u32, alpha: u32, eps: u32 },
    AdaDelta { rho: u32, eps: u32 },
    Adam { alpha: u32, beta1: u32, beta2: u32, eps: u32 },
}

/// Default `eta` of `SGD`: the single-precision number nearest to 0.1.
pub const SGD_ETA: u32 = 0x3dcc_cccd;

/// Default `eta` of `MomentumSGD`: the single-precision number nearest to 0.01.
pub const MOMENTUM_SGD_ETA: u32 = 0x3c23_d70a;

/// Default `momentum` of `MomentumSGD`: the single-precision number nearest to 0.9.
pub const MOMENTUM_SGD_MOMENTUM: u32 = 0x3f66_6666;

/// Default `eta` of `AdaGrad`: the single-precision number nearest to 0.001.
pub const ADA_GRAD_ETA: u32 = 0x3a83_126f;

/// Default `eps` of `AdaGrad`: the single-precision number nearest to 1e-8.
pub const ADA_GRAD_EPS: u32 = 0x322b_cc77;

/// Default `eta` of `RMSProp`: the single-precision number nearest to 0.01.
pub const RMS_PROP_ETA: u32 = 0x3c23_d70a;

/// Default `alpha` of `RMSProp`: the single-precision number nearest to 0.9.
pub const RMS_PROP_ALPHA: u32 = 0x3f66_6666;

/// Default `eps` of `RMSProp`: the single-precision number nearest to 1e-8.
pub const RMS_PROP_EPS: u32 = 0x322b_cc77;

/// Default `rho` of `AdaDelta`: the single-precision number nearest to 0.95.
pub const ADA_DELTA_RHO: u32 = 0x3f73_3333;

/// Default `eps` of `AdaDelta`: the single-precision number nearest to 1e-6.
pub const ADA_DELTA_EPS: u32 = 0x3586_37bd;

/// Default `alpha` of `Adam`: the single-precision number nearest to 0.001.
pub const ADAM_ALPHA: u32 = 0x3a83_126f;

/// Default `beta1` of `Adam`: the single-precision number nearest to 0.9.
pub const ADAM_BETA1: u32 = 0x3f66_6666;

/// Default `beta2` of `Adam`: the single-precision number nearest to 0.999.
pub const ADAM_BETA2: u32 = 0x3f7f_be77;

/// Default `eps` of `Adam`: the single-precision number nearest to 1e-8.
pub const ADAM_EPS: u32 = 0x322b_cc77;

/// An entity that wraps an optimizer.
pub trait Optimizer: Wrap {

}

/// The update rule that `optimizer` was made with.
pub fn rule_of<O: Optimizer>(lib: &Library, optimizer: &O) -> (result: Result<Rule, Failure>)
    ensures
        replied(result, lib@.delete_status(optimizer.handle().addr(), Kind::Optimizer)),
        result matches Ok(rule) ==> lib@.object(optimizer.handle().addr()) == ObjectView::Optimizer(
            rule,
        ),
{
    let reply: (u32, Option<Rule>) = lib.get_optimizer_rule(optimizer.as_ptr());
    match from_api_status(reply.0, reply.1, message(reply.0)) {
        Ok(Some(rule)) => Ok(rule),
        Ok(None) => Err(Failure::NullHandle),
        Err(status) => Err(Failure::from_status(status)),
    }
}

/// Simple stochastic gradient descent.
#[derive(Debug)]
pub struct SGD {
    handle: Handle,
}

impl Wrap for SGD {
    closed spec fn handle(&self) -> Handle {
        self.handle
    }

    open spec fn kind() -> Kind {
        Kind::Optimizer
    }

    fn from_raw(addr: usize, owned: bool) -> (result: Result<Self, Failure>) {
        match Handle::from_raw(addr, owned) {
            Ok(handle) => Ok(SGD { handle }),
            Err(failure) => Err(failure),
        }
    }

    fn as_ptr(&self) -> (addr: usize) {
        self.handle.as_ptr()
    }

    fn as_mut_ptr(&mut self) -> (addr: usize) {
        self.handle.as_mut_ptr()
    }

    fn is_owned(&self) -> (owned: bool) {
        self.handle.is_owned()
    }

    fn into_handle(self) -> (handle: Handle) {
        self.handle
    }

    fn object_kind() -> (kind: Kind) {
        Kind::Optimizer
    }
}

impl Optimizer for SGD {

}

impl SGD {
    /// Makes the optimizer with the given hyperparameters and owns it.
    pub fn new(lib: &mut Library, eta: u32) -> (result: Result<SGD, Failure>)
        ensures
            final(lib)@ == old(lib)@.create(ObjectView::Optimizer(Rule::Sgd { eta })),
            made(result, old(lib)@, old(lib)@.create_status()),
    {
        let reply: (u32, usize) = lib.create_optimizer(Rule::Sgd { eta });
        wrap_reply(reply, true, message(reply.0))
    }

    /// Makes the optimizer with its default hyperparameters and owns it.
    pub fn default(lib: &mut Library) -> (result: Result<SGD, Failure>)
        ensures
            final(lib)@ == old(lib)@.create(ObjectView::Optimizer(Rule::Sgd { eta: SGD_ETA })),
            made(result, old(lib)@, old(lib)@.create_status()),
    {
        SGD::new(lib, SGD_ETA)
    }
}

/// Stochastic gradient descent with momentum.
#[derive(Debug)]
pub struct MomentumSGD {
    handle: Handle,
}

impl Wrap for MomentumSGD {
    closed spec fn handle(&self) -> Handle {
        self.handle
    }

    open spec fn kind() -> Kind {
        Kind::Optimizer
    }

    fn from_raw(addr: usize, owned: bool) -> (result: Result<Self, Failure>) {
        match Handle::from_raw(addr, owned) {
            Ok(handle) => Ok(MomentumSGD { handle }),
            Err(failure) => Err(failure),
        }
    }

    fn as_ptr(&self) -> (addr: usize) {
        self.handle.as_ptr()
    }

    fn as_mut_ptr(&mut self) -> (addr: usize) {
        self.handle.as_mut_ptr()
    }

    fn is_owned(&self) -> (owned: bool) {
        self.handle.is_owned()
    }

    fn into_handle(self) -> (handle: Handle) {
        self.handle
    }

    fn object_kind() -> (kind: Kind) {
        Kind::Optimizer
    }
}

impl Optimizer for MomentumSGD {

}

impl MomentumSGD {
    /// Makes the optimizer with the given hyperparameters and owns it.
    pub fn new(lib: &mut Library, eta: u32, momentum: u32) -> (result: Result<MomentumSGD, Failure>)
        ensures
            final(lib)@ == old(lib)@.create(
                ObjectView::Optimizer(
                    Rule::MomentumSgd {
                        eta,
                        momentum,
                    },
                ),
            ),
            made(result, old(lib)@, old(lib)@.create_status()),
    {
        let reply: (u32, usize) = lib.create_optimizer(Rule::MomentumSgd { eta, momentum });
        wrap_reply(reply, true, message(reply.0))
    }

    /// Makes the optimizer with its default hyperparameters and owns it.
    pub fn default(lib: &mut Library) -> (result: Result<MomentumSGD, Failure>)
        ensures
            final(lib)@ == old(lib)@.create(
                ObjectView::Optimizer(
                    Rule::MomentumSgd {
                        eta: MOMENTUM_SGD_ETA,
                        momentum: MOMENTUM_SGD_MOMENTUM,
                    },
                ),
            ),
            made(result, old(lib)@, old(lib)@.create_status()),
    {
        MomentumSGD::new(lib, MOMENTUM_SGD_ETA, MOMENTUM_SGD_MOMENTUM)
    }
}

/// The AdaGrad optimizer.
#[derive(Debug)]
pub struct AdaGrad {
    handle: Handle,
}

impl Wrap for AdaGrad {
    closed spec fn handle(&self) -> Handle {
        self.handle
    }

    open spec fn kind() -> Kind {
        Kind::Optimizer
    }

    fn from_raw(addr: usize, owned: bool) -> (result: Result<Self, Failure>) {
        match Handle::from_raw(addr, owned) {
            Ok(handle) => Ok(AdaGrad { handle }),
            Err(failure) => Err(failure),
        }
    }

    fn as_ptr(&self) -> (addr: usize) {
        self.handle.as_ptr()
    }

    fn as_mut_ptr(&mut self) -> (addr: usize) {
        self.handle.as_mut_ptr()
    }

    fn is_owned(&self) -> (owned: bool) {
        self.handle.is_owned()
    }

    fn into_handle(self) -> (handle: Handle) {
        self.handle
    }

    fn object_kind() -> (kind: Kind) {
        Kind::Optimizer
    }
}

impl Optimizer for AdaGrad {

}

impl AdaGrad {
    /// Makes the optimizer with the given hyperparameters and owns it.
    pub fn new(lib: &mut Library, eta: u32, eps: u32) -> (result: Result<AdaGrad, Failure>)
        ensures
            final(lib)@ == old(lib)@.create(ObjectView::Optimizer(Rule::AdaGrad { eta, eps })),
            made(result, old(lib)@, old(lib)@.create_status()),
    {
        let reply: (u32, usize) = lib.create_optimizer(Rule::AdaGrad { eta, eps });
        wrap_reply(reply, true, message(reply.0))
    }

    /// Makes the optimizer with its default hyperparameters and owns it.
    pub fn default(lib: &mut Library) -> (result: Result<AdaGrad, Failure>)
        ensures
            final(lib)@ == old(lib)@.create(
                ObjectView::Optimizer(
                    Rule::AdaGrad {
                        eta: ADA_GRAD_ETA,
                        eps: ADA_GRAD_EPS,
                    },
                ),
            ),
            made(result, old(lib)@, old(lib)@.create_status()),
    {
        AdaGrad::new(lib, ADA_GRAD_ETA, ADA_GRAD_EPS)
    }
}

/// The RMSProp optimizer.
#[derive(Debug)]
pub struct RMSProp {
    handle: Handle,
}

impl Wrap for RMSProp {
    closed spec fn handle(&self) -> Handle {
        self.handle
    }

    open spec fn kind() -> Kind {
        Kind::Optimizer
    }

    fn from_raw(addr: usize, owned: bool) -> (result: Result<Self, Failure>) {
        match Handle::from_raw(addr, owned) {
            Ok(handle) => Ok(RMSProp { handle }),
            Err(failure) => Err(failure),
        }
    }

    fn as_ptr(&self) -> (addr: usize) {
        self.handle.as_ptr()
    }

    fn as_mut_ptr(&mut self) -> (addr: usize) {
        self.handle.as_mut_ptr()
    }

    fn is_owned(&self) -> (owned: bool) {
        self.handle.is_owned()
    }

    fn into_handle(self) -> (handle: Handle) {
        self.handle
    }

    fn object_kind() -> (kind: Kind) {
        Kind::Optimizer
    }
}

impl Optimizer for RMSProp {

}

impl RMSProp {
    /// Makes the optimizer with the given hyperparameters and owns it.
    pub fn new(lib: &mut Library, eta: u32, alpha: u32, eps: u32) -> (result: Result<
        RMSProp,
        Failure,
    >)
        ensures
            final(lib)@ == old(lib)@.create(
                ObjectView::Optimizer(
                    Rule::RmsProp {
                        eta,
                        alpha,
                        eps,
                    },
                ),
            ),
            made(result, old(lib)@, old(lib)@.create_status()),
    {
        let reply: (u32, usize) = lib.create_optimizer(Rule::RmsProp { eta, alpha, eps });
        wrap_reply(reply, true, message(reply.0))
    }

    /// Makes the optimizer with its default hyperparameters and owns it.
    pub fn default(lib: &mut Library) -> (result: Result<RMSProp, Failure>)
        ensures
            final(lib)@ == old(lib)@.create(
                ObjectView::Optimizer(
                    Rule::RmsProp {
                        eta: RMS_PROP_ETA,
                        alpha: RMS_PROP_ALPHA,
                        eps: RMS_PROP_EPS,
                    },
                ),
            ),
            made(result, old(lib)@, old(lib)@.create_status()),
    {
        RMSProp::new(lib, RMS_PROP_ETA, RMS_PROP_ALPHA, RMS_PROP_EPS)
    }
}

/// The AdaDelta optimizer.
#[derive(Debug)]
pub struct AdaDelta {
    handle: Handle,
}

impl Wrap for AdaDelta {
    closed spec fn handle(&self) -> Handle {
        self.handle
    }

    open spec fn kind() -> Kind {
        Kind::Optimizer
    }

    fn from_raw(addr: usize, owned: bool) -> (result: Result<Self, Failure>) {
        match Handle::from_raw(addr, owned) {
            Ok(handle) => Ok(AdaDelta { handle }),
            Err(failure) => Err(failure),
        }
    }

    fn as_ptr(&self) -> (addr: usize) {
        self.handle.as_ptr()
    }

    fn as_mut_ptr(&mut self) -> (addr: usize) {
        self.handle.as_mut_ptr()
    }

    fn is_owned(&self) -> (owned: bool) {
        self.handle.is_owned()
    }

    fn into_handle(self) -> (handle: Handle) {
        self.handle
    }

    fn object_kind() -> (kind: Kind) {
        Kind::Optimizer
    }
}

impl Optimizer for AdaDelta {

}

impl AdaDelta {
    /// Makes the optimizer with the given hyperparameters and owns it.
    pub fn new(lib: &mut Library, rho: u32, eps: u32) -> (result: Result<AdaDelta, Failure>)
        ensures
            final(lib)@ == old(lib)@.create(ObjectView::Optimizer(Rule::AdaDelta { rho, eps })),
            made(result, old(lib)@, old(lib)@.create_status()),
    {
        let reply: (u32, usize) = lib.create_optimizer(Rule::AdaDelta { rho, eps });
        wrap_reply(reply, true, message(reply.0))
    }

    /// Makes the optimizer with its default hyperparameters and owns it.
    pub fn default(lib: &mut Library) -> (result: Result<AdaDelta, Failure>)
        ensures
            final(lib)@ == old(lib)@.create(
                ObjectView::Optimizer(
                    Rule::AdaDelta {
                        rho: ADA_DELTA_RHO,
                        eps: ADA_DELTA_EPS,
                    },
                ),
            ),
            made(result, old(lib)@, old(lib)@.create_status()),
    {
        AdaDelta::new(lib, ADA_DELTA_RHO, ADA_DELTA_EPS)
    }
}

/// The Adam optimizer.
#[derive(Debug)]
pub struct Adam {
    handle: Handle,
}

impl Wrap for Adam {
    closed spec fn handle(&self) -> Handle {
        self.handle
    }

    open spec fn kind() -> Kind {
        Kind::Optimizer
    }

    fn from_raw(addr: usize, owned: bool) -> (result: Result<Self, Failure>) {
        match Handle::from_raw(addr, owned) {
            Ok(handle) => Ok(Adam { handle }),
            Err(failure) => Err(failure),
        }
    }

    fn as_ptr(&self) -> (addr: usize) {
        self.handle.as_ptr()
    }

    fn as_mut_ptr(&mut self) -> (addr: usize) {
        self.handle.as_mut_ptr()
    }

    fn is_owned(&self) -> (owned: bool) {
        self.handle.is_owned()
    }

    fn into_handle(self) -> (handle: Handle) {
        self.handle
    }

    fn object_kind() -> (kind: Kind) {
        Kind::Optimizer
    }
}

impl Optimizer for Adam {

}

impl Adam {
    /// Makes the optimizer with the given hyperparameters and owns it.
    pub fn new(lib: &mut Library, alpha: u32, beta1: u32, beta2: u32, eps: u32) -> (result: Result<
        Adam,
        Failure,
    >)
        ensures
            final(lib)@ == old(lib)@.create(
                ObjectView::Optimizer(
                    Rule::Adam {
                        alpha,
                        beta1,
                        beta2,
                        eps,
                    },
                ),
            ),
            made(result, old(lib)@, old(lib)@.create_status()),
    {
        let reply: (u32, usize) = lib.create_optimizer(Rule::Adam { alpha, beta1, beta2, eps });
        wrap_reply(reply, true, message(reply.0))
    }

    /// Makes the optimizer with its default hyperparameters and owns it.
    pub fn default(lib: &mut Library) -> (result: Result<Adam, Failure>)
        ensures
            final(lib)@ == old(lib)@.create(
                ObjectView::Optimizer(
                    Rule::Adam {
                        alpha: ADAM_ALPHA,
                        beta1: ADAM_BETA1,
                        beta2: ADAM_BETA2,
                        eps: ADAM_EPS,
                    },
                ),
            ),
            made(result, old(lib)@, old(lib)@.create_status()),
    {
        Adam::new(lib, ADAM_ALPHA, ADAM_BETA1, ADAM_BETA2, ADAM_EPS)
    }
}

} // verus!
