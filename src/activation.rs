use libc::c_int;
use vstd::prelude::*;

verus! {

/// The elementwise nonlinearity applied after a layer's linear part.
#[derive(Clone, Copy, Debug, PartialEq, Eq, Structural)]
pub enum Activation {
    Tanh,
    Sigmoid,
    Relu,
}

/// The integer code under which each activation is stored in a layer record.
pub open spec fn code_of(a: Activation) -> int {
    match a {
        Activation::Tanh => 0,
        Activation::Sigmoid => 1,
        Activation::Relu => 2,
    }
}

impl Activation {
    /// Decodes a stored activation code; any code outside 0, 1, 2 is refused.
    pub fn from_code(code: c_int) -> (r: Option<Activation>)
        ensures
            r matches Some(a) ==> code_of(a) == code as int,
            r is None <==> !(0 <= code <= 2),
    {
        if code == 0 {
            Some(Activation::Tanh)
        } else if code == 1 {
            Some(Activation::Sigmoid)
        } else if code == 2 {
            Some(Activation::Relu)
        } else {
            None
        }
    }

    /// The code under which this activation is stored.
    pub fn code(&self) -> (r: c_int)
        ensures
            r as int == code_of(*self),
    {
        match self {
            Activation::Tanh => 0,
            Activation::Sigmoid => 1,
            Activation::Relu => 2,
        }
    }
}

} // verus!
