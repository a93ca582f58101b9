//! OSC messages as this tool builds them for sending.
use vstd::prelude::*;
use vstd::string::StringExecFns;
use crate::argument::{all_supported, models, Argument, ArgumentModel};
use crate::infer::{infer_arguments, inferred, FloatReadings};

verus! {

/// An OSC message: an address pattern and its arguments in order.
#[derive(Clone, Debug, PartialEq, Eq)]
pub struct Message {
    pub addr: String,
    pub args: Vec<Argument>,
}

impl View for Message {
    type V = (Seq<char>, Seq<ArgumentModel>);

    open spec fn view(&self) -> (Seq<char>, Seq<ArgumentModel>) {
        (self.addr@, models(self.args@))
    }
}

/// The message for `addr` and the tokens given, each token typed by
/// inference; `readings[i]` is what reading `tokens[i]` as a float gave.
pub fn build_message(addr: &str, tokens: &Vec<String>, readings: &Vec<FloatReadings>) -> (r:
    Message)
    requires
        readings@.len() == tokens@.len(),
    ensures
        r.addr@ == addr@,
        r.args@.len() == tokens@.len(),
        forall|i: int|
            0 <= i < r.args@.len() ==> #[trigger] r.args@[i]@ == inferred(
                tokens@[i]@,
                readings@[i],
            ),
        all_supported(r@.1),
{
    let args = infer_arguments(tokens, readings);
    let r = Message { addr: String::from_str(addr), args };
    assert forall|i: int| 0 <= i < r@.1.len() implies crate::argument::is_supported(
        #[trigger] r@.1[i],
    ) by {
        assert(r@.1[i] == r.args@[i]@);
    }
    r
}

/// The message sent on each tick of the sampler: one 32-bit float, given by
/// its bit pattern, to `addr`.
pub fn sample_message(addr: &str, value_bits: u32) -> (r: Message)
    ensures
        r@ == (addr@, seq![ArgumentModel::Float32(value_bits)]),
{
    let r = Message { addr: String::from_str(addr), args: vec![Argument::Float32(value_bits)] };
    assert(r@.1 =~= seq![ArgumentModel::Float32(value_bits)]);
    r
}

} // verus!
