//! The rule engine: runs an ordered collection of configured rules against
//! one message and aggregates their violations.

use vstd::prelude::*;

use crate::message::Message;
use crate::result::{Violation, ViolationModel};
use crate::rule::Rule;

verus! {

/// The violations an ordered list of rules produces for a message: each
/// rule's violation, if any, in the rules' order.
pub open spec fn spec_evaluate<R: Rule>(rules: Seq<R>, m: Message) -> Seq<ViolationModel>
    decreases rules.len(),
{
    if rules.len() == 0 {
        Seq::empty()
    } else {
        (match rules[0].spec_validate(m) {
            Some(v) => seq![v],
            None => Seq::empty(),
        }) + spec_evaluate(rules.drop_first(), m)
    }
}

/// Runs every configured rule against `message`, in the given order, and
/// returns the violations they produce, in the same order. Rules that are
/// satisfied contribute nothing; no violation is dropped, changed or
/// reordered, and the engine itself never fails.
pub fn evaluate<R: Rule>(message: &Message, rules: &Vec<R>) -> (r: Vec<Violation>)
    ensures
        r.deep_view() == spec_evaluate(rules@, *message),
{
    let mut out: Vec<Violation> = Vec::new();
    proof {
        assert(out.deep_view() =~= Seq::<ViolationModel>::empty());
        assert(rules@.skip(0) =~= rules@);
        assert(Seq::<ViolationModel>::empty() + spec_evaluate(rules@, *message) =~= spec_evaluate(
            rules@,
            *message,
        ));
    }
    let mut i: usize = 0;
    while i < rules.len()
        invariant
            i <= rules.len(),
            out.deep_view() + spec_evaluate(rules@.skip(i as int), *message) == spec_evaluate(
                rules@,
                *message,
            ),
        decreases rules.len() - i,
    {
        let ghost prev = out.deep_view();
        proof {
            assert(rules@.skip(i as int).drop_first() =~= rules@.skip(i as int + 1));
            assert(rules@.skip(i as int)[0] == rules@[i as int]);
        }
        match rules[i].validate(message) {
            Some(v) => {
                let ghost vm = v@;
                out.push(v);
                proof {
                    assert(out.deep_view() =~= prev.push(vm));
                    assert(prev.push(vm) + spec_evaluate(rules@.skip(i as int + 1), *message)
                        =~= prev + (seq![vm] + spec_evaluate(rules@.skip(i as int + 1), *message)));
                }
            },
            None => {
                proof {
                    assert(prev + (Seq::<ViolationModel>::empty() + spec_evaluate(
                        rules@.skip(i as int + 1),
                        *message,
                    )) =~= prev + spec_evaluate(rules@.skip(i as int + 1), *message));
                }
            },
        }
        i = i + 1;
    }
    proof {
        assert(rules@.skip(rules@.len() as int) =~= Seq::<R>::empty());
        assert(out.deep_view() + Seq::<ViolationModel>::empty() =~= out.deep_view());
    }
    out
}

} // verus!
