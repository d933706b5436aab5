//! The topic routing engine: a static, config-driven fan-out transformer.
//!
//! An ordered list of rules maps an inbound topic to outbound topics. For
//! one inbound message, every rule whose `from_topic` equals the inbound
//! topic fires independently, in rule order, with no early exit: a rule with
//! a template reshapes the message through it, a rule without one forwards
//! the message unchanged. A topic no rule matches is ignored.

use vstd::prelude::*;

use crate::config_message::{spec_generate, ConfigMessage};
use crate::message::{message_eqv, Message};
use crate::text::str_eq;

verus! {

/// The template type of the routing file's entries.
pub type RoutingMessage = ConfigMessage;

/// One routing rule: forward what arrives on `from_topic` to `to_topic`,
/// reshaped through the optional template.
#[derive(Debug)]
pub struct RoutingItem {
    pub from_topic: String,
    pub to_topic: String,
    pub message: Option<ConfigMessage>,
}

/// An ordered routing table, as the routing configuration declares it.
#[derive(Debug)]
pub struct Routing {
    pub routing: Vec<RoutingItem>,
}

/// The outputs the routing table owes for one inbound message: for each
/// rule matching the topic, in rule order, the rule's outbound topic and
/// the message it forwards (the template applied, or the message as it is).
pub open spec fn spec_route(rules: Seq<RoutingItem>, topic: Seq<char>, m: Message) -> Seq<
    (String, Message),
>
    decreases rules.len(),
{
    if rules.len() == 0 {
        Seq::empty()
    } else {
        let rest = spec_route(rules.skip(1), topic, m);
        if rules[0].from_topic@ == topic {
            seq![
                (
                    rules[0].to_topic,
                    match rules[0].message {
                        Some(cm) => spec_generate(cm, m),
                        None => m,
                    },
                ),
            ] + rest
        } else {
            rest
        }
    }
}

/// Element-wise equivalence of two output lists: same length, and at each
/// position the same topic and an equivalent message.
pub open spec fn outputs_eqv(a: Seq<(String, Message)>, b: Seq<(String, Message)>) -> bool {
    a.len() == b.len() && forall|i: int|
        0 <= i < a.len() ==> (#[trigger] a[i]).0@ == b[i].0@ && message_eqv(a[i].1, b[i].1)
}

/// Computes the full fan-out for one inbound message: one output per rule
/// whose `from_topic` equals the inbound topic, in rule order.
pub fn route(rules: &Vec<RoutingItem>, topic: &str, message: &Message) -> (outs: Vec<
    (String, Message),
>)
    ensures
        outputs_eqv(outs@, spec_route(rules@, topic@, *message)),
{
    let ghost full = spec_route(rules@, topic@, *message);
    let mut outs: Vec<(String, Message)> = Vec::new();
    let mut i: usize = 0;
    proof {
        assert(rules@.skip(0) =~= rules@);
    }
    while i < rules.len()
        invariant
            i <= rules@.len(),
            full == spec_route(rules@, topic@, *message),
            outs@.len() + spec_route(rules@.skip(i as int), topic@, *message).len() == full.len(),
            forall|j: int|
                0 <= j < outs@.len() ==> (#[trigger] outs@[j]).0@ == full[j].0@ && message_eqv(
                    outs@[j].1,
                    full[j].1,
                ),
            forall|j: int|
                outs@.len() <= j < full.len() ==> full[j] == spec_route(
                    rules@.skip(i as int),
                    topic@,
                    *message,
                )[j - outs@.len()],
        decreases rules@.len() - i,
    {
        proof {
            assert(rules@.skip(i as int)[0] == rules@[i as int]);
            assert(rules@.skip(i as int).skip(1) =~= rules@.skip(i as int + 1));
        }
        let rule = &rules[i];
        if str_eq(rule.from_topic.as_str(), topic) {
            let out_message = match &rule.message {
                Some(cm) => cm.generate_message(message),
                None => message.clone(),
            };
            outs.push((rule.to_topic.clone(), out_message));
        }
        i += 1;
    }
    proof {
        assert(spec_route(rules@.skip(rules@.len() as int), topic@, *message).len() == 0);
        assert(outputs_eqv(outs@, full));
    }
    outs
}

/// Pass-through law: a rule without a template forwards the inbound message
/// unchanged; its output is the rule's outbound topic and the message
/// itself.
pub proof fn lemma_route_pass_through(rule: RoutingItem, m: Message)
    requires
        rule.message is None,
    ensures
        spec_route(seq![rule], rule.from_topic@, m) =~= seq![(rule.to_topic, m)],
{
    let rules = seq![rule];
    assert(rules[0] == rule);
    assert(rules.skip(1) =~= Seq::<RoutingItem>::empty());
    assert(spec_route(rules.skip(1), rule.from_topic@, m) =~= Seq::<(String, Message)>::empty());
    assert(spec_route(rules, rule.from_topic@, m) =~= seq![(rule.to_topic, m)] + Seq::<
        (String, Message),
    >::empty());
}

/// Fan-out law: two rules listening on the same topic both fire on one
/// inbound message, each toward its own outbound topic, in rule order, and
/// nothing else is produced.
pub proof fn lemma_route_fan_out(a: RoutingItem, b: RoutingItem, m: Message)
    requires
        a.message is None,
        b.message is None,
        a.from_topic@ == b.from_topic@,
    ensures
        spec_route(seq![a, b], a.from_topic@, m) =~= seq![(a.to_topic, m), (b.to_topic, m)],
{
    assert(seq![a, b].skip(1) =~= seq![b]);
    lemma_route_pass_through(b, m);
}

/// Ignore law: a topic that no rule matches produces no output at all.
pub proof fn lemma_route_no_match(rules: Seq<RoutingItem>, topic: Seq<char>, m: Message)
    requires
        forall|i: int| 0 <= i < rules.len() ==> (#[trigger] rules[i]).from_topic@ != topic,
    ensures
        spec_route(rules, topic, m) =~= Seq::<(String, Message)>::empty(),
    decreases rules.len(),
{
    if rules.len() > 0 {
        assert(forall|i: int|
            0 <= i < rules.skip(1).len() ==> (#[trigger] rules.skip(1)[i]) == rules[i + 1]);
        lemma_route_no_match(rules.skip(1), topic, m);
    }
}

} // verus!
