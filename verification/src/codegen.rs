//! Source text for the part of a hand-written event loop that matches on the
//! type tag of a raw record and dispatches the events that carry no data.

use vstd::prelude::*;
use vstd::string::StringExecFns;

verus! {

/// How the generated loop begins: the wait, the end of the loop when the
/// connection is gone, and the head of the match on the type tag.
pub const MATCH_HEAD: &'static str =
    "\n        let event = self.connection.wait_for_event();\n        match event {\n            None => {\n                break;\n            }\n            Some(event) => {\n                let r = event.response_type() & !0x80;\n                match r {\n    ";

/// How the generated loop ends: the arm for every other tag.
pub const MATCH_TAIL: &'static str =
    "\n                _ => {}\n            }\n        }\n    }\n    ";

/// The text of an arm up to the name of the tag constant.
pub const ARM_PATTERN: &'static str = "\n                    xcb::";

/// The text between the tag constant and the event variant.
pub const ARM_DISPATCH: &'static str =
    " => {\n                        self.trigger_event(Event::";

/// The text between the event variant and the event struct.
pub const ARM_PAYLOAD: &'static str = "(";

/// The text between the event struct and the event's name in the trace line.
pub const ARM_TRACE: &'static str = " {}));\n                        trace!(\"Event ";

/// The text that closes an arm.
pub const ARM_END: &'static str = " triggered\");\n                    }\n                ";

/// The CamelCase form that the `heck` crate gives a name: the words of the
/// name, each with its first letter in upper case and the rest in lower
/// case, without what stood between them.
pub uninterp spec fn camel_case(name: Seq<char>) -> Seq<char>;

/// Calls `heck::CamelCase::to_camel_case` on `name`. The conversion looks at
/// nothing but the characters of `name`; what it yields is not proved here,
/// only named.
#[verifier::external_body]
fn to_camel_case(name: &str) -> (camel: String)
    ensures
        camel@ == camel_case(name@),
{
    heck::CamelCase::to_camel_case(name)
}

/// The arm that dispatches the event `camel` on the tag constant `name`.
pub open spec fn match_arm_text(name: Seq<char>, camel: Seq<char>) -> Seq<char> {
    ARM_PATTERN@ + name + ARM_DISPATCH@ + camel + ARM_PAYLOAD@ + camel + ARM_TRACE@ + camel
        + ARM_END@
}

/// The arms for `names`, in their order; the event of each is the CamelCase
/// form of its name.
pub open spec fn match_arms_text(names: Seq<Seq<char>>) -> Seq<char>
    decreases names.len(),
{
    if names.len() == 0 {
        Seq::empty()
    } else {
        match_arms_text(names.drop_last()) + match_arm_text(names.last(), camel_case(names.last()))
    }
}

/// The whole loop body for the tag constants `names`.
pub open spec fn match_event_text(names: Seq<Seq<char>>) -> Seq<char> {
    MATCH_HEAD@ + match_arms_text(names) + MATCH_TAIL@
}

/// Writes the arm that dispatches the event `camel` on the tag constant
/// `name`.
pub fn match_arm(name: &str, camel: &str) -> (arm: String)
    ensures
        arm@ == match_arm_text(name@, camel@),
{
    let mut arm = String::from_str(ARM_PATTERN);
    arm.append(name);
    arm.append(ARM_DISPATCH);
    arm.append(camel);
    arm.append(ARM_PAYLOAD);
    arm.append(camel);
    arm.append(ARM_TRACE);
    arm.append(camel);
    arm.append(ARM_END);
    arm
}

/// Writes the loop body that waits for a record and dispatches, for each tag
/// constant in `items`, the event whose name is the CamelCase form of the
/// constant's.
pub fn match_event(items: &Vec<String>) -> (source: String)
    ensures
        source@ == match_event_text(items@.map_values(|name: String| name@)),
{
    let ghost names = items@.map_values(|name: String| name@);
    let mut source = String::from_str(MATCH_HEAD);
    let mut next: usize = 0;
    while next < items.len()
        invariant
            next <= items@.len(),
            names == items@.map_values(|name: String| name@),
            source@ == MATCH_HEAD@ + match_arms_text(names.take(next as int)),
        decreases items@.len() - next,
    {
        let name = items[next].as_str();
        let camel = to_camel_case(name);
        let arm = match_arm(name, camel.as_str());
        source.append(arm.as_str());
        proof {
            let taken = names.take(next + 1);
            assert(taken.drop_last() =~= names.take(next as int));
            assert(taken.last() == name@);
            assert(source@ =~= MATCH_HEAD@ + match_arms_text(taken));
        }
        next = next + 1;
    }
    assert(names.take(next as int) =~= names);
    source.append(MATCH_TAIL);
    source
}

} // verus!
