//! The two well-known topics of a device.
use vstd::prelude::*;
use vstd::string::*;

verus! {

/// `losant/<id>/state`
pub open spec fn state_topic_of(id: Seq<char>) -> Seq<char> {
    "losant/"@ + id + "/state"@
}

/// `losant/<id>/command`
pub open spec fn command_topic_of(id: Seq<char>) -> Seq<char> {
    "losant/"@ + id + "/command"@
}

/// Creates the state and command topics of the device `id`.
pub fn topic_forms(id: &str) -> (r: (String, String))
    ensures
        r.0@ == state_topic_of(id@),
        r.1@ == command_topic_of(id@),
{
    let state = String::from_str("losant/").concat(id).concat("/state");
    let command = String::from_str("losant/").concat(id).concat("/command");
    (state, command)
}

/// The topics of one device, derived once from its identifier.
pub struct Topics {
    pub state: String,
    pub command: String,
}

impl Topics {
    pub open spec fn derived_from(&self, id: Seq<char>) -> bool {
        &&& self.state@ == state_topic_of(id)
        &&& self.command@ == command_topic_of(id)
    }

    pub fn new(id: &str) -> (r: Topics)
        ensures
            r.derived_from(id@),
    {
        let (state, command) = topic_forms(id);
        Topics { state, command }
    }
}

/// Topic derivation is a function of the identifier: equal identifiers give
/// equal topics, and the state and command topics of a device never coincide.
pub proof fn lemma_topics_deterministic(a: Seq<char>, b: Seq<char>)
    requires
        a == b,
    ensures
        state_topic_of(a) == state_topic_of(b),
        command_topic_of(a) == command_topic_of(b),
        state_topic_of(a) != command_topic_of(a),
{
    reveal_strlit("/state");
    reveal_strlit("/command");
    assert(state_topic_of(a).len() != command_topic_of(a).len());
}

} // verus!
