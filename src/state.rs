//! Messages exchanged on the state and command topics, and the JSON framing
//! of a state message.
use vstd::prelude::*;
use vstd::string::*;

verus! {

/// A message for the `state` topic. For the `time` field, see the system
/// clock of the device.
#[derive(Debug, Default, Clone, PartialEq, Eq)]
pub struct State<Data, Time = core::time::Duration, FlowVersion = &'static str, Meta = ()> {
    pub data: Data,
    pub time: Option<Time>,
    pub flow_version: Option<FlowVersion>,
    pub meta: Option<Meta>,
}

/// A message received on the `command` topic.
#[derive(Debug, Clone, PartialEq, Eq)]
pub struct Command<T> {
    pub name: String,
    pub payload: T,
}

/// `,"<key>":<json>` when the field is present, nothing otherwise.
pub open spec fn member(key: Seq<char>, json: Option<Seq<char>>) -> Seq<char> {
    match json {
        Some(text) => ",\""@ + key + "\":"@ + text,
        None => Seq::empty(),
    }
}

pub open spec fn str_view(s: Option<&str>) -> Option<Seq<char>> {
    match s {
        Some(t) => Some(t@),
        None => None,
    }
}

/// The JSON object of a state message whose fields are already JSON texts;
/// absent fields are left out.
pub open spec fn state_json(
    data: Seq<char>,
    time: Option<Seq<char>>,
    flow_version: Option<Seq<char>>,
    meta: Option<Seq<char>>,
) -> Seq<char> {
    "{\"data\":"@ + data + member("time"@, time) + member("flowVersion"@, flow_version) + member(
        "meta"@,
        meta,
    ) + "}"@
}

fn append_member(out: &mut String, key: &str, json: Option<&str>)
    ensures
        final(out)@ == old(out)@ + member(key@, str_view(json)),
{
    if let Some(text) = json {
        out.append(",\"");
        out.append(key);
        out.append("\":");
        out.append(text);
    } else {
        assert(member(key@, str_view(json)) =~= Seq::<char>::empty());
        assert(out@ =~= old(out)@ + Seq::<char>::empty());
    }
}

/// Frames the JSON texts of the fields of a state message into one object.
pub fn encode_state(data: &str, time: Option<&str>, flow_version: Option<&str>, meta: Option<&str>) -> (r: String)
    ensures
        r@ == state_json(data@, str_view(time), str_view(flow_version), str_view(meta)),
{
    let mut out = String::from_str("{\"data\":");
    out.append(data);
    append_member(&mut out, "time", time);
    append_member(&mut out, "flowVersion", flow_version);
    append_member(&mut out, "meta", meta);
    out.append("}");
    out
}

/// A state message with no optional field is an object with the `data` key
/// alone.
pub proof fn lemma_bare_state_has_data_only(data: Seq<char>)
    ensures
        state_json(data, None, None, None) == "{\"data\":"@ + data + "}"@,
{
    assert(state_json(data, None, None, None) =~= "{\"data\":"@ + data + "}"@);
}

} // verus!
