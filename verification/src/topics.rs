//! Names under which a point is known downstream: its unique identifier, its
//! entity identifier, and the topics of its messages.

use vstd::prelude::*;
use vstd::string::*;
use crate::text::{split_first, split_once};

verus! {

/// `{serial}.{model}.{point}`: the identifier of a point across the gateway.
pub open spec fn unique_id_text(sn: Seq<char>, model: Seq<char>, point: Seq<char>) -> Seq<char> {
    sn + "."@ + model + "."@ + point
}

/// `{kind}.{model}_{point}`: the identifier of the entity that shows a point.
pub open spec fn entity_id_text(kind: Seq<char>, model: Seq<char>, point: Seq<char>) -> Seq<char> {
    kind + "."@ + model + "_"@ + point
}

/// `homeassistant/{kind}/{serial}/{model}_{point}/config`: the topic of a
/// point's discovery message.
pub open spec fn config_topic_text(
    kind: Seq<char>,
    sn: Seq<char>,
    model: Seq<char>,
    point: Seq<char>,
) -> Seq<char> {
    "homeassistant/"@ + kind + "/"@ + sn + "/"@ + model + "_"@ + point + "/config"@
}

/// `sunspec_gateway/{serial}/{model}/{point}`: the topic of a point's state.
pub open spec fn state_topic_text(sn: Seq<char>, model: Seq<char>, point: Seq<char>) -> Seq<char> {
    "sunspec_gateway/"@ + sn + "/"@ + model + "/"@ + point
}

/// `sunspec_gateway/input/{serial}/{model}/{point}`: the topic on which a
/// write to a point arrives.
pub open spec fn command_topic_text(sn: Seq<char>, model: Seq<char>, point: Seq<char>) -> Seq<
    char,
> {
    "sunspec_gateway/input/"@ + sn + "/"@ + model + "/"@ + point
}

/// `{point}_{state}`: the name of one state of an enumerated point.
pub open spec fn flag_name_text(point: Seq<char>, state: Seq<char>) -> Seq<char> {
    point + "_"@ + state
}

/// `{model}/{point}: {state}`: the label of one state of an enumerated point.
pub open spec fn flag_label_text(model: Seq<char>, point: Seq<char>, state: Seq<char>) -> Seq<
    char,
> {
    model + "/"@ + point + ": "@ + state
}

/// `{model}-{point}`: the label of a point that configures none.
pub open spec fn default_name_text(model: Seq<char>, point: Seq<char>) -> Seq<char> {
    model + "-"@ + point
}

/// Builds the identifier of a point.
pub fn unique_id(sn: &str, model: &str, point: &str) -> (r: String)
    ensures
        r@ == unique_id_text(sn@, model@, point@),
{
    let mut r = String::from_str(sn);
    r.append(".");
    r.append(model);
    r.append(".");
    r.append(point);
    r
}

/// Builds the identifier of an entity of the given kind.
pub fn entity_id(kind: &str, model: &str, point: &str) -> (r: String)
    ensures
        r@ == entity_id_text(kind@, model@, point@),
{
    let mut r = String::from_str(kind);
    r.append(".");
    r.append(model);
    r.append("_");
    r.append(point);
    r
}

/// Builds the topic of a discovery message.
pub fn config_topic(kind: &str, sn: &str, model: &str, point: &str) -> (r: String)
    ensures
        r@ == config_topic_text(kind@, sn@, model@, point@),
{
    let mut r = String::from_str("homeassistant/");
    r.append(kind);
    r.append("/");
    r.append(sn);
    r.append("/");
    r.append(model);
    r.append("_");
    r.append(point);
    r.append("/config");
    r
}

/// Builds the topic of a state message.
pub fn state_topic(sn: &str, model: &str, point: &str) -> (r: String)
    ensures
        r@ == state_topic_text(sn@, model@, point@),
{
    let mut r = String::from_str("sunspec_gateway/");
    r.append(sn);
    r.append("/");
    r.append(model);
    r.append("/");
    r.append(point);
    r
}

/// Builds the topic on which writes to a point arrive.
pub fn command_topic(sn: &str, model: &str, point: &str) -> (r: String)
    ensures
        r@ == command_topic_text(sn@, model@, point@),
{
    let mut r = String::from_str("sunspec_gateway/input/");
    r.append(sn);
    r.append("/");
    r.append(model);
    r.append("/");
    r.append(point);
    r
}

/// Builds the name of one state of an enumerated point.
pub fn flag_name(point: &str, state: &str) -> (r: String)
    ensures
        r@ == flag_name_text(point@, state@),
{
    let mut r = String::from_str(point);
    r.append("_");
    r.append(state);
    r
}

/// Builds the label of one state of an enumerated point.
pub fn flag_label(model: &str, point: &str, state: &str) -> (r: String)
    ensures
        r@ == flag_label_text(model@, point@, state@),
{
    let mut r = String::from_str(model);
    r.append("/");
    r.append(point);
    r.append(": ");
    r.append(state);
    r
}

/// Builds the label of a point that configures none.
pub fn default_name(model: &str, point: &str) -> (r: String)
    ensures
        r@ == default_name_text(model@, point@),
{
    let mut r = String::from_str(model);
    r.append("-");
    r.append(point);
    r
}

/// The serial number, model and point that a topic names as the target of a
/// write. A topic has five parts, divided by its first four slashes; the
/// first two are the namespace and the word that marks input and are not
/// looked at, the last is the point and may itself hold slashes. `None`
/// where the topic holds fewer than four slashes.
pub open spec fn parse_input_topic(topic: Seq<char>) -> Option<(Seq<char>, Seq<char>, Seq<char>)> {
    match split_first(topic, '/') {
        Some((_, r1)) => match split_first(r1, '/') {
            Some((_, r2)) => match split_first(r2, '/') {
                Some((sn, r3)) => match split_first(r3, '/') {
                    Some((model, point)) => Some((sn, model, point)),
                    None => None,
                },
                None => None,
            },
            None => None,
        },
        None => None,
    }
}

/// Reads the target of a write off the topic on which it arrived.
pub fn input_topic_parts<'a>(topic: &'a str) -> (r: Option<(&'a str, &'a str, &'a str)>)
    ensures
        match r {
            Some((sn, model, point)) => parse_input_topic(topic@) == Some((sn@, model@, point@)),
            None => parse_input_topic(topic@) is None,
        },
{
    match split_once(topic, '/') {
        Some((_, r1)) => match split_once(r1, '/') {
            Some((_, r2)) => match split_once(r2, '/') {
                Some((sn, r3)) => match split_once(r3, '/') {
                    Some((model, point)) => Some((sn, model, point)),
                    None => None,
                },
                None => None,
            },
            None => None,
        },
        None => None,
    }
}

/// A text that is free of the separator, followed by the separator and a
/// rest, splits into just these two.
pub proof fn lemma_split_first_joined(head: Seq<char>, sep: char, rest: Seq<char>)
    requires
        !head.contains(sep),
    ensures
        split_first(head + seq![sep] + rest, sep) == Some((head, rest)),
{
    let s = head + seq![sep] + rest;
    let n = head.len() as int;
    assert(s[n] == sep);
    assert(s.contains(sep));
    s.index_of_first_ensures(sep);
    let i = s.index_of_first(sep)->0;
    if i < n {
        assert(s[i] == head[i]);
        assert(head.contains(head[i]));
    }
    if i > n {
        assert(s[n] != sep);
    }
    assert(s.subrange(0, n) =~= head);
    assert(s.subrange(n + 1, s.len() as int) =~= rest);
}

/// The topic that is announced for the writes to a point leads back to that
/// point: it names the serial number, the model and the point it was built
/// from, provided that neither the serial number nor the model holds a
/// slash.
pub proof fn lemma_command_topic_round_trip(sn: Seq<char>, model: Seq<char>, point: Seq<char>)
    requires
        !sn.contains('/'),
        !model.contains('/'),
    ensures
        parse_input_topic(command_topic_text(sn, model, point)) == Some((sn, model, point)),
{
    reveal_strlit("sunspec_gateway/input/");
    reveal_strlit("/");
    let namespace = seq![
        's',
        'u',
        'n',
        's',
        'p',
        'e',
        'c',
        '_',
        'g',
        'a',
        't',
        'e',
        'w',
        'a',
        'y',
    ];
    let input = seq!['i', 'n', 'p', 'u', 't'];
    let slash = seq!['/'];
    let r3 = model + slash + point;
    let r2 = sn + slash + r3;
    let r1 = input + slash + r2;
    let topic = command_topic_text(sn, model, point);
    assert("/"@ =~= slash);
    assert("sunspec_gateway/input/"@ =~= namespace + slash + input + slash);
    assert(topic =~= namespace + slash + r1);
    assert(!namespace.contains('/')) by {
        if namespace.contains('/') {
            let i = choose|i: int| 0 <= i < namespace.len() && namespace[i] == '/';
            assert(namespace[i] != '/');
        }
    }
    assert(!input.contains('/')) by {
        if input.contains('/') {
            let i = choose|i: int| 0 <= i < input.len() && input[i] == '/';
            assert(input[i] != '/');
        }
    }
    lemma_split_first_joined(namespace, '/', r1);
    lemma_split_first_joined(input, '/', r2);
    lemma_split_first_joined(sn, '/', r3);
    lemma_split_first_joined(model, '/', point);
}

} // verus!
