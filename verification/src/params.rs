//! The parameter listing: flattening the multiplexer's nested
//! module → parameter → value document into a list of triples, and the
//! request and reply of the "set" command.

use vstd::prelude::*;
use vstd::string::StringExecFns;
use crate::error::{Failure, RcError};
use crate::json::{find, lookup, JsonValue};
use crate::text::text_is;
use crate::transport::{decode_reply, decoded, document_from_reply, document_of, texts, Reply};

verus! {

/// One setting of the multiplexer, its value written as text.
#[derive(Debug, Clone, PartialEq, Eq)]
pub struct Param {
    pub module: String,
    pub param: String,
    pub value: String,
}

/// Mathematical model of a [`Param`].
pub struct ParamModel {
    pub module: Seq<char>,
    pub param: Seq<char>,
    pub value: Seq<char>,
}

impl View for Param {
    type V = ParamModel;

    open spec fn view(&self) -> ParamModel {
        ParamModel { module: self.module@, param: self.param@, value: self.value@ }
    }
}

/// The models of a list of parameters, in order.
pub open spec fn param_models(ps: Seq<Param>) -> Seq<ParamModel> {
    ps.map_values(|p: Param| p@)
}

/// The text that stands for a scalar value; `None` for arrays and objects.
pub open spec fn scalar_text(v: JsonValue) -> Option<Seq<char>> {
    match v {
        JsonValue::Null => Some("null"@),
        JsonValue::Bool(b) => Some(
            if b {
                "1"@
            } else {
                "0"@
            },
        ),
        JsonValue::Number(n) => Some(n.text@),
        JsonValue::Text(s) => Some(s@),
        JsonValue::Array(_) => None,
        JsonValue::Object(_) => None,
    }
}

/// The two keys that are never listed on their own.
pub open spec fn is_label_key(key: Seq<char>) -> bool {
    key == "label"@ || key == "shortlabel"@
}

/// The combined label entry of a module: present exactly when the module has
/// both a `label` and a `shortlabel` that are strings.
pub open spec fn merged_label(module: Seq<char>, entries: Seq<(String, JsonValue)>) -> Seq<
    ParamModel,
> {
    match (lookup(entries, "label"@), lookup(entries, "shortlabel"@)) {
        (Some(JsonValue::Text(l)), Some(JsonValue::Text(s))) => seq![
            ParamModel { module: module, param: "label"@, value: l@ + ","@ + s@ },
        ],
        _ => Seq::empty(),
    }
}

/// Puts `done` in front of a list that may have failed.
pub open spec fn after(done: Seq<ParamModel>, rest: Result<Seq<ParamModel>, Failure>) -> Result<
    Seq<ParamModel>,
    Failure,
> {
    match rest {
        Ok(more) => Ok(done + more),
        Err(e) => Err(e),
    }
}

/// The entries of a module other than `label` and `shortlabel`, each with its
/// value as text, in the order of the document. The first array or object
/// among them fails the whole list.
pub open spec fn plain_params(module: Seq<char>, entries: Seq<(String, JsonValue)>) -> Result<
    Seq<ParamModel>,
    Failure,
>
    decreases entries.len(),
{
    if entries.len() == 0 {
        Ok(Seq::empty())
    } else if is_label_key(entries[0].0@) {
        plain_params(module, entries.drop_first())
    } else {
        match scalar_text(entries[0].1) {
            Some(text) => after(
                seq![ParamModel { module: module, param: entries[0].0@, value: text }],
                plain_params(module, entries.drop_first()),
            ),
            None => Err(Failure::UnsupportedValueShape(module, entries[0].0@)),
        }
    }
}

/// The parameters of one module: the combined label, if any, then the plain
/// entries. A module that is not an object is malformed.
pub open spec fn module_params(module: Seq<char>, value: JsonValue) -> Result<
    Seq<ParamModel>,
    Failure,
> {
    match value {
        JsonValue::Object(entries) => after(
            merged_label(module, entries@),
            plain_params(module, entries@),
        ),
        _ => Err(Failure::MalformedResponse(module)),
    }
}

/// The parameters of a run of modules, module after module; the first module
/// that fails decides the error.
pub open spec fn modules_params(modules: Seq<(String, JsonValue)>) -> Result<
    Seq<ParamModel>,
    Failure,
>
    decreases modules.len(),
{
    if modules.len() == 0 {
        Ok(Seq::empty())
    } else {
        match module_params(modules[0].0@, modules[0].1) {
            Ok(first) => after(first, modules_params(modules.drop_first())),
            Err(e) => Err(e),
        }
    }
}

/// The flat parameter list of a whole document.
pub open spec fn flattened(root: JsonValue) -> Result<Seq<ParamModel>, Failure> {
    match root {
        JsonValue::Object(modules) => modules_params(modules@),
        _ => Err(Failure::MalformedResponse("RC data"@)),
    }
}

/// Whether an outcome in memory is the one that the model gives.
pub open spec fn listing_is(
    r: Result<Vec<Param>, RcError>,
    model: Result<Seq<ParamModel>, Failure>,
) -> bool {
    match r {
        Ok(ps) => model == Ok::<Seq<ParamModel>, Failure>(param_models(ps@)),
        Err(e) => model == Err::<Seq<ParamModel>, Failure>(e@),
    }
}

/// Writes a scalar value as text: `null`, `1` or `0` for a boolean, a
/// number's decimal text, a string unchanged. Arrays and objects have none.
pub fn value_to_string(v: &JsonValue) -> (r: Option<String>)
    ensures
        match r {
            Some(s) => scalar_text(*v) == Some(s@),
            None => scalar_text(*v) is None,
        },
{
    match v {
        JsonValue::Null => Some(String::from_str("null")),
        JsonValue::Bool(b) => if *b {
            Some(String::from_str("1"))
        } else {
            Some(String::from_str("0"))
        },
        JsonValue::Number(n) => Some(n.text.clone()),
        JsonValue::Text(s) => Some(s.clone()),
        JsonValue::Array(_) => None,
        JsonValue::Object(_) => None,
    }
}

/// Appends the combined label entry of a module to `out`, if it has one.
fn push_merged_label(module: &String, entries: &Vec<(String, JsonValue)>, out: &mut Vec<Param>)
    ensures
        param_models(final(out)@) == param_models(old(out)@) + merged_label(module@, entries@),
{
    let ghost before = param_models(out@);
    if let Some(label) = find(entries, "label") {
        if let Some(short) = find(entries, "shortlabel") {
            if let JsonValue::Text(l) = label {
                if let JsonValue::Text(s) = short {
                    let mut value = l.clone();
                    value.append(",");
                    value.append(s.as_str());
                    let p = Param {
                        module: module.clone(),
                        param: String::from_str("label"),
                        value,
                    };
                    out.push(p);
                    assert(param_models(out@) =~= before + seq![p@]);
                    return ;
                }
            }
        }
    }
    assert(param_models(out@) =~= before + Seq::<ParamModel>::empty());
}

/// Appends the parameters of one module to `out`. On failure `out` may hold
/// part of the module; the caller drops it.
fn push_module(module: &String, value: &JsonValue, out: &mut Vec<Param>) -> (r: Result<
    (),
    RcError,
>)
    ensures
        match r {
            Ok(()) => module_params(module@, *value) matches Ok(ps) && param_models(final(out)@)
                == param_models(old(out)@) + ps,
            Err(e) => module_params(module@, *value) == Err::<Seq<ParamModel>, Failure>(e@),
        },
{
    let ghost before = param_models(out@);
    match value {
        JsonValue::Object(entries) => {
            push_merged_label(module, entries, out);
            let ghost head = merged_label(module@, entries@);
            let ghost mut done: Seq<ParamModel> = Seq::empty();
            let mut i: usize = 0;
            assert(entries@.skip(0) == entries@);
            assert(param_models(out@) =~= before + head + done);
            while i < entries.len()
                invariant
                    i <= entries.len(),
                    module_params(module@, *value) == after(head, plain_params(module@, entries@)),
                    param_models(out@) == before + head + done,
                    plain_params(module@, entries@) == after(
                        done,
                        plain_params(module@, entries@.skip(i as int)),
                    ),
                decreases entries.len() - i,
            {
                let key = &entries[i].0;
                let ghost tail = entries@.skip(i as int);
                assert(tail.drop_first() == entries@.skip(i as int + 1));
                assert(tail[0] == entries@[i as int]);
                if !(text_is(key, "label") || text_is(key, "shortlabel")) {
                    match value_to_string(&entries[i].1) {
                        Some(text) => {
                            let p = Param { module: module.clone(), param: key.clone(), value: text };
                            let ghost pm = p@;
                            let ghost prev = out@;
                            out.push(p);
                            proof {
                                let rest = plain_params(module@, tail.drop_first());
                                match rest {
                                    Ok(more) => {
                                        assert(done + (seq![pm] + more) =~= done.push(pm) + more);
                                    },
                                    Err(_) => {},
                                }
                                assert(param_models(out@) =~= param_models(prev).push(pm));
                                assert((before + head + done).push(pm) =~= before + head + done.push(
                                    pm,
                                ));
                                done = done.push(pm);
                            }
                        },
                        None => {
                            return Err(
                                RcError::UnsupportedValueShape(module.clone(), key.clone()),
                            );
                        },
                    }
                }
                i += 1;
            }
            assert(entries@.skip(i as int) =~= Seq::<(String, JsonValue)>::empty());
            assert(done + Seq::<ParamModel>::empty() =~= done);
            assert(before + head + done =~= before + (head + done));
            Ok(())
        },
        _ => Err(RcError::MalformedResponse(module.clone())),
    }
}

/// Flattens the document that answers "showjson" into the list of
/// parameters, module by module in the order of the document.
pub fn value_to_params(root: &JsonValue) -> (r: Result<Vec<Param>, RcError>)
    ensures
        listing_is(r, flattened(*root)),
{
    match root {
        JsonValue::Object(modules) => {
            let mut out: Vec<Param> = Vec::new();
            let mut i: usize = 0;
            assert(modules@.skip(0) == modules@);
            assert(param_models(out@) =~= Seq::<ParamModel>::empty());
            while i < modules.len()
                invariant
                    i <= modules.len(),
                    flattened(*root) == modules_params(modules@),
                    modules_params(modules@) == after(
                        param_models(out@),
                        modules_params(modules@.skip(i as int)),
                    ),
                decreases modules.len() - i,
            {
                let ghost tail = modules@.skip(i as int);
                let ghost before = param_models(out@);
                assert(tail.drop_first() == modules@.skip(i as int + 1));
                assert(tail[0] == modules@[i as int]);
                match push_module(&modules[i].0, &modules[i].1, &mut out) {
                    Ok(()) => {
                        proof {
                            let first = module_params(tail[0].0@, tail[0].1)->Ok_0;
                            match modules_params(tail.drop_first()) {
                                Ok(more) => {
                                    assert(before + (first + more) =~= (before + first) + more);
                                },
                                Err(_) => {},
                            }
                        }
                    },
                    Err(e) => {
                        return Err(e);
                    },
                }
                i += 1;
            }
            assert(modules@.skip(i as int) =~= Seq::<(String, JsonValue)>::empty());
            assert(param_models(out@) + Seq::<ParamModel>::empty() =~= param_models(out@));
            Ok(out)
        },
        _ => Err(RcError::MalformedResponse(String::from_str("RC data"))),
    }
}

/// The request that asks for the whole parameter document: the single frame
/// `showjson`.
pub fn list_request() -> (r: Vec<String>)
    ensures
        texts(r@) == seq!["showjson"@],
{
    let mut frames: Vec<String> = Vec::new();
    frames.push(String::from_str("showjson"));
    assert(texts(frames@) =~= seq!["showjson"@]);
    frames
}

/// What a reply to "showjson" amounts to: it must arrive, be text, have one
/// frame, be JSON, and flatten.
pub open spec fn listing_of(reply: Reply) -> Result<Seq<ParamModel>, Failure> {
    match document_of(reply) {
        Err(e) => Err(e),
        Ok(tree) => flattened(tree),
    }
}

/// Turns the reply to "showjson" into the parameter list.
pub fn parameters_from_reply(reply: Reply) -> (r: Result<Vec<Param>, RcError>)
    ensures
        listing_is(r, listing_of(reply)),
        reply is TimedOut ==> r matches Err(RcError::Timeout),
{
    match document_from_reply(reply) {
        Ok(tree) => value_to_params(&tree),
        Err(e) => Err(e),
    }
}

/// The request that sets one parameter: the four frames `set`, module,
/// parameter, value.
pub fn set_request(module: &str, param: &str, value: &str) -> (r: Vec<String>)
    ensures
        texts(r@) == seq!["set"@, module@, param@, value@],
{
    let mut frames: Vec<String> = Vec::new();
    frames.push(String::from_str("set"));
    frames.push(String::from_str(module));
    frames.push(String::from_str(param));
    frames.push(String::from_str(value));
    assert(texts(frames@) =~= seq!["set"@, module@, param@, value@]);
    frames
}

/// How the multiplexer answered a "set": accepted exactly when the first
/// frame is `ok`; otherwise rejected, for the reason in the second frame
/// where the first is `fail`, and for an unknown reason in every other case.
/// Only this status-first form of the reply is understood: a first frame
/// that holds anything else, a JSON echo included, counts as a rejection.
pub open spec fn set_outcome(frames: Seq<Seq<char>>) -> Result<(), Failure> {
    if frames.len() > 0 && frames[0] == "ok"@ {
        Ok(())
    } else if frames.len() > 1 && frames[0] == "fail"@ {
        Err(Failure::SetRejected(frames[1]))
    } else {
        Err(Failure::SetRejected("unknown error"@))
    }
}

/// Reads the decoded frames of a reply to "set".
pub fn interpret_set_reply(frames: &Vec<String>) -> (r: Result<(), RcError>)
    ensures
        r is Ok <==> frames@.len() > 0 && frames@[0]@ == "ok"@,
        match r {
            Ok(()) => set_outcome(texts(frames@)) is Ok,
            Err(e) => set_outcome(texts(frames@)) == Err::<(), Failure>(e@),
        },
{
    if frames.len() > 0 && text_is(&frames[0], "ok") {
        Ok(())
    } else if frames.len() > 1 && text_is(&frames[0], "fail") {
        Err(RcError::SetRejected(frames[1].clone()))
    } else {
        Err(RcError::SetRejected(String::from_str("unknown error")))
    }
}

/// What a reply to "set" amounts to: it must arrive and be text; then the
/// frames decide.
pub open spec fn set_result_of(reply: Reply) -> Result<(), Failure> {
    match decoded(reply) {
        Err(e) => Err(e),
        Ok(frames) => set_outcome(frames),
    }
}

/// Turns the reply to "set" into success or the reason of the failure.
pub fn set_result_from_reply(reply: Reply) -> (r: Result<(), RcError>)
    ensures
        match r {
            Ok(()) => set_result_of(reply) is Ok,
            Err(e) => set_result_of(reply) == Err::<(), Failure>(e@),
        },
        reply is TimedOut ==> r matches Err(RcError::Timeout),
{
    match decode_reply(reply) {
        Ok(frames) => interpret_set_reply(&frames),
        Err(e) => Err(e),
    }
}

} // verus!
