//! Laws of the parameter listing: what the flat list holds for documents
//! without labels, how a label pair is merged, and that a merged label reads
//! back as it was written.

use vstd::prelude::*;
use crate::json::{lookup, JsonValue};
use crate::params::{
    flattened, is_label_key, merged_label, module_params, modules_params, plain_params,
    scalar_text, ParamModel,
};

verus! {

/// The members of an object; none for any other value.
pub open spec fn members(v: JsonValue) -> Seq<(String, JsonValue)> {
    match v {
        JsonValue::Object(entries) => entries@,
        _ => Seq::empty(),
    }
}

/// Every entry is a scalar under a key other than `label` and `shortlabel`.
pub open spec fn plain_module(entries: Seq<(String, JsonValue)>) -> bool {
    forall|j: int|
        0 <= j < entries.len() ==> !is_label_key((#[trigger] entries[j]).0@) && scalar_text(
            entries[j].1,
        ) is Some
}

/// Every module is an object all of whose entries are plain.
pub open spec fn plain_document(modules: Seq<(String, JsonValue)>) -> bool {
    forall|i: int|
        0 <= i < modules.len() ==> (#[trigger] modules[i]).1 is Object && plain_module(
            members(modules[i].1),
        )
}

/// One parameter per entry, in order, each with its value as text.
pub open spec fn direct_params(module: Seq<char>, entries: Seq<(String, JsonValue)>) -> Seq<
    ParamModel,
> {
    Seq::new(
        entries.len(),
        |j: int|
            ParamModel {
                module: module,
                param: entries[j].0@,
                value: scalar_text(entries[j].1).unwrap(),
            },
    )
}

/// The direct parameters of every module, module by module.
pub open spec fn direct_listing(modules: Seq<(String, JsonValue)>) -> Seq<Seq<ParamModel>> {
    Seq::new(modules.len(), |i: int| direct_params(modules[i].0@, members(modules[i].1)))
}

/// A key that no entry has is not found.
pub proof fn lemma_lookup_absent(entries: Seq<(String, JsonValue)>, key: Seq<char>)
    requires
        forall|j: int| 0 <= j < entries.len() ==> (#[trigger] entries[j]).0@ != key,
    ensures
        lookup(entries, key) is None,
    decreases entries.len(),
{
    if entries.len() > 0 {
        let rest = entries.drop_first();
        assert(entries[0].0@ != key);
        assert forall|j: int| 0 <= j < rest.len() implies (#[trigger] rest[j]).0@ != key by {
            assert(rest[j] == entries[j + 1]);
        }
        lemma_lookup_absent(rest, key);
    }
}

/// A module of plain entries is listed entry by entry: one parameter for
/// each, in order, with the value written as text, and no merged label.
pub proof fn lemma_plain_module_listed(module: Seq<char>, entries: Seq<(String, JsonValue)>)
    requires
        plain_module(entries),
    ensures
        plain_params(module, entries) == Ok::<Seq<ParamModel>, crate::error::Failure>(
            direct_params(module, entries),
        ),
        merged_label(module, entries) == Seq::<ParamModel>::empty(),
    decreases entries.len(),
{
    assert forall|j: int| 0 <= j < entries.len() implies (#[trigger] entries[j]).0@ != "label"@ by {}
    lemma_lookup_absent(entries, "label"@);
    if entries.len() == 0 {
        assert(direct_params(module, entries) =~= Seq::<ParamModel>::empty());
    } else {
        let rest = entries.drop_first();
        assert(!is_label_key(entries[0].0@));
        assert forall|j: int| 0 <= j < rest.len() implies !is_label_key((#[trigger] rest[j]).0@)
            && scalar_text(rest[j].1) is Some by {
            assert(rest[j] == entries[j + 1]);
        }
        lemma_plain_module_listed(module, rest);
        let first = ParamModel {
            module: module,
            param: entries[0].0@,
            value: scalar_text(entries[0].1).unwrap(),
        };
        assert(seq![first] + direct_params(module, rest) =~= direct_params(module, entries));
    }
}

/// In a document without `label` and `shortlabel` keys the flat list holds
/// exactly one parameter for every (module, parameter) pair, in the order of
/// the document, with the value written as text.
pub proof fn lemma_plain_root_listed(root: JsonValue)
    requires
        root is Object,
        plain_document(members(root)),
    ensures
        flattened(root) == Ok::<Seq<ParamModel>, crate::error::Failure>(
            direct_listing(members(root)).flatten(),
        ),
{
    lemma_plain_document_listed(members(root));
}

/// The same for a run of modules: one parameter for every entry of every
/// module, module after module.
pub proof fn lemma_plain_document_listed(modules: Seq<(String, JsonValue)>)
    requires
        plain_document(modules),
    ensures
        modules_params(modules) == Ok::<Seq<ParamModel>, crate::error::Failure>(
            direct_listing(modules).flatten(),
        ),
    decreases modules.len(),
{
    if modules.len() == 0 {
        assert(direct_listing(modules) =~= Seq::<Seq<ParamModel>>::empty());
    } else {
        let rest = modules.drop_first();
        assert(modules[0].1 is Object && plain_module(members(modules[0].1)));
        assert forall|i: int| 0 <= i < rest.len() implies (#[trigger] rest[i]).1 is Object
            && plain_module(members(rest[i].1)) by {
            assert(rest[i] == modules[i + 1]);
        }
        lemma_plain_document_listed(rest);
        lemma_plain_module_listed(modules[0].0@, members(modules[0].1));
        let first = direct_params(modules[0].0@, members(modules[0].1));
        assert(Seq::<ParamModel>::empty() + first =~= first);
        assert(module_params(modules[0].0@, modules[0].1) == Ok::<
            Seq<ParamModel>,
            crate::error::Failure,
        >(first));
        assert(direct_listing(modules).first() == first);
        assert(direct_listing(modules).drop_first() =~= direct_listing(rest));
    }
}

/// No parameter of the plain entries goes by `label` or `shortlabel`.
pub proof fn lemma_plain_params_skip_labels(module: Seq<char>, entries: Seq<(String, JsonValue)>)
    requires
        plain_params(module, entries) is Ok,
    ensures
        forall|k: int|
            0 <= k < plain_params(module, entries)->Ok_0.len() ==> !is_label_key(
                (#[trigger] plain_params(module, entries)->Ok_0[k]).param,
            ),
    decreases entries.len(),
{
    if entries.len() > 0 {
        let rest = entries.drop_first();
        if is_label_key(entries[0].0@) {
            lemma_plain_params_skip_labels(module, rest);
        } else {
            lemma_plain_params_skip_labels(module, rest);
            let more = plain_params(module, rest)->Ok_0;
            let all = plain_params(module, entries)->Ok_0;
            assert forall|k: int| 0 <= k < all.len() implies !is_label_key(
                (#[trigger] all[k]).param,
            ) by {
                if k > 0 {
                    assert(all[k] == more[k - 1]);
                }
            }
        }
    }
}

/// A module that has both a `label` and a `shortlabel` string is listed with
/// exactly one entry for the pair: the first one, under `label`, holding both
/// texts with a comma between them. No other entry of the module goes by
/// `label` or `shortlabel`.
pub proof fn lemma_label_listed_once(
    module: Seq<char>,
    value: JsonValue,
    label: String,
    short: String,
)
    requires
        value.field("label"@) == Some(JsonValue::Text(label)),
        value.field("shortlabel"@) == Some(JsonValue::Text(short)),
        module_params(module, value) is Ok,
    ensures
        module_params(module, value)->Ok_0.len() >= 1,
        module_params(module, value)->Ok_0[0] == (ParamModel {
            module: module,
            param: "label"@,
            value: label@ + ","@ + short@,
        }),
        forall|k: int|
            1 <= k < module_params(module, value)->Ok_0.len() ==> !is_label_key(
                (#[trigger] module_params(module, value)->Ok_0[k]).param,
            ),
{
    let entries = members(value);
    lemma_plain_params_skip_labels(module, entries);
    let plain = plain_params(module, entries)->Ok_0;
    let list = module_params(module, value)->Ok_0;
    assert forall|k: int| 1 <= k < list.len() implies !is_label_key((#[trigger] list[k]).param) by {
        assert(list[k] == plain[k - 1]);
    }
}

/// The entries stand for a parameter list with a merged label: `label` and
/// `shortlabel` come first, as strings, and every further entry is a string
/// under the name of the parameter that it stands for.
pub open spec fn encodes_listing(
    entries: Seq<(String, JsonValue)>,
    module: Seq<char>,
    label: Seq<char>,
    short: Seq<char>,
    others: Seq<ParamModel>,
) -> bool {
    &&& entries.len() == others.len() + 2
    &&& entries[0].0@ == "label"@
    &&& entries[0].1 matches JsonValue::Text(l) && l@ == label
    &&& entries[1].0@ == "shortlabel"@
    &&& entries[1].1 matches JsonValue::Text(s) && s@ == short
    &&& forall|k: int|
        0 <= k < others.len() ==> {
            &&& (#[trigger] others[k]).module == module
            &&& others[k].param == entries[k + 2].0@
            &&& !is_label_key(others[k].param)
            &&& entries[k + 2].1 matches JsonValue::Text(t) && t@ == others[k].value
        }
}

/// Writing a parameter list with a merged label as a module and listing
/// that module again gives the list back: the label pair as one entry
/// `label,shortlabel`, then the other parameters unchanged.
pub proof fn lemma_merged_label_round_trip(
    value: JsonValue,
    module: Seq<char>,
    label: Seq<char>,
    short: Seq<char>,
    others: Seq<ParamModel>,
)
    requires
        value is Object,
        encodes_listing(members(value), module, label, short, others),
    ensures
        module_params(module, value) == Ok::<Seq<ParamModel>, crate::error::Failure>(
            seq![ParamModel { module: module, param: "label"@, value: label + ","@ + short }]
                + others,
        ),
{
    let entries = members(value);
    let rest = entries.drop_first().drop_first();
    reveal_strlit("label");
    reveal_strlit("shortlabel");
    assert("label"@ != "shortlabel"@) by {
        assert("label"@.len() == 5);
        assert("shortlabel"@.len() == 10);
    }
    assert(lookup(entries, "label"@) == Some(entries[0].1));
    assert(entries.drop_first()[0] == entries[1]);
    assert(lookup(entries.drop_first(), "shortlabel"@) == Some(entries[1].1));
    assert(lookup(entries, "shortlabel"@) == Some(entries[1].1));
    assert forall|j: int| 0 <= j < rest.len() implies !is_label_key((#[trigger] rest[j]).0@)
        && scalar_text(rest[j].1) is Some by {
        assert(rest[j] == entries[j + 2]);
        assert(others[j].param == entries[j + 2].0@);
    }
    lemma_plain_module_listed(module, rest);
    assert(direct_params(module, rest) =~= others) by {
        assert forall|j: int| 0 <= j < others.len() implies direct_params(module, rest)[j]
            == others[j] by {
            assert(rest[j] == entries[j + 2]);
            assert(others[j].module == module);
        }
    }
    assert(is_label_key(entries[0].0@));
    assert(is_label_key(entries.drop_first()[0].0@));
    assert(plain_params(module, entries) == plain_params(module, entries.drop_first()));
    assert(plain_params(module, entries.drop_first()) == plain_params(module, rest));
}

} // verus!
