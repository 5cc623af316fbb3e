//! The statistics exchange: the identity check, the per-input counters and
//! their ordering, and the two-step conversation that fetches them.

use vstd::prelude::*;
use vstd::string::StringExecFns;
use crate::error::{Failure, RcError};
use crate::json::{find, lookup, JsonValue};
use crate::text::{
    has_prefix, is_prefix, lemma_lex_le_transitive, lemma_lex_lt_asymmetric, lex_lt, text_lt,
};
use crate::transport::{document_from_reply, document_of, Reply};

verus! {

/// The counters that the multiplexer reports for one input.
#[derive(Debug, Clone, PartialEq, Eq)]
pub struct InputStat {
    pub max_fill: u32,
    pub min_fill: u32,
    pub num_underruns: u64,
    pub num_overruns: u64,
    pub peak_left: i32,
    pub peak_right: i32,
    pub peak_left_slow: i32,
    pub peak_right_slow: i32,
    pub state: Option<String>,
    pub version: Option<String>,
    pub uptime: Option<u64>,
    pub last_tist_offset: i32,
}

/// A snapshot of the multiplexer: its version and its inputs, ordered by name.
#[derive(Debug, Clone, PartialEq, Eq)]
pub struct Stats {
    pub version: String,
    pub input_stats: Vec<(String, InputStat)>,
}

/// The service name that a multiplexer's identity starts with.
pub open spec fn service_prefix() -> Seq<char> {
    "ODR-DabMux"@
}

/// A member that must be a non-negative integer below 2^64.
pub open spec fn u64_at(entries: Seq<(String, JsonValue)>, key: Seq<char>) -> Option<u64> {
    match lookup(entries, key) {
        Some(JsonValue::Number(n)) => n.unsigned,
        _ => None,
    }
}

/// A member that must be a non-negative integer below 2^32.
pub open spec fn u32_at(entries: Seq<(String, JsonValue)>, key: Seq<char>) -> Option<u32> {
    match u64_at(entries, key) {
        Some(u) => if u <= u32::MAX {
            Some(u as u32)
        } else {
            None
        },
        None => None,
    }
}

/// A member that must be an integer of 32 signed bits.
pub open spec fn i32_at(entries: Seq<(String, JsonValue)>, key: Seq<char>) -> Option<i32> {
    match lookup(entries, key) {
        Some(JsonValue::Number(n)) => match n.signed {
            Some(i) => if i32::MIN <= i <= i32::MAX {
                Some(i as i32)
            } else {
                None
            },
            None => None,
        },
        _ => None,
    }
}

/// A member that may be missing or null, and is a string otherwise. The outer
/// `None` stands for a member of another shape.
pub open spec fn optional_text_at(entries: Seq<(String, JsonValue)>, key: Seq<char>) -> Option<
    Option<String>,
> {
    match lookup(entries, key) {
        None => Some(None),
        Some(JsonValue::Null) => Some(None),
        Some(JsonValue::Text(s)) => Some(Some(s)),
        _ => None,
    }
}

/// A member that may be missing or null, and is a non-negative integer below
/// 2^64 otherwise. The outer `None` stands for a member of another shape.
pub open spec fn optional_u64_at(entries: Seq<(String, JsonValue)>, key: Seq<char>) -> Option<
    Option<u64>,
> {
    match lookup(entries, key) {
        None => Some(None),
        Some(JsonValue::Null) => Some(None),
        Some(JsonValue::Number(n)) => match n.unsigned {
            Some(u) => Some(Some(u)),
            None => None,
        },
        _ => None,
    }
}

/// Every member of an `inputstat` object has the shape that its field asks
/// for.
pub open spec fn input_stat_fits(e: Seq<(String, JsonValue)>) -> bool {
    &&& u32_at(e, "max_fill"@) is Some
    &&& u32_at(e, "min_fill"@) is Some
    &&& u64_at(e, "num_underruns"@) is Some
    &&& u64_at(e, "num_overruns"@) is Some
    &&& i32_at(e, "peak_left"@) is Some
    &&& i32_at(e, "peak_right"@) is Some
    &&& i32_at(e, "peak_left_slow"@) is Some
    &&& i32_at(e, "peak_right_slow"@) is Some
    &&& optional_text_at(e, "state"@) is Some
    &&& optional_text_at(e, "version"@) is Some
    &&& optional_u64_at(e, "uptime"@) is Some
    &&& i32_at(e, "last_tist_offset"@) is Some
}

/// The counters that an `inputstat` value holds: it must be an object whose
/// numeric members are all present and in range, and whose optional members
/// are absent, null or of the right type. Members under other keys are
/// ignored.
pub open spec fn input_stat_of(v: JsonValue) -> Option<InputStat> {
    match v {
        JsonValue::Object(entries) => {
            let e = entries@;
            if input_stat_fits(e) {
                Some(
                    InputStat {
                        max_fill: u32_at(e, "max_fill"@).unwrap(),
                        min_fill: u32_at(e, "min_fill"@).unwrap(),
                        num_underruns: u64_at(e, "num_underruns"@).unwrap(),
                        num_overruns: u64_at(e, "num_overruns"@).unwrap(),
                        peak_left: i32_at(e, "peak_left"@).unwrap(),
                        peak_right: i32_at(e, "peak_right"@).unwrap(),
                        peak_left_slow: i32_at(e, "peak_left_slow"@).unwrap(),
                        peak_right_slow: i32_at(e, "peak_right_slow"@).unwrap(),
                        state: optional_text_at(e, "state"@).unwrap(),
                        version: optional_text_at(e, "version"@).unwrap(),
                        uptime: optional_u64_at(e, "uptime"@).unwrap(),
                        last_tist_offset: i32_at(e, "last_tist_offset"@).unwrap(),
                    },
                )
            } else {
                None
            }
        },
        _ => None,
    }
}

fn read_u64(entries: &Vec<(String, JsonValue)>, key: &str) -> (r: Option<u64>)
    ensures
        r == u64_at(entries@, key@),
{
    match find(entries, key) {
        Some(JsonValue::Number(n)) => n.unsigned,
        _ => None,
    }
}

fn read_u32(entries: &Vec<(String, JsonValue)>, key: &str) -> (r: Option<u32>)
    ensures
        r == u32_at(entries@, key@),
{
    match read_u64(entries, key) {
        Some(u) => if u <= 0xffff_ffff {
            Some(u as u32)
        } else {
            None
        },
        None => None,
    }
}

fn read_i32(entries: &Vec<(String, JsonValue)>, key: &str) -> (r: Option<i32>)
    ensures
        r == i32_at(entries@, key@),
{
    match find(entries, key) {
        Some(JsonValue::Number(n)) => match n.signed {
            Some(i) => if -0x8000_0000 <= i && i <= 0x7fff_ffff {
                Some(i as i32)
            } else {
                None
            },
            None => None,
        },
        _ => None,
    }
}

fn read_optional_text(entries: &Vec<(String, JsonValue)>, key: &str) -> (r: Option<
    Option<String>,
>)
    ensures
        r == optional_text_at(entries@, key@),
{
    match find(entries, key) {
        None => Some(None),
        Some(JsonValue::Null) => Some(None),
        Some(JsonValue::Text(s)) => Some(Some(s.clone())),
        _ => None,
    }
}

fn read_optional_u64(entries: &Vec<(String, JsonValue)>, key: &str) -> (r: Option<Option<u64>>)
    ensures
        r == optional_u64_at(entries@, key@),
{
    match find(entries, key) {
        None => Some(None),
        Some(JsonValue::Null) => Some(None),
        Some(JsonValue::Number(n)) => match n.unsigned {
            Some(u) => Some(Some(u)),
            None => None,
        },
        _ => None,
    }
}

/// Reads the counters of one input out of its `inputstat` value.
pub fn parse_input_stat(v: &JsonValue) -> (r: Option<InputStat>)
    ensures
        r == input_stat_of(*v),
{
    let e = match v {
        JsonValue::Object(entries) => entries,
        _ => {
            return None;
        },
    };
    let max_fill = match read_u32(e, "max_fill") {
        Some(x) => x,
        None => {
            return None;
        },
    };
    let min_fill = match read_u32(e, "min_fill") {
        Some(x) => x,
        None => {
            return None;
        },
    };
    let num_underruns = match read_u64(e, "num_underruns") {
        Some(x) => x,
        None => {
            return None;
        },
    };
    let num_overruns = match read_u64(e, "num_overruns") {
        Some(x) => x,
        None => {
            return None;
        },
    };
    let peak_left = match read_i32(e, "peak_left") {
        Some(x) => x,
        None => {
            return None;
        },
    };
    let peak_right = match read_i32(e, "peak_right") {
        Some(x) => x,
        None => {
            return None;
        },
    };
    let peak_left_slow = match read_i32(e, "peak_left_slow") {
        Some(x) => x,
        None => {
            return None;
        },
    };
    let peak_right_slow = match read_i32(e, "peak_right_slow") {
        Some(x) => x,
        None => {
            return None;
        },
    };
    let state = match read_optional_text(e, "state") {
        Some(x) => x,
        None => {
            return None;
        },
    };
    let version = match read_optional_text(e, "version") {
        Some(x) => x,
        None => {
            return None;
        },
    };
    let uptime = match read_optional_u64(e, "uptime") {
        Some(x) => x,
        None => {
            return None;
        },
    };
    let last_tist_offset = match read_i32(e, "last_tist_offset") {
        Some(x) => x,
        None => {
            return None;
        },
    };
    Some(
        InputStat {
            max_fill,
            min_fill,
            num_underruns,
            num_overruns,
            peak_left,
            peak_right,
            peak_left_slow,
            peak_right_slow,
            state,
            version,
            uptime,
            last_tist_offset,
        },
    )
}

/// The version that an "info" document reports; `UNKNOWN` where it has no
/// `version` that is a string.
pub open spec fn version_of(info: JsonValue) -> Seq<char> {
    match info.field("version"@) {
        Some(JsonValue::Text(s)) => s@,
        _ => "UNKNOWN"@,
    }
}

/// The identity check on an "info" document: its `service` must be a string
/// (else the field counts as missing) that starts with the multiplexer's
/// name (else it is the wrong service). A document that passes gives its
/// version.
pub open spec fn identity_of(info: JsonValue) -> Result<Seq<char>, Failure> {
    match info.field("service"@) {
        Some(JsonValue::Text(s)) => if is_prefix(service_prefix(), s@) {
            Ok(version_of(info))
        } else {
            Err(Failure::WrongService(s@))
        },
        _ => Err(Failure::MissingField("service"@)),
    }
}

/// Checks that an "info" document comes from a multiplexer, and reads its
/// version.
pub fn check_identity(info: &JsonValue) -> (r: Result<String, RcError>)
    ensures
        match r {
            Ok(version) => identity_of(*info) == Ok::<Seq<char>, Failure>(version@),
            Err(e) => identity_of(*info) == Err::<Seq<char>, Failure>(e@),
        },
{
    match info.get("service") {
        Some(JsonValue::Text(s)) => {
            if has_prefix(s.as_str(), "ODR-DabMux") {
                match info.get("version") {
                    Some(JsonValue::Text(v)) => Ok(v.clone()),
                    _ => Ok(String::from_str("UNKNOWN")),
                }
            } else {
                Err(RcError::WrongService(s.clone()))
            }
        },
        _ => Err(RcError::MissingField(String::from_str("service"))),
    }
}

/// Puts one input in front of a list that may have failed.
pub open spec fn input_then(
    first: (String, InputStat),
    rest: Result<Seq<(String, InputStat)>, Failure>,
) -> Result<Seq<(String, InputStat)>, Failure> {
    match rest {
        Ok(more) => Ok(seq![first] + more),
        Err(e) => Err(e),
    }
}

/// The inputs of a "values" mapping in the order of the document. The first
/// input without an `inputstat`, or with one of the wrong shape, fails the
/// whole list.
pub open spec fn inputs_of(entries: Seq<(String, JsonValue)>) -> Result<
    Seq<(String, InputStat)>,
    Failure,
>
    decreases entries.len(),
{
    if entries.len() == 0 {
        Ok(Seq::empty())
    } else {
        match entries[0].1.field("inputstat"@) {
            None => Err(Failure::MissingField("inputstat"@)),
            Some(v) => match input_stat_of(v) {
                None => Err(Failure::MalformedResponse(entries[0].0@)),
                Some(stat) => input_then((entries[0].0, stat), inputs_of(entries.drop_first())),
            },
        }
    }
}

/// The inputs of a "values" document, unsorted.
pub open spec fn values_of(doc: JsonValue) -> Result<Seq<(String, InputStat)>, Failure> {
    match doc.field("values"@) {
        Some(JsonValue::Object(entries)) => inputs_of(entries@),
        _ => Err(Failure::MalformedResponse("values"@)),
    }
}

/// Reads the inputs of a "values" document, in the order of the document.
pub fn parse_values(doc: &JsonValue) -> (r: Result<Vec<(String, InputStat)>, RcError>)
    ensures
        match r {
            Ok(list) => values_of(*doc) == Ok::<Seq<(String, InputStat)>, Failure>(list@),
            Err(e) => values_of(*doc) == Err::<Seq<(String, InputStat)>, Failure>(e@),
        },
{
    let entries = match doc.get("values") {
        Some(JsonValue::Object(entries)) => entries,
        _ => {
            return Err(RcError::MalformedResponse(String::from_str("values")));
        },
    };
    let mut out: Vec<(String, InputStat)> = Vec::new();
    let mut i: usize = 0;
    assert(entries@.skip(0) == entries@);
    assert(forall|more: Seq<(String, InputStat)>| out@ + more =~= more);
    while i < entries.len()
        invariant
            i <= entries.len(),
            values_of(*doc) == inputs_of(entries@),
            inputs_of(entries@) == match inputs_of(entries@.skip(i as int)) {
                Ok(more) => Ok::<Seq<(String, InputStat)>, Failure>(out@ + more),
                Err(e) => Err(e),
            },
        decreases entries.len() - i,
    {
        let ghost tail = entries@.skip(i as int);
        let ghost before = out@;
        assert(tail.drop_first() == entries@.skip(i as int + 1));
        assert(tail[0] == entries@[i as int]);
        let stat = match entries[i].1.get("inputstat") {
            None => {
                return Err(RcError::MissingField(String::from_str("inputstat")));
            },
            Some(v) => match parse_input_stat(v) {
                None => {
                    return Err(RcError::MalformedResponse(entries[i].0.clone()));
                },
                Some(stat) => stat,
            },
        };
        let item = (entries[i].0.clone(), stat);
        out.push(item);
        proof {
            match inputs_of(tail.drop_first()) {
                Ok(more) => {
                    assert(before + (seq![item] + more) =~= before.push(item) + more);
                },
                Err(_) => {},
            }
        }
        i += 1;
    }
    assert(entries@.skip(i as int).len() == 0);
    assert(out@ + Seq::<(String, InputStat)>::empty() =~= out@);
    Ok(out)
}

/// Where an input of the given name goes into a list ordered by name: behind
/// every input whose name is smaller, in front of all others.
pub open spec fn insert_position(name: Seq<char>, sorted: Seq<(String, InputStat)>) -> int
    decreases sorted.len(),
{
    if sorted.len() == 0 || !lex_lt(sorted[0].0@, name) {
        0
    } else {
        1 + insert_position(name, sorted.drop_first())
    }
}

/// The inputs ordered by name, inputs of one name in their first order.
pub open spec fn sorted_by_name(s: Seq<(String, InputStat)>) -> Seq<(String, InputStat)>
    decreases s.len(),
{
    if s.len() == 0 {
        s
    } else {
        let rest = sorted_by_name(s.drop_first());
        rest.insert(insert_position(s[0].0@, rest), s[0])
    }
}

/// No input stands in front of one with a smaller name.
pub open spec fn ordered_by_name(s: Seq<(String, InputStat)>) -> bool {
    forall|i: int, j: int| 0 <= i < j < s.len() ==> !lex_lt(#[trigger] s[j].0@, #[trigger] s[i].0@)
}

/// The insert position is within the list, everything in front of it is
/// smaller, and what stands at it is not.
pub proof fn lemma_insert_position(name: Seq<char>, sorted: Seq<(String, InputStat)>)
    ensures
        0 <= insert_position(name, sorted) <= sorted.len(),
        forall|k: int|
            0 <= k < insert_position(name, sorted) ==> lex_lt((#[trigger] sorted[k]).0@, name),
        insert_position(name, sorted) < sorted.len() ==> !lex_lt(
            sorted[insert_position(name, sorted)].0@,
            name,
        ),
    decreases sorted.len(),
{
    if sorted.len() == 0 || !lex_lt(sorted[0].0@, name) {
    } else {
        let rest = sorted.drop_first();
        lemma_insert_position(name, rest);
        let p = insert_position(name, rest);
        assert forall|k: int| 0 <= k < 1 + p implies lex_lt((#[trigger] sorted[k]).0@, name) by {
            if k > 0 {
                assert(sorted[k] == rest[k - 1]);
            }
        }
        if 1 + p < sorted.len() {
            assert(sorted[1 + p] == rest[p]);
        }
    }
}

/// Whatever the order of the inputs in the document, the sorted list is
/// ascending by name and holds exactly the inputs of the document.
pub proof fn lemma_sorted_by_name(s: Seq<(String, InputStat)>)
    ensures
        ordered_by_name(sorted_by_name(s)),
        sorted_by_name(s).to_multiset() == s.to_multiset(),
        sorted_by_name(s).len() == s.len(),
    decreases s.len(),
{
    if s.len() == 0 {
    } else {
        let rest = sorted_by_name(s.drop_first());
        lemma_sorted_by_name(s.drop_first());
        let name = s[0].0@;
        let p = insert_position(name, rest);
        lemma_insert_position(name, rest);
        let r = rest.insert(p, s[0]);
        vstd::seq_lib::to_multiset_insert(rest, p, s[0]);
        assert(s == s.drop_first().insert(0, s[0]));
        vstd::seq_lib::to_multiset_insert(s.drop_first(), 0, s[0]);
        assert forall|i: int, j: int| 0 <= i < j < r.len() implies !lex_lt(
            #[trigger] r[j].0@,
            #[trigger] r[i].0@,
        ) by {
            if j < p {
                assert(r[i] == rest[i] && r[j] == rest[j]);
            } else if j == p {
                assert(r[i] == rest[i]);
                lemma_lex_lt_asymmetric(rest[i].0@, name);
            } else if i < p {
                assert(r[i] == rest[i] && r[j] == rest[j - 1]);
            } else if i == p {
                assert(r[j] == rest[j - 1]);
                if j - 1 > p {
                    assert(!lex_lt(rest[j - 1].0@, rest[p].0@));
                } else {
                    lemma_lex_lt_asymmetric(rest[p].0@, rest[p].0@);
                }
                lemma_lex_le_transitive(name, rest[p].0@, rest[j - 1].0@);
            } else {
                assert(r[i] == rest[i - 1] && r[j] == rest[j - 1]);
            }
        }
    }
}

/// Orders the inputs by name, ascending; inputs of one name keep their order.
pub fn sort_by_name(list: Vec<(String, InputStat)>) -> (r: Vec<(String, InputStat)>)
    ensures
        r@ == sorted_by_name(list@),
        ordered_by_name(r@),
        r@.to_multiset() == list@.to_multiset(),
{
    let ghost whole = list@;
    let mut list = list;
    let mut out: Vec<(String, InputStat)> = Vec::new();
    assert(whole.skip(whole.len() as int) =~= Seq::<(String, InputStat)>::empty());
    while list.len() > 0
        invariant
            list@ == whole.take(list@.len() as int),
            list@.len() <= whole.len(),
            out@ == sorted_by_name(whole.skip(list@.len() as int)),
        decreases list@.len(),
    {
        let ghost n = list@.len() as int;
        let item = list.pop().unwrap();
        assert(item == whole[n - 1]);
        assert(list@ =~= whole.take(n - 1));
        assert(whole.skip(n - 1).drop_first() =~= whole.skip(n));
        assert(whole.skip(n - 1)[0] == item);
        proof {
            lemma_insert_position(item.0@, out@);
        }
        let mut j: usize = 0;
        assert(out@.skip(0) == out@);
        while j < out.len() && text_lt(out[j].0.as_str(), item.0.as_str())
            invariant
                j <= out.len(),
                insert_position(item.0@, out@) == j + insert_position(
                    item.0@,
                    out@.skip(j as int),
                ),
            decreases out.len() - j,
        {
            assert(out@.skip(j as int).drop_first() == out@.skip(j as int + 1));
            assert(out@.skip(j as int)[0] == out@[j as int]);
            j += 1;
        }
        if j < out.len() {
            assert(out@.skip(j as int)[0] == out@[j as int]);
        }
        out.insert(j, item);
    }
    assert(whole.skip(0) == whole);
    proof {
        lemma_sorted_by_name(whole);
    }
    out
}

impl Stats {
    /// A snapshot lists its inputs in ascending order of their names.
    pub open spec fn well_formed(&self) -> bool {
        ordered_by_name(self.input_stats@)
    }
}

/// Where the statistics conversation stands.
#[derive(Debug, Clone, PartialEq, Eq)]
pub enum StatsPhase {
    /// "info" was sent; its reply is awaited.
    AwaitingInfo,
    /// The identity check passed with this version and "values" was sent.
    AwaitingValues(String),
}

/// What to do after a reply of the statistics conversation.
#[derive(Debug, Clone, PartialEq, Eq)]
pub enum StatsStep {
    /// Send this single-frame request on the same session and wait again.
    Ask(String, StatsPhase),
    /// The conversation is over: here is the snapshot.
    Done(Stats),
    /// The conversation is over: it failed, and nothing of it is kept.
    Failed(RcError),
}

/// What the reply to "info" amounts to: the version, once the reply is a
/// document that passes the identity check.
pub open spec fn info_outcome(reply: Reply) -> Result<Seq<char>, Failure> {
    match document_of(reply) {
        Err(e) => Err(e),
        Ok(info) => identity_of(info),
    }
}

/// What the reply to "values" amounts to: the inputs in the order of the
/// document.
pub open spec fn values_outcome(reply: Reply) -> Result<Seq<(String, InputStat)>, Failure> {
    match document_of(reply) {
        Err(e) => Err(e),
        Ok(doc) => values_of(doc),
    }
}

/// Opens the statistics conversation: the first request is the single frame
/// `info`.
pub fn stats_start() -> (r: (String, StatsPhase))
    ensures
        r.0@ == "info"@,
        r.1 is AwaitingInfo,
{
    (String::from_str("info"), StatsPhase::AwaitingInfo)
}

/// Takes the conversation one reply further. After "info" the identity is
/// checked and "values" is asked for; after "values" the inputs are read and
/// sorted by name. Any failure ends the conversation with nothing kept, a
/// timeout in either phase included.
pub fn stats_advance(phase: StatsPhase, reply: Reply) -> (r: StatsStep)
    ensures
        match phase {
            StatsPhase::AwaitingInfo => match info_outcome(reply) {
                Err(e) => r matches StatsStep::Failed(x) && x@ == e,
                Ok(version) => r matches StatsStep::Ask(request, StatsPhase::AwaitingValues(v))
                    && request@ == "values"@ && v@ == version,
            },
            StatsPhase::AwaitingValues(version) => match values_outcome(reply) {
                Err(e) => r matches StatsStep::Failed(x) && x@ == e,
                Ok(list) => r matches StatsStep::Done(stats) && stats.version@ == version@
                    && stats.input_stats@ == sorted_by_name(list) && stats.well_formed(),
            },
        },
        reply is TimedOut ==> r matches StatsStep::Failed(RcError::Timeout),
{
    let doc = match document_from_reply(reply) {
        Ok(doc) => doc,
        Err(e) => {
            return StatsStep::Failed(e);
        },
    };
    match phase {
        StatsPhase::AwaitingInfo => match check_identity(&doc) {
            Ok(version) => StatsStep::Ask(
                String::from_str("values"),
                StatsPhase::AwaitingValues(version),
            ),
            Err(e) => StatsStep::Failed(e),
        },
        StatsPhase::AwaitingValues(version) => match parse_values(&doc) {
            Ok(list) => StatsStep::Done(Stats { version, input_stats: sort_by_name(list) }),
            Err(e) => StatsStep::Failed(e),
        },
    }
}

} // verus!
