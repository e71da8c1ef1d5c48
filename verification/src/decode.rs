//! Reading a deploy configuration out of a document.
//!
//! A configuration is an object. A member that the schema does not name is
//! not read. An optional member may be missing or `null`. Where a member
//! that is needed is missing, or a member has the wrong type, the
//! configuration is refused, and the error is the key of that member.

use vstd::prelude::*;
use crate::assoc::{lemma_to_map_contains, lemma_to_map_value};
use crate::json::{get_member, item_views, member_map, member_views, Json, JsonView, NumberView};
use crate::models::{
    entry_views, scope_views, DeployConfig, DeployConfigView, EnvironmentTable, EnvironmentVariable,
    EnvironmentVariableValue, EnvironmentVariableValueView, EnvironmentVariableView,
    FlyAutoscalingBalanceMethod, FlyBuild, FlyBuildView, FlyDatabase, FlyDatabasePostgres,
    FlyDeploy, FlyDeployStrategy, FlyDeployView, FlyGcpKms, FlyGcpKmsView, FlyGcpSsm, FlyGcpSsmView,
    FlyKillSignal, FlyMount, FlyMountView, FlyScaling, FlyService, FlyServiceConcurrency,
    FlyServiceConcurrencyView, FlyServiceHttpCheck, FlyServiceHttpCheckProtocol,
    FlyServiceHttpCheckView, FlyServicePort, FlyServicePortHandler, FlyServicePortView,
    FlyServiceProtocol, FlyServiceTcpCheck, FlyServiceTcpCheckView, FlyServiceView, FlyStatic,
    FlyStaticView, FlyVmSize, StringMap,
};
use crate::text::str_eq;
use crate::views::{opt_view, opt_views, views};
use crate::codec::number_as_u64;

verus! {

/// The members of an object.
pub type Members = Map<Seq<char>, JsonView>;

/// What decoding gives: the value, or the key of the member that is missing
/// or has the wrong type.
pub type Decoded<T> = Result<T, Seq<char>>;

/// The member of `key`, where there is one that is not `null`.
pub open spec fn present(m: Members, key: Seq<char>) -> bool {
    m.contains_key(key) && m[key] != JsonView::Null
}

/// The string that a document is.
pub open spec fn text_of(doc: JsonView, at: Seq<char>) -> Decoded<Seq<char>> {
    match doc {
        JsonView::String(s) => Ok(s),
        _ => Err(at),
    }
}

/// The unsigned integer that a document is.
pub open spec fn unsigned_of(doc: JsonView, at: Seq<char>) -> Decoded<u64> {
    match doc {
        JsonView::Number(NumberView::Integer(i)) if 0 <= i <= u64::MAX => Ok(i as u64),
        _ => Err(at),
    }
}

/// The truth value that a document is.
pub open spec fn flag_of(doc: JsonView, at: Seq<char>) -> Decoded<bool> {
    match doc {
        JsonView::Bool(b) => Ok(b),
        _ => Err(at),
    }
}

/// A string that must be there.
pub open spec fn required_text(m: Members, key: Seq<char>) -> Decoded<Seq<char>> {
    if m.contains_key(key) {
        text_of(m[key], key)
    } else {
        Err(key)
    }
}

/// A string that may be missing.
pub open spec fn optional_text(m: Members, key: Seq<char>) -> Decoded<Option<Seq<char>>> {
    if present(m, key) {
        match text_of(m[key], key) {
            Ok(s) => Ok(Some(s)),
            Err(e) => Err(e),
        }
    } else {
        Ok(None)
    }
}

/// An unsigned integer that must be there.
pub open spec fn required_unsigned(m: Members, key: Seq<char>) -> Decoded<u64> {
    if m.contains_key(key) {
        unsigned_of(m[key], key)
    } else {
        Err(key)
    }
}

/// An unsigned integer that may be missing.
pub open spec fn optional_unsigned(m: Members, key: Seq<char>) -> Decoded<Option<u64>> {
    if present(m, key) {
        match unsigned_of(m[key], key) {
            Ok(n) => Ok(Some(n)),
            Err(e) => Err(e),
        }
    } else {
        Ok(None)
    }
}

/// An unsigned integer that stands for `default` where it is missing.
pub open spec fn unsigned_or(m: Members, key: Seq<char>, default: u64) -> Decoded<u64> {
    if m.contains_key(key) {
        unsigned_of(m[key], key)
    } else {
        Ok(default)
    }
}

/// A truth value that may be missing.
pub open spec fn optional_flag(m: Members, key: Seq<char>) -> Decoded<Option<bool>> {
    if present(m, key) {
        match flag_of(m[key], key) {
            Ok(b) => Ok(Some(b)),
            Err(e) => Err(e),
        }
    } else {
        Ok(None)
    }
}

/// The strings that the documents of a list are.
pub open spec fn texts_of(items: Seq<JsonView>, at: Seq<char>) -> Decoded<Seq<Seq<char>>> {
    if forall|i: int| 0 <= i < items.len() ==> #[trigger] items[i] is String {
        Ok(Seq::new(items.len(), |i: int| items[i]->String_0))
    } else {
        Err(at)
    }
}

/// The list of strings that a document is.
pub open spec fn text_list_of(doc: JsonView, at: Seq<char>) -> Decoded<Seq<Seq<char>>> {
    match doc {
        JsonView::Array(items) => texts_of(items, at),
        _ => Err(at),
    }
}

/// A list of strings that must be there.
pub open spec fn required_texts(m: Members, key: Seq<char>) -> Decoded<Seq<Seq<char>>> {
    if m.contains_key(key) {
        text_list_of(m[key], key)
    } else {
        Err(key)
    }
}

/// A list of strings that is empty where it is missing.
pub open spec fn texts_or_none(m: Members, key: Seq<char>) -> Decoded<Seq<Seq<char>>> {
    if m.contains_key(key) {
        text_list_of(m[key], key)
    } else {
        Ok(Seq::empty())
    }
}

/// A list of strings that may be missing.
pub open spec fn optional_texts(m: Members, key: Seq<char>) -> Decoded<Option<Seq<Seq<char>>>> {
    if present(m, key) {
        match text_list_of(m[key], key) {
            Ok(s) => Ok(Some(s)),
            Err(e) => Err(e),
        }
    } else {
        Ok(None)
    }
}

/// The map of strings that a document is: an object whose members are all
/// strings.
pub open spec fn text_map_of(doc: JsonView, at: Seq<char>) -> Decoded<Map<Seq<char>, Seq<char>>> {
    match doc {
        JsonView::Object(m) => if forall|k: Seq<char>| m.contains_key(k) ==> #[trigger] m[k] is String {
            Ok(Map::new(|k: Seq<char>| m.contains_key(k), |k: Seq<char>| m[k]->String_0))
        } else {
            Err(at)
        },
        _ => Err(at),
    }
}

/// A map of strings that may be missing.
pub open spec fn optional_text_map(m: Members, key: Seq<char>) -> Decoded<
    Option<Map<Seq<char>, Seq<char>>>,
> {
    if present(m, key) {
        match text_map_of(m[key], key) {
            Ok(s) => Ok(Some(s)),
            Err(e) => Err(e),
        }
    } else {
        Ok(None)
    }
}

/// The error that names `key`.
fn refused<T>(key: &str) -> (r: Result<T, String>)
    ensures
        r matches Err(e) && e@ == key@,
{
    Err(String::from_str(key))
}

/// Reads a string.
fn read_text(doc: &Json, at: &str) -> (r: Result<String, String>)
    ensures
        decoded_as(r, text_of(doc@, at@)),
{
    match doc {
        Json::String(s) => Ok(s.clone()),
        _ => refused(at),
    }
}

/// `r` is `d`, seen through the views of the value and of the key.
pub open spec fn decoded_as<T: View>(r: Result<T, String>, d: Decoded<T::V>) -> bool {
    match r {
        Ok(v) => d == Ok::<T::V, Seq<char>>(v@),
        Err(e) => d == Err::<T::V, Seq<char>>(e@),
    }
}

/// `r` is `d`, seen through the view of the key.
pub open spec fn decoded_plain<T>(r: Result<T, String>, d: Decoded<T>) -> bool {
    match r {
        Ok(v) => d == Ok::<T, Seq<char>>(v),
        Err(e) => d == Err::<T, Seq<char>>(e@),
    }
}

/// `r` is `d`, seen through the views of the value, where there is one, and
/// of the key.
pub open spec fn decoded_opt<T: View>(
    r: Result<Option<T>, String>,
    d: Decoded<Option<T::V>>,
) -> bool {
    match r {
        Ok(v) => d == Ok::<Option<T::V>, Seq<char>>(opt_view(v)),
        Err(e) => d == Err::<Option<T::V>, Seq<char>>(e@),
    }
}

/// `r` is `d`, seen through the views of the values and of the key.
pub open spec fn decoded_list<T: View>(r: Result<Vec<T>, String>, d: Decoded<Seq<T::V>>) -> bool {
    match r {
        Ok(v) => d == Ok::<Seq<T::V>, Seq<char>>(views(v@)),
        Err(e) => d == Err::<Seq<T::V>, Seq<char>>(e@),
    }
}

/// `r` is `d`, seen through the views of the values, where there are any,
/// and of the key.
pub open spec fn decoded_opt_list<T: View>(
    r: Result<Option<Vec<T>>, String>,
    d: Decoded<Option<Seq<T::V>>>,
) -> bool {
    match r {
        Ok(v) => d == Ok::<Option<Seq<T::V>>, Seq<char>>(opt_views(v)),
        Err(e) => d == Err::<Option<Seq<T::V>>, Seq<char>>(e@),
    }
}

/// Reads an unsigned integer.
fn read_unsigned(doc: &Json, at: &str) -> (r: Result<u64, String>)
    ensures
        decoded_plain(r, unsigned_of(doc@, at@)),
{
    match doc {
        Json::Number(n) => match number_as_u64(n) {
            Some(v) => Ok(v),
            None => refused(at),
        },
        _ => refused(at),
    }
}

/// Reads a truth value.
fn read_flag(doc: &Json, at: &str) -> (r: Result<bool, String>)
    ensures
        decoded_plain(r, flag_of(doc@, at@)),
{
    match doc {
        Json::Bool(b) => Ok(*b),
        _ => refused(at),
    }
}

/// The member of `key` that is not `null`, if there is one.
fn member_present<'a>(members: &'a Vec<(String, Json)>, key: &str) -> (r: Option<&'a Json>)
    ensures
        r is Some == present(member_map(members@), key@),
        r matches Some(v) ==> v@ == member_map(members@)[key@],
{
    match get_member(members, key) {
        Some(Json::Null) => None,
        Some(v) => Some(v),
        None => None,
    }
}

fn read_required_text(members: &Vec<(String, Json)>, key: &str) -> (r: Result<String, String>)
    ensures
        decoded_as(r, required_text(member_map(members@), key@)),
{
    match get_member(members, key) {
        Some(v) => read_text(v, key),
        None => refused(key),
    }
}

/// Reads a string that may be missing.
pub fn read_optional_text(
    members: &Vec<(String, Json)>,
    key: &str,
) -> (r: Result<Option<String>, String>)
    ensures
        decoded_opt(r, optional_text(member_map(members@), key@)),
{
    match member_present(members, key) {
        Some(v) => match read_text(v, key) {
            Ok(s) => Ok(Some(s)),
            Err(e) => Err(e),
        },
        None => Ok(None),
    }
}

fn read_required_unsigned(members: &Vec<(String, Json)>, key: &str) -> (r: Result<u64, String>)
    ensures
        decoded_plain(r, required_unsigned(member_map(members@), key@)),
{
    match get_member(members, key) {
        Some(v) => read_unsigned(v, key),
        None => refused(key),
    }
}

fn read_optional_unsigned(members: &Vec<(String, Json)>, key: &str) -> (r: Result<
    Option<u64>,
    String,
>)
    ensures
        decoded_plain(r, optional_unsigned(member_map(members@), key@)),
{
    match member_present(members, key) {
        Some(v) => match read_unsigned(v, key) {
            Ok(n) => Ok(Some(n)),
            Err(e) => Err(e),
        },
        None => Ok(None),
    }
}

fn read_unsigned_or(members: &Vec<(String, Json)>, key: &str, default: u64) -> (r: Result<
    u64,
    String,
>)
    ensures
        decoded_plain(r, unsigned_or(member_map(members@), key@, default)),
{
    match get_member(members, key) {
        Some(v) => read_unsigned(v, key),
        None => Ok(default),
    }
}

fn read_optional_flag(members: &Vec<(String, Json)>, key: &str) -> (r: Result<Option<bool>, String>)
    ensures
        decoded_plain(r, optional_flag(member_map(members@), key@)),
{
    match member_present(members, key) {
        Some(v) => match read_flag(v, key) {
            Ok(b) => Ok(Some(b)),
            Err(e) => Err(e),
        },
        None => Ok(None),
    }
}

/// Reads a list of strings.
fn read_text_list(doc: &Json, at: &str) -> (r: Result<Vec<String>, String>)
    ensures
        decoded_list(r, text_list_of(doc@, at@)),
{
    match doc {
        Json::Array(items) => {
            let mut out: Vec<String> = Vec::new();
            let mut i: usize = 0;
            while i < items.len()
                invariant
                    doc@ == JsonView::Array(item_views(items@)),
                    i <= items.len(),
                    out.len() == i,
                    forall|j: int| 0 <= j < i ==> items[j]@ == JsonView::String(#[trigger] out[j]@),
                decreases items.len() - i,
            {
                match &items[i] {
                    Json::String(s) => {
                        out.push(s.clone());
                    },
                    _ => {
                        assert(!(item_views(items@)[i as int] is String));
                        return refused(at);
                    },
                }
                i += 1;
            }
            proof {
                let v = item_views(items@);
                assert forall|j: int| 0 <= j < v.len() implies #[trigger] v[j] is String by {
                    assert(items[j]@ == JsonView::String(out[j]@));
                }
                assert(views(out@) =~= Seq::new(v.len(), |j: int| v[j]->String_0)) by {
                    assert forall|j: int| 0 <= j < v.len() implies views(out@)[j] == v[j]->String_0 by {
                        assert(items[j]@ == JsonView::String(out[j]@));
                    }
                }
            }
            Ok(out)
        },
        _ => refused(at),
    }
}

fn read_required_texts(members: &Vec<(String, Json)>, key: &str) -> (r: Result<Vec<String>, String>)
    ensures
        decoded_list(r, required_texts(member_map(members@), key@)),
{
    match get_member(members, key) {
        Some(v) => read_text_list(v, key),
        None => refused(key),
    }
}

fn read_texts_or_none(members: &Vec<(String, Json)>, key: &str) -> (r: Result<Vec<String>, String>)
    ensures
        decoded_list(r, texts_or_none(member_map(members@), key@)),
{
    match get_member(members, key) {
        Some(v) => read_text_list(v, key),
        None => {
            let out: Vec<String> = Vec::new();
            assert(views(out@) =~= Seq::empty());
            Ok(out)
        },
    }
}

fn read_optional_texts(members: &Vec<(String, Json)>, key: &str) -> (r: Result<
    Option<Vec<String>>,
    String,
>)
    ensures
        decoded_opt_list(r, optional_texts(member_map(members@), key@)),
{
    match member_present(members, key) {
        Some(v) => match read_text_list(v, key) {
            Ok(s) => Ok(Some(s)),
            Err(e) => Err(e),
        },
        None => Ok(None),
    }
}

/// Reads a map of strings.
fn read_text_map(doc: &Json, at: &str) -> (r: Result<StringMap, String>)
    ensures
        decoded_as(r, text_map_of(doc@, at@)),
{
    match doc {
        Json::Object(members) => {
            let ghost m = member_map(members@);
            let mut entries: Vec<(String, String)> = Vec::new();
            let mut i: usize = 0;
            while i < members.len()
                invariant
                    doc@ == JsonView::Object(m),
                    m == member_map(members@),
                    i <= members.len(),
                    entries.len() == i,
                    forall|j: int|
                        0 <= j < i ==> (#[trigger] entries[j]).0@ == members[j].0@ && m.contains_key(
                            members[j].0@,
                        ) && m[members[j].0@] == JsonView::String(entries[j].1@),
                decreases members.len() - i,
            {
                let key = &members[i].0;
                proof {
                    assert(member_views(members@)[i as int].0 == key@);
                    lemma_to_map_contains(member_views(members@), key@);
                }
                match get_member(members, key.as_str()) {
                    Some(Json::String(s)) => {
                        entries.push((key.clone(), s.clone()));
                    },
                    _ => {
                        assert(m.contains_key(key@) && !(m[key@] is String));
                        return refused(at);
                    },
                }
                i += 1;
            }
            let out = StringMap { entries };
            proof {
                let target = Map::new(
                    |k: Seq<char>| m.contains_key(k),
                    |k: Seq<char>| m[k]->String_0,
                );
                let ev = entry_views(out.entries@);
                let mv = member_views(members@);
                assert forall|k: Seq<char>| m.contains_key(k) implies #[trigger] m[k] is String by {
                    lemma_to_map_contains(mv, k);
                    let j = choose|j: int| 0 <= j < mv.len() && mv[j].0 == k;
                    assert(out.entries[j].0@ == members[j].0@);
                }
                assert forall|k: Seq<char>| out@.contains_key(k) == target.contains_key(k) by {
                    lemma_to_map_contains(mv, k);
                    lemma_to_map_contains(ev, k);
                    if out@.contains_key(k) {
                        let j = choose|j: int| 0 <= j < ev.len() && ev[j].0 == k;
                        assert(out.entries[j].0@ == members[j].0@);
                        assert(mv[j].0 == k);
                    }
                    if target.contains_key(k) {
                        let j = choose|j: int| 0 <= j < mv.len() && mv[j].0 == k;
                        assert(out.entries[j].0@ == members[j].0@);
                        assert(ev[j].0 == k);
                    }
                }
                assert forall|k: Seq<char>| out@.contains_key(k) implies out@[k] == target[k] by {
                    lemma_to_map_value(ev, k);
                    let j = choose|j: int| 0 <= j < ev.len() && ev[j].0 == k && ev[j].1 == out@[k];
                    assert(out.entries[j].0@ == members[j].0@);
                    assert(m[k] == JsonView::String(out.entries[j].1@));
                    assert(target.contains_key(k));
                }
                assert(out@ =~= target);
            }
            Ok(out)
        },
        _ => refused(at),
    }
}

/// Reads a map of strings that may be missing.
pub fn read_optional_text_map(members: &Vec<(String, Json)>, key: &str) -> (r: Result<
    Option<StringMap>,
    String,
>)
    ensures
        decoded_opt(r, optional_text_map(member_map(members@), key@)),
{
    match member_present(members, key) {
        Some(v) => match read_text_map(v, key) {
            Ok(s) => Ok(Some(s)),
            Err(e) => Err(e),
        },
        None => Ok(None),
    }
}

/// A member that must be there, read by `inner`.
pub open spec fn required<T>(m: Members, key: Seq<char>, inner: Decoded<T>) -> Decoded<T> {
    if m.contains_key(key) {
        inner
    } else {
        Err(key)
    }
}

/// A member that may be missing or `null`, read by `inner` where it is
/// there.
pub open spec fn optional<T>(m: Members, key: Seq<char>, inner: Decoded<T>) -> Decoded<Option<T>> {
    if present(m, key) {
        match inner {
            Ok(v) => Ok(Some(v)),
            Err(e) => Err(e),
        }
    } else {
        Ok(None)
    }
}

/// A member that stands for `default` where it is missing, read by `inner`
/// where it is there.
pub open spec fn or_default<T>(
    m: Members,
    key: Seq<char>,
    inner: Decoded<T>,
    default: T,
) -> Decoded<
    T,
> {
    if m.contains_key(key) {
        inner
    } else {
        Ok(default)
    }
}

/// The values that `each` reads from the documents of a list, or the error
/// of the first document that it refuses.
pub open spec fn list_of<T>(items: Seq<JsonView>, each: spec_fn(JsonView) -> Decoded<T>) -> Decoded<
    Seq<T>,
>
    decreases items.len(),
{
    if items.len() == 0 {
        Ok(Seq::empty())
    } else {
        match list_of(items.drop_last(), each) {
            Err(e) => Err(e),
            Ok(front) => match each(items.last()) {
                Err(e) => Err(e),
                Ok(x) => Ok(front.push(x)),
            },
        }
    }
}

/// The values that `each` reads from the items of an array.
pub open spec fn array_of<T>(
    doc: JsonView,
    at: Seq<char>,
    each: spec_fn(JsonView) -> Decoded<T>,
) -> Decoded<Seq<T>> {
    match doc {
        JsonView::Array(items) => list_of(items, each),
        _ => Err(at),
    }
}

/// Once a document of a list is refused, the list is refused with its
/// error, whatever follows.
pub proof fn lemma_list_of_refused<T>(
    items: Seq<JsonView>,
    each: spec_fn(JsonView) -> Decoded<T>,
    n: int,
)
    requires
        0 <= n <= items.len(),
        list_of(items.take(n), each) is Err,
    ensures
        list_of(items, each) == list_of(items.take(n), each),
    decreases items.len() - n,
{
    if n < items.len() {
        assert(items.take(n + 1).drop_last() =~= items.take(n));
        lemma_list_of_refused(items, each, n + 1);
    } else {
        assert(items.take(n) =~= items);
    }
}

/// What one more document adds to a list that was read so far.
pub proof fn lemma_list_of_next<T>(
    items: Seq<JsonView>,
    each: spec_fn(JsonView) -> Decoded<T>,
    n: int,
)
    requires
        0 <= n < items.len(),
        list_of(items.take(n), each) is Ok,
    ensures
        list_of(items.take(n + 1), each) == (match each(items[n]) {
            Err(e) => Err::<Seq<T>, Seq<char>>(e),
            Ok(x) => Ok(list_of(items.take(n), each)->Ok_0.push(x)),
        }),
{
    assert(items.take(n + 1).drop_last() =~= items.take(n));
}

/// The kill signal of a name.
pub open spec fn kill_signal_named(s: Seq<char>) -> Option<FlyKillSignal> {
    if s == "sigInt"@ {
        Some(FlyKillSignal::SigInt)
    } else if s == "sigTerm"@ {
        Some(FlyKillSignal::SigTerm)
    } else if s == "sigQuit"@ {
        Some(FlyKillSignal::SigQuit)
    } else if s == "sigUsr1"@ {
        Some(FlyKillSignal::SigUsr1)
    } else if s == "sigUsr2"@ {
        Some(FlyKillSignal::SigUsr2)
    } else if s == "sigKill"@ {
        Some(FlyKillSignal::SigKill)
    } else if s == "sigStop"@ {
        Some(FlyKillSignal::SigStop)
    } else {
        None
    }
}

/// The deploy strategy of a name.
pub open spec fn deploy_strategy_named(s: Seq<char>) -> Option<FlyDeployStrategy> {
    if s == "canary"@ {
        Some(FlyDeployStrategy::Canary)
    } else if s == "rolling"@ {
        Some(FlyDeployStrategy::Rolling)
    } else if s == "bluegreen"@ {
        Some(FlyDeployStrategy::Bluegreen)
    } else if s == "immediate"@ {
        Some(FlyDeployStrategy::Immediate)
    } else {
        None
    }
}

/// The transport of a name.
pub open spec fn service_protocol_named(s: Seq<char>) -> Option<FlyServiceProtocol> {
    if s == "tcp"@ {
        Some(FlyServiceProtocol::Tcp)
    } else if s == "udp"@ {
        Some(FlyServiceProtocol::Udp)
    } else {
        None
    }
}

/// The port handler of a name.
pub open spec fn port_handler_named(s: Seq<char>) -> Option<FlyServicePortHandler> {
    if s == "http"@ {
        Some(FlyServicePortHandler::Http)
    } else if s == "tls"@ {
        Some(FlyServicePortHandler::Tls)
    } else {
        None
    }
}

/// The health check protocol of a name.
pub open spec fn check_protocol_named(s: Seq<char>) -> Option<FlyServiceHttpCheckProtocol> {
    if s == "http"@ {
        Some(FlyServiceHttpCheckProtocol::Http)
    } else if s == "https"@ {
        Some(FlyServiceHttpCheckProtocol::Https)
    } else {
        None
    }
}

/// The balance method of a name.
pub open spec fn balance_method_named(s: Seq<char>) -> Option<FlyAutoscalingBalanceMethod> {
    if s == "balanced"@ {
        Some(FlyAutoscalingBalanceMethod::Balanced)
    } else if s == "standard"@ {
        Some(FlyAutoscalingBalanceMethod::Standard)
    } else if s == "static"@ {
        Some(FlyAutoscalingBalanceMethod::Static)
    } else {
        None
    }
}

/// The size class of a name.
pub open spec fn vm_size_named(s: Seq<char>) -> Option<FlyVmSize> {
    if s == "shared-cpu-1x"@ {
        Some(FlyVmSize::SharedCpu1x)
    } else if s == "dedicated-cpu-1x"@ {
        Some(FlyVmSize::DedicatedCpu1x)
    } else if s == "dedicated-cpu-2x"@ {
        Some(FlyVmSize::DedicatedCpu2x)
    } else if s == "dedicated-cpu-4x"@ {
        Some(FlyVmSize::DedicatedCpu4x)
    } else if s == "dedicated-cpu-8x"@ {
        Some(FlyVmSize::DedicatedCpu8x)
    } else {
        None
    }
}

/// The value that a document names: a string that `named` knows.
pub open spec fn named_of<T>(
    doc: JsonView,
    at: Seq<char>,
    named: spec_fn(Seq<char>) -> Option<T>,
) -> Decoded<
    T,
> {
    match doc {
        JsonView::String(s) => match named(s) {
            Some(v) => Ok(v),
            None => Err(at),
        },
        _ => Err(at),
    }
}

/// The kill signal that a document names.
pub open spec fn kill_signal_of(doc: JsonView, at: Seq<char>) -> Decoded<FlyKillSignal> {
    named_of(doc, at, |s: Seq<char>| kill_signal_named(s))
}

/// The deploy strategy that a document names.
pub open spec fn deploy_strategy_of(doc: JsonView, at: Seq<char>) -> Decoded<FlyDeployStrategy> {
    named_of(doc, at, |s: Seq<char>| deploy_strategy_named(s))
}

/// The transport that a document names.
pub open spec fn service_protocol_of(doc: JsonView, at: Seq<char>) -> Decoded<FlyServiceProtocol> {
    named_of(doc, at, |s: Seq<char>| service_protocol_named(s))
}

/// The port handler that a document names.
pub open spec fn port_handler_of(doc: JsonView, at: Seq<char>) -> Decoded<FlyServicePortHandler> {
    named_of(doc, at, |s: Seq<char>| port_handler_named(s))
}

/// The health check protocol that a document names.
pub open spec fn check_protocol_of(doc: JsonView, at: Seq<char>) -> Decoded<
    FlyServiceHttpCheckProtocol,
> {
    named_of(doc, at, |s: Seq<char>| check_protocol_named(s))
}

/// The balance method that a document names.
pub open spec fn balance_method_of(doc: JsonView, at: Seq<char>) -> Decoded<
    FlyAutoscalingBalanceMethod,
> {
    named_of(doc, at, |s: Seq<char>| balance_method_named(s))
}

/// The size class that a document names.
pub open spec fn vm_size_of(doc: JsonView, at: Seq<char>) -> Decoded<FlyVmSize> {
    named_of(doc, at, |s: Seq<char>| vm_size_named(s))
}

fn read_kill_signal(doc: &Json, at: &str) -> (r: Result<FlyKillSignal, String>)
    ensures
        decoded_plain(r, kill_signal_of(doc@, at@)),
{
    match doc {
        Json::String(s) => {
            let s = s.as_str();
            if str_eq(s, "sigInt") {
                Ok(FlyKillSignal::SigInt)
            } else if str_eq(s, "sigTerm") {
                Ok(FlyKillSignal::SigTerm)
            } else if str_eq(s, "sigQuit") {
                Ok(FlyKillSignal::SigQuit)
            } else if str_eq(s, "sigUsr1") {
                Ok(FlyKillSignal::SigUsr1)
            } else if str_eq(s, "sigUsr2") {
                Ok(FlyKillSignal::SigUsr2)
            } else if str_eq(s, "sigKill") {
                Ok(FlyKillSignal::SigKill)
            } else if str_eq(s, "sigStop") {
                Ok(FlyKillSignal::SigStop)
            } else {
                refused(at)
            }
        },
        _ => refused(at),
    }
}

fn read_deploy_strategy(doc: &Json, at: &str) -> (r: Result<FlyDeployStrategy, String>)
    ensures
        decoded_plain(r, deploy_strategy_of(doc@, at@)),
{
    match doc {
        Json::String(s) => {
            let s = s.as_str();
            if str_eq(s, "canary") {
                Ok(FlyDeployStrategy::Canary)
            } else if str_eq(s, "rolling") {
                Ok(FlyDeployStrategy::Rolling)
            } else if str_eq(s, "bluegreen") {
                Ok(FlyDeployStrategy::Bluegreen)
            } else if str_eq(s, "immediate") {
                Ok(FlyDeployStrategy::Immediate)
            } else {
                refused(at)
            }
        },
        _ => refused(at),
    }
}

fn read_service_protocol(doc: &Json, at: &str) -> (r: Result<FlyServiceProtocol, String>)
    ensures
        decoded_plain(r, service_protocol_of(doc@, at@)),
{
    match doc {
        Json::String(s) => {
            let s = s.as_str();
            if str_eq(s, "tcp") {
                Ok(FlyServiceProtocol::Tcp)
            } else if str_eq(s, "udp") {
                Ok(FlyServiceProtocol::Udp)
            } else {
                refused(at)
            }
        },
        _ => refused(at),
    }
}

fn read_port_handler(doc: &Json, at: &str) -> (r: Result<FlyServicePortHandler, String>)
    ensures
        decoded_plain(r, port_handler_of(doc@, at@)),
{
    match doc {
        Json::String(s) => {
            let s = s.as_str();
            if str_eq(s, "http") {
                Ok(FlyServicePortHandler::Http)
            } else if str_eq(s, "tls") {
                Ok(FlyServicePortHandler::Tls)
            } else {
                refused(at)
            }
        },
        _ => refused(at),
    }
}

fn read_check_protocol(doc: &Json, at: &str) -> (r: Result<FlyServiceHttpCheckProtocol, String>)
    ensures
        decoded_plain(r, check_protocol_of(doc@, at@)),
{
    match doc {
        Json::String(s) => {
            let s = s.as_str();
            if str_eq(s, "http") {
                Ok(FlyServiceHttpCheckProtocol::Http)
            } else if str_eq(s, "https") {
                Ok(FlyServiceHttpCheckProtocol::Https)
            } else {
                refused(at)
            }
        },
        _ => refused(at),
    }
}

fn read_balance_method(doc: &Json, at: &str) -> (r: Result<FlyAutoscalingBalanceMethod, String>)
    ensures
        decoded_plain(r, balance_method_of(doc@, at@)),
{
    match doc {
        Json::String(s) => {
            let s = s.as_str();
            if str_eq(s, "balanced") {
                Ok(FlyAutoscalingBalanceMethod::Balanced)
            } else if str_eq(s, "standard") {
                Ok(FlyAutoscalingBalanceMethod::Standard)
            } else if str_eq(s, "static") {
                Ok(FlyAutoscalingBalanceMethod::Static)
            } else {
                refused(at)
            }
        },
        _ => refused(at),
    }
}

fn read_vm_size(doc: &Json, at: &str) -> (r: Result<FlyVmSize, String>)
    ensures
        decoded_plain(r, vm_size_of(doc@, at@)),
{
    match doc {
        Json::String(s) => {
            let s = s.as_str();
            if str_eq(s, "shared-cpu-1x") {
                Ok(FlyVmSize::SharedCpu1x)
            } else if str_eq(s, "dedicated-cpu-1x") {
                Ok(FlyVmSize::DedicatedCpu1x)
            } else if str_eq(s, "dedicated-cpu-2x") {
                Ok(FlyVmSize::DedicatedCpu2x)
            } else if str_eq(s, "dedicated-cpu-4x") {
                Ok(FlyVmSize::DedicatedCpu4x)
            } else if str_eq(s, "dedicated-cpu-8x") {
                Ok(FlyVmSize::DedicatedCpu8x)
            } else {
                refused(at)
            }
        },
        _ => refused(at),
    }
}

/// The static file mount that a document is.
pub open spec fn static_of(doc: JsonView, at: Seq<char>) -> Decoded<FlyStaticView> {
    match doc {
        JsonView::Object(m) => {
            let guest_path = required_text(m, "guest_path"@);
            let url_prefix = required_text(m, "url_prefix"@);
            if guest_path is Err {
                Err(guest_path->Err_0)
            } else if url_prefix is Err {
                Err(url_prefix->Err_0)
            } else {
                Ok(FlyStaticView { guest_path: guest_path->Ok_0, url_prefix: url_prefix->Ok_0 })
            }
        },
        _ => Err(at),
    }
}

fn read_static(doc: &Json, at: &str) -> (r: Result<FlyStatic, String>)
    ensures
        decoded_as(r, static_of(doc@, at@)),
{
    match doc {
        Json::Object(members) => {
            let guest_path = read_required_text(members, "guest_path")?;
            let url_prefix = read_required_text(members, "url_prefix")?;
            Ok(FlyStatic { guest_path, url_prefix })
        },
        _ => refused(at),
    }
}

/// What reads one item of a list of this kind.
pub open spec fn static_reader(at: Seq<char>) -> spec_fn(JsonView) -> Decoded<FlyStaticView> {
    |d: JsonView| static_of(d, at)
}

fn read_statics(doc: &Json, at: &str) -> (r: Result<Vec<FlyStatic>, String>)
    ensures
        decoded_list(r, array_of(doc@, at@, static_reader(at@))),
{
    match doc {
        Json::Array(items) => {
            let mut out: Vec<FlyStatic> = Vec::new();
            let mut i: usize = 0;
            assert(item_views(items@).take(0) =~= Seq::empty());
            assert(views(out@) =~= Seq::empty());
            while i < items.len()
                invariant
                    doc@ == JsonView::Array(item_views(items@)),
                    i <= items.len(),
                    list_of(item_views(items@).take(i as int), static_reader(at@)) == Ok::<
                        Seq<FlyStaticView>,
                        Seq<char>,
                    >(views(out@)),
                decreases items.len() - i,
            {
                proof {
                    lemma_list_of_next(item_views(items@), static_reader(at@), i as int);
                }
                let ghost before = views(out@);
                match read_static(&items[i], at) {
                    Ok(x) => {
                        out.push(x);
                        assert(views(out@) =~= before.push(out[out.len() - 1]@));
                    },
                    Err(e) => {
                        proof {
                            lemma_list_of_refused(
                                item_views(items@),
                                static_reader(at@),
                                i + 1,
                            );
                        }
                        return Err(e);
                    },
                }
                i += 1;
            }
            assert(item_views(items@).take(items.len() as int) =~= item_views(items@));
            Ok(out)
        },
        _ => refused(at),
    }
}


/// The volume mount that a document is.
pub open spec fn mount_of(doc: JsonView, at: Seq<char>) -> Decoded<FlyMountView> {
    match doc {
        JsonView::Object(m) => {
            let source = required_text(m, "source"@);
            let destination = required_text(m, "destination"@);
            if source is Err {
                Err(source->Err_0)
            } else if destination is Err {
                Err(destination->Err_0)
            } else {
                Ok(
                    FlyMountView {
                        source: source->Ok_0,
                        destination: destination->Ok_0,
                    },
                )
            }
        },
        _ => Err(at),
    }
}

fn read_mount(doc: &Json, at: &str) -> (r: Result<FlyMount, String>)
    ensures
        decoded_as(r, mount_of(doc@, at@)),
{
    match doc {
        Json::Object(members) => {
            let source = read_required_text(members, "source")?;
            let destination = read_required_text(members, "destination")?;
            Ok(FlyMount { source, destination })
        },
        _ => refused(at),
    }
}

/// What reads one item of a list of this kind.
pub open spec fn mount_reader(at: Seq<char>) -> spec_fn(JsonView) -> Decoded<FlyMountView> {
    |d: JsonView| mount_of(d, at)
}

fn read_mounts(doc: &Json, at: &str) -> (r: Result<Vec<FlyMount>, String>)
    ensures
        decoded_list(r, array_of(doc@, at@, mount_reader(at@))),
{
    match doc {
        Json::Array(items) => {
            let mut out: Vec<FlyMount> = Vec::new();
            let mut i: usize = 0;
            assert(item_views(items@).take(0) =~= Seq::empty());
            assert(views(out@) =~= Seq::empty());
            while i < items.len()
                invariant
                    doc@ == JsonView::Array(item_views(items@)),
                    i <= items.len(),
                    list_of(item_views(items@).take(i as int), mount_reader(at@)) == Ok::<
                        Seq<FlyMountView>,
                        Seq<char>,
                    >(views(out@)),
                decreases items.len() - i,
            {
                proof {
                    lemma_list_of_next(item_views(items@), mount_reader(at@), i as int);
                }
                let ghost before = views(out@);
                match read_mount(&items[i], at) {
                    Ok(x) => {
                        out.push(x);
                        assert(views(out@) =~= before.push(out[out.len() - 1]@));
                    },
                    Err(e) => {
                        proof {
                            lemma_list_of_refused(
                                item_views(items@),
                                mount_reader(at@),
                                i + 1,
                            );
                        }
                        return Err(e);
                    },
                }
                i += 1;
            }
            assert(item_views(items@).take(items.len() as int) =~= item_views(items@));
            Ok(out)
        },
        _ => refused(at),
    }
}


/// The key reference that a document is.
pub open spec fn gcp_kms_of(doc: JsonView, at: Seq<char>) -> Decoded<FlyGcpKmsView> {
    match doc {
        JsonView::Object(m) => {
            let project = required_text(m, "project"@);
            let key_ring = required_text(m, "key_ring"@);
            let key = required_text(m, "key"@);
            let location = required_text(m, "location"@);
            if project is Err {
                Err(project->Err_0)
            } else if key_ring is Err {
                Err(key_ring->Err_0)
            } else if key is Err {
                Err(key->Err_0)
            } else if location is Err {
                Err(location->Err_0)
            } else {
                Ok(
                    FlyGcpKmsView {
                        project: project->Ok_0,
                        key_ring: key_ring->Ok_0,
                        key: key->Ok_0,
                        location: location->Ok_0,
                    },
                )
            }
        },
        _ => Err(at),
    }
}

fn read_gcp_kms(doc: &Json, at: &str) -> (r: Result<FlyGcpKms, String>)
    ensures
        decoded_as(r, gcp_kms_of(doc@, at@)),
{
    match doc {
        Json::Object(members) => {
            let project = read_required_text(members, "project")?;
            let key_ring = read_required_text(members, "key_ring")?;
            let key = read_required_text(members, "key")?;
            let location = read_required_text(members, "location")?;
            Ok(FlyGcpKms { project, key_ring, key, location })
        },
        _ => refused(at),
    }
}

/// The secret store reference that a document is.
pub open spec fn gcp_ssm_of(doc: JsonView, at: Seq<char>) -> Decoded<FlyGcpSsmView> {
    match doc {
        JsonView::Object(m) => {
            let project = required_text(m, "project"@);
            if project is Err {
                Err(project->Err_0)
            } else {
                Ok(
                    FlyGcpSsmView {
                        project: project->Ok_0,
                    },
                )
            }
        },
        _ => Err(at),
    }
}

fn read_gcp_ssm(doc: &Json, at: &str) -> (r: Result<FlyGcpSsm, String>)
    ensures
        decoded_as(r, gcp_ssm_of(doc@, at@)),
{
    match doc {
        Json::Object(members) => {
            let project = read_required_text(members, "project")?;
            Ok(FlyGcpSsm { project })
        },
        _ => refused(at),
    }
}

/// The Postgres cluster that a document is.
pub open spec fn postgres_of(doc: JsonView, at: Seq<char>) -> Decoded<FlyDatabasePostgres> {
    match doc {
        JsonView::Object(m) => {
            let cluster_size = unsigned_or(m, "cluster_size"@, 1);
            let vm_size = or_default(
                m,
                "vm_size"@,
                vm_size_of(m["vm_size"@], "vm_size"@),
                FlyVmSize::SharedCpu1x,
            );
            let volume_size = unsigned_or(m, "volume_size"@, 0);
            if cluster_size is Err {
                Err(cluster_size->Err_0)
            } else if vm_size is Err {
                Err(vm_size->Err_0)
            } else if volume_size is Err {
                Err(volume_size->Err_0)
            } else {
                Ok(
                    FlyDatabasePostgres {
                        cluster_size: cluster_size->Ok_0,
                        vm_size: vm_size->Ok_0,
                        volume_size: volume_size->Ok_0,
                    },
                )
            }
        },
        _ => Err(at),
    }
}

fn read_postgres(doc: &Json, at: &str) -> (r: Result<FlyDatabasePostgres, String>)
    ensures
        decoded_plain(r, postgres_of(doc@, at@)),
{
    match doc {
        Json::Object(members) => {
            let cluster_size = read_unsigned_or(members, "cluster_size", 1)?;
            let vm_size = match get_member(members, "vm_size") {
                Some(v) => read_vm_size(v, "vm_size")?,
                None => FlyVmSize::SharedCpu1x,
            };
            let volume_size = read_unsigned_or(members, "volume_size", 0)?;
            Ok(FlyDatabasePostgres { cluster_size, vm_size, volume_size })
        },
        _ => refused(at),
    }
}

/// The database part that a document is.
pub open spec fn database_of(doc: JsonView, at: Seq<char>) -> Decoded<FlyDatabase> {
    match doc {
        JsonView::Object(m) => {
            let postgres = optional(m, "postgres"@, postgres_of(m["postgres"@], "postgres"@));
            if postgres is Err {
                Err(postgres->Err_0)
            } else {
                Ok(
                    FlyDatabase {
                        postgres: postgres->Ok_0,
                    },
                )
            }
        },
        _ => Err(at),
    }
}

fn read_database(doc: &Json, at: &str) -> (r: Result<FlyDatabase, String>)
    ensures
        decoded_plain(r, database_of(doc@, at@)),
{
    match doc {
        Json::Object(members) => {
            let postgres = match member_present(members, "postgres") {
                Some(v) => Some(read_postgres(v, "postgres")?),
                None => None,
            };
            Ok(FlyDatabase { postgres })
        },
        _ => refused(at),
    }
}

/// The scaling policy that a document is.
pub open spec fn scaling_of(doc: JsonView, at: Seq<char>) -> Decoded<FlyScaling> {
    match doc {
        JsonView::Object(m) => {
            let memory = unsigned_or(m, "memory"@, 256);
            let vm_size = or_default(
                m,
                "vm_size"@,
                vm_size_of(m["vm_size"@], "vm_size"@),
                FlyVmSize::SharedCpu1x,
            );
            let min_count = unsigned_or(m, "min_count"@, 1);
            let max_count = unsigned_or(m, "max_count"@, 1);
            let balance_method = or_default(
                m,
                "balance_method"@,
                balance_method_of(m["balance_method"@], "balance_method"@),
                FlyAutoscalingBalanceMethod::Balanced,
            );
            if memory is Err {
                Err(memory->Err_0)
            } else if vm_size is Err {
                Err(vm_size->Err_0)
            } else if min_count is Err {
                Err(min_count->Err_0)
            } else if max_count is Err {
                Err(max_count->Err_0)
            } else if balance_method is Err {
                Err(balance_method->Err_0)
            } else {
                Ok(
                    FlyScaling {
                        memory: memory->Ok_0,
                        vm_size: vm_size->Ok_0,
                        min_count: min_count->Ok_0,
                        max_count: max_count->Ok_0,
                        balance_method: balance_method->Ok_0,
                    },
                )
            }
        },
        _ => Err(at),
    }
}

fn read_scaling(doc: &Json, at: &str) -> (r: Result<FlyScaling, String>)
    ensures
        decoded_plain(r, scaling_of(doc@, at@)),
{
    match doc {
        Json::Object(members) => {
            let memory = read_unsigned_or(members, "memory", 256)?;
            let vm_size = match get_member(members, "vm_size") {
                Some(v) => read_vm_size(v, "vm_size")?,
                None => FlyVmSize::SharedCpu1x,
            };
            let min_count = read_unsigned_or(members, "min_count", 1)?;
            let max_count = read_unsigned_or(members, "max_count", 1)?;
            let balance_method = match get_member(members, "balance_method") {
                Some(v) => read_balance_method(v, "balance_method")?,
                None => FlyAutoscalingBalanceMethod::Balanced,
            };
            Ok(FlyScaling { memory, vm_size, min_count, max_count, balance_method })
        },
        _ => refused(at),
    }
}

/// The deploy part that a document is.
pub open spec fn deploy_of(doc: JsonView, at: Seq<char>) -> Decoded<FlyDeployView> {
    match doc {
        JsonView::Object(m) => {
            let release_command = optional_text(m, "release_command"@);
            let strategy = optional(
                m,
                "strategy"@,
                deploy_strategy_of(m["strategy"@], "strategy"@),
            );
            if release_command is Err {
                Err(release_command->Err_0)
            } else if strategy is Err {
                Err(strategy->Err_0)
            } else {
                Ok(
                    FlyDeployView {
                        release_command: release_command->Ok_0,
                        strategy: strategy->Ok_0,
                    },
                )
            }
        },
        _ => Err(at),
    }
}

fn read_deploy(doc: &Json, at: &str) -> (r: Result<FlyDeploy, String>)
    ensures
        decoded_as(r, deploy_of(doc@, at@)),
{
    match doc {
        Json::Object(members) => {
            let release_command = read_optional_text(members, "release_command")?;
            let strategy = match member_present(members, "strategy") {
                Some(v) => Some(read_deploy_strategy(v, "strategy")?),
                None => None,
            };
            Ok(FlyDeploy { release_command, strategy })
        },
        _ => refused(at),
    }
}

/// The build part that a document is.
pub open spec fn build_of(doc: JsonView, at: Seq<char>) -> Decoded<FlyBuildView> {
    match doc {
        JsonView::Object(m) => {
            let builder = optional_text(m, "builder"@);
            let image = optional_text(m, "image"@);
            let dockerfile = optional_text(m, "dockerfile"@);
            let build_target = optional_text(m, "build_target"@);
            let buildpacks = optional_texts(m, "buildpacks"@);
            let args = optional_text_map(m, "args"@);
            if builder is Err {
                Err(builder->Err_0)
            } else if image is Err {
                Err(image->Err_0)
            } else if dockerfile is Err {
                Err(dockerfile->Err_0)
            } else if build_target is Err {
                Err(build_target->Err_0)
            } else if buildpacks is Err {
                Err(buildpacks->Err_0)
            } else if args is Err {
                Err(args->Err_0)
            } else {
                Ok(
                    FlyBuildView {
                        builder: builder->Ok_0,
                        image: image->Ok_0,
                        dockerfile: dockerfile->Ok_0,
                        build_target: build_target->Ok_0,
                        buildpacks: buildpacks->Ok_0,
                        args: args->Ok_0,
                    },
                )
            }
        },
        _ => Err(at),
    }
}

fn read_build(doc: &Json, at: &str) -> (r: Result<FlyBuild, String>)
    ensures
        decoded_as(r, build_of(doc@, at@)),
{
    match doc {
        Json::Object(members) => {
            let builder = read_optional_text(members, "builder")?;
            let image = read_optional_text(members, "image")?;
            let dockerfile = read_optional_text(members, "dockerfile")?;
            let build_target = read_optional_text(members, "build_target")?;
            let buildpacks = read_optional_texts(members, "buildpacks")?;
            let args = read_optional_text_map(members, "args")?;
            Ok(FlyBuild { builder, image, dockerfile, build_target, buildpacks, args })
        },
        _ => refused(at),
    }
}

/// The concurrency limits that a document is.
pub open spec fn concurrency_of(
    doc: JsonView,
    at: Seq<char>,
) -> Decoded<FlyServiceConcurrencyView> {
    match doc {
        JsonView::Object(m) => {
            let hard_limit = optional_unsigned(m, "hard_limit"@);
            let soft_limit = optional_unsigned(m, "soft_limit"@);
            let the_type = required_text(m, "type"@);
            if hard_limit is Err {
                Err(hard_limit->Err_0)
            } else if soft_limit is Err {
                Err(soft_limit->Err_0)
            } else if the_type is Err {
                Err(the_type->Err_0)
            } else {
                Ok(
                    FlyServiceConcurrencyView {
                        hard_limit: hard_limit->Ok_0,
                        soft_limit: soft_limit->Ok_0,
                        the_type: the_type->Ok_0,
                    },
                )
            }
        },
        _ => Err(at),
    }
}

fn read_concurrency(doc: &Json, at: &str) -> (r: Result<FlyServiceConcurrency, String>)
    ensures
        decoded_as(r, concurrency_of(doc@, at@)),
{
    match doc {
        Json::Object(members) => {
            let hard_limit = read_optional_unsigned(members, "hard_limit")?;
            let soft_limit = read_optional_unsigned(members, "soft_limit")?;
            let the_type = read_required_text(members, "type")?;
            Ok(FlyServiceConcurrency { hard_limit, soft_limit, the_type })
        },
        _ => refused(at),
    }
}

/// What reads one item of a list of this kind.
pub open spec fn port_handler_reader(
    at: Seq<char>,
) -> spec_fn(JsonView) -> Decoded<FlyServicePortHandler> {
    |d: JsonView| port_handler_of(d, at)
}

fn read_port_handlers(doc: &Json, at: &str) -> (r: Result<Vec<FlyServicePortHandler>, String>)
    ensures
        decoded_as(r, array_of(doc@, at@, port_handler_reader(at@))),
{
    match doc {
        Json::Array(items) => {
            let mut out: Vec<FlyServicePortHandler> = Vec::new();
            let mut i: usize = 0;
            assert(item_views(items@).take(0) =~= Seq::empty());
            assert(out@ =~= Seq::empty());
            while i < items.len()
                invariant
                    doc@ == JsonView::Array(item_views(items@)),
                    i <= items.len(),
                    list_of(item_views(items@).take(i as int), port_handler_reader(at@)) == Ok::<
                        Seq<FlyServicePortHandler>,
                        Seq<char>,
                    >(out@),
                decreases items.len() - i,
            {
                proof {
                    lemma_list_of_next(item_views(items@), port_handler_reader(at@), i as int);
                }
                let ghost before = out@;
                match read_port_handler(&items[i], at) {
                    Ok(x) => {
                        out.push(x);
                        assert(out@ =~= before.push(out[out.len() - 1]));
                    },
                    Err(e) => {
                        proof {
                            lemma_list_of_refused(
                                item_views(items@),
                                port_handler_reader(at@),
                                i + 1,
                            );
                        }
                        return Err(e);
                    },
                }
                i += 1;
            }
            assert(item_views(items@).take(items.len() as int) =~= item_views(items@));
            Ok(out)
        },
        _ => refused(at),
    }
}


/// The port that a document is.
pub open spec fn port_of(doc: JsonView, at: Seq<char>) -> Decoded<FlyServicePortView> {
    match doc {
        JsonView::Object(m) => {
            let port = required_unsigned(m, "port"@);
            let force_https = optional_flag(m, "force_https"@);
            let handlers = required(
                m,
                "handlers"@,
                array_of(m["handlers"@], "handlers"@, port_handler_reader("handlers"@)),
            );
            if port is Err {
                Err(port->Err_0)
            } else if force_https is Err {
                Err(force_https->Err_0)
            } else if handlers is Err {
                Err(handlers->Err_0)
            } else {
                Ok(
                    FlyServicePortView {
                        port: port->Ok_0,
                        force_https: force_https->Ok_0,
                        handlers: handlers->Ok_0,
                    },
                )
            }
        },
        _ => Err(at),
    }
}

fn read_port(doc: &Json, at: &str) -> (r: Result<FlyServicePort, String>)
    ensures
        decoded_as(r, port_of(doc@, at@)),
{
    match doc {
        Json::Object(members) => {
            let port = read_required_unsigned(members, "port")?;
            let force_https = read_optional_flag(members, "force_https")?;
            let handlers = match get_member(members, "handlers") {
                Some(v) => read_port_handlers(v, "handlers")?,
                None => { return refused("handlers"); },
            };
            Ok(FlyServicePort { port, force_https, handlers })
        },
        _ => refused(at),
    }
}

/// What reads one item of a list of this kind.
pub open spec fn port_reader(at: Seq<char>) -> spec_fn(JsonView) -> Decoded<FlyServicePortView> {
    |d: JsonView| port_of(d, at)
}

fn read_ports(doc: &Json, at: &str) -> (r: Result<Vec<FlyServicePort>, String>)
    ensures
        decoded_list(r, array_of(doc@, at@, port_reader(at@))),
{
    match doc {
        Json::Array(items) => {
            let mut out: Vec<FlyServicePort> = Vec::new();
            let mut i: usize = 0;
            assert(item_views(items@).take(0) =~= Seq::empty());
            assert(views(out@) =~= Seq::empty());
            while i < items.len()
                invariant
                    doc@ == JsonView::Array(item_views(items@)),
                    i <= items.len(),
                    list_of(item_views(items@).take(i as int), port_reader(at@)) == Ok::<
                        Seq<FlyServicePortView>,
                        Seq<char>,
                    >(views(out@)),
                decreases items.len() - i,
            {
                proof {
                    lemma_list_of_next(item_views(items@), port_reader(at@), i as int);
                }
                let ghost before = views(out@);
                match read_port(&items[i], at) {
                    Ok(x) => {
                        out.push(x);
                        assert(views(out@) =~= before.push(out[out.len() - 1]@));
                    },
                    Err(e) => {
                        proof {
                            lemma_list_of_refused(
                                item_views(items@),
                                port_reader(at@),
                                i + 1,
                            );
                        }
                        return Err(e);
                    },
                }
                i += 1;
            }
            assert(item_views(items@).take(items.len() as int) =~= item_views(items@));
            Ok(out)
        },
        _ => refused(at),
    }
}


/// The TCP health check that a document is.
pub open spec fn tcp_check_of(doc: JsonView, at: Seq<char>) -> Decoded<FlyServiceTcpCheckView> {
    match doc {
        JsonView::Object(m) => {
            let interval = optional_unsigned(m, "interval"@);
            let grace_period = optional_text(m, "grace_period"@);
            let timeout = optional_unsigned(m, "timeout"@);
            let restart_limit = optional_unsigned(m, "restart_limit"@);
            if interval is Err {
                Err(interval->Err_0)
            } else if grace_period is Err {
                Err(grace_period->Err_0)
            } else if timeout is Err {
                Err(timeout->Err_0)
            } else if restart_limit is Err {
                Err(restart_limit->Err_0)
            } else {
                Ok(
                    FlyServiceTcpCheckView {
                        interval: interval->Ok_0,
                        grace_period: grace_period->Ok_0,
                        timeout: timeout->Ok_0,
                        restart_limit: restart_limit->Ok_0,
                    },
                )
            }
        },
        _ => Err(at),
    }
}

fn read_tcp_check(doc: &Json, at: &str) -> (r: Result<FlyServiceTcpCheck, String>)
    ensures
        decoded_as(r, tcp_check_of(doc@, at@)),
{
    match doc {
        Json::Object(members) => {
            let interval = read_optional_unsigned(members, "interval")?;
            let grace_period = read_optional_text(members, "grace_period")?;
            let timeout = read_optional_unsigned(members, "timeout")?;
            let restart_limit = read_optional_unsigned(members, "restart_limit")?;
            Ok(FlyServiceTcpCheck { interval, grace_period, timeout, restart_limit })
        },
        _ => refused(at),
    }
}

/// What reads one item of a list of this kind.
pub open spec fn tcp_check_reader(
    at: Seq<char>,
) -> spec_fn(JsonView) -> Decoded<FlyServiceTcpCheckView> {
    |d: JsonView| tcp_check_of(d, at)
}

fn read_tcp_checks(doc: &Json, at: &str) -> (r: Result<Vec<FlyServiceTcpCheck>, String>)
    ensures
        decoded_list(r, array_of(doc@, at@, tcp_check_reader(at@))),
{
    match doc {
        Json::Array(items) => {
            let mut out: Vec<FlyServiceTcpCheck> = Vec::new();
            let mut i: usize = 0;
            assert(item_views(items@).take(0) =~= Seq::empty());
            assert(views(out@) =~= Seq::empty());
            while i < items.len()
                invariant
                    doc@ == JsonView::Array(item_views(items@)),
                    i <= items.len(),
                    list_of(item_views(items@).take(i as int), tcp_check_reader(at@)) == Ok::<
                        Seq<FlyServiceTcpCheckView>,
                        Seq<char>,
                    >(views(out@)),
                decreases items.len() - i,
            {
                proof {
                    lemma_list_of_next(item_views(items@), tcp_check_reader(at@), i as int);
                }
                let ghost before = views(out@);
                match read_tcp_check(&items[i], at) {
                    Ok(x) => {
                        out.push(x);
                        assert(views(out@) =~= before.push(out[out.len() - 1]@));
                    },
                    Err(e) => {
                        proof {
                            lemma_list_of_refused(
                                item_views(items@),
                                tcp_check_reader(at@),
                                i + 1,
                            );
                        }
                        return Err(e);
                    },
                }
                i += 1;
            }
            assert(item_views(items@).take(items.len() as int) =~= item_views(items@));
            Ok(out)
        },
        _ => refused(at),
    }
}


/// The HTTP health check that a document is.
pub open spec fn http_check_of(doc: JsonView, at: Seq<char>) -> Decoded<FlyServiceHttpCheckView> {
    match doc {
        JsonView::Object(m) => {
            let interval = optional_text(m, "interval"@);
            let grace_period = optional_text(m, "grace_period"@);
            let method = optional_text(m, "method"@);
            let path = optional_text(m, "path"@);
            let protocol = optional(m, "protocol"@, check_protocol_of(m["protocol"@], "protocol"@));
            let timeout = optional_text(m, "timeout"@);
            let restart_limit = optional_unsigned(m, "restart_limit"@);
            let tls_skip_verify = optional_flag(m, "tls_skip_verify"@);
            let headers = optional_text_map(m, "headers"@);
            if interval is Err {
                Err(interval->Err_0)
            } else if grace_period is Err {
                Err(grace_period->Err_0)
            } else if method is Err {
                Err(method->Err_0)
            } else if path is Err {
                Err(path->Err_0)
            } else if protocol is Err {
                Err(protocol->Err_0)
            } else if timeout is Err {
                Err(timeout->Err_0)
            } else if restart_limit is Err {
                Err(restart_limit->Err_0)
            } else if tls_skip_verify is Err {
                Err(tls_skip_verify->Err_0)
            } else if headers is Err {
                Err(headers->Err_0)
            } else {
                Ok(
                    FlyServiceHttpCheckView {
                        interval: interval->Ok_0,
                        grace_period: grace_period->Ok_0,
                        method: method->Ok_0,
                        path: path->Ok_0,
                        protocol: protocol->Ok_0,
                        timeout: timeout->Ok_0,
                        restart_limit: restart_limit->Ok_0,
                        tls_skip_verify: tls_skip_verify->Ok_0,
                        headers: headers->Ok_0,
                    },
                )
            }
        },
        _ => Err(at),
    }
}

fn read_http_check(doc: &Json, at: &str) -> (r: Result<FlyServiceHttpCheck, String>)
    ensures
        decoded_as(r, http_check_of(doc@, at@)),
{
    match doc {
        Json::Object(members) => {
            let interval = read_optional_text(members, "interval")?;
            let grace_period = read_optional_text(members, "grace_period")?;
            let method = read_optional_text(members, "method")?;
            let path = read_optional_text(members, "path")?;
            let protocol = match member_present(members, "protocol") {
                Some(v) => Some(read_check_protocol(v, "protocol")?),
                None => None,
            };
            let timeout = read_optional_text(members, "timeout")?;
            let restart_limit = read_optional_unsigned(members, "restart_limit")?;
            let tls_skip_verify = read_optional_flag(members, "tls_skip_verify")?;
            let headers = read_optional_text_map(members, "headers")?;
            Ok(
                FlyServiceHttpCheck {
                    interval,
                    grace_period,
                    method,
                    path,
                    protocol,
                    timeout,
                    restart_limit,
                    tls_skip_verify,
                    headers,
                },
            )
        },
        _ => refused(at),
    }
}

/// What reads one item of a list of this kind.
pub open spec fn http_check_reader(
    at: Seq<char>,
) -> spec_fn(JsonView) -> Decoded<FlyServiceHttpCheckView> {
    |d: JsonView| http_check_of(d, at)
}

fn read_http_checks(doc: &Json, at: &str) -> (r: Result<Vec<FlyServiceHttpCheck>, String>)
    ensures
        decoded_list(r, array_of(doc@, at@, http_check_reader(at@))),
{
    match doc {
        Json::Array(items) => {
            let mut out: Vec<FlyServiceHttpCheck> = Vec::new();
            let mut i: usize = 0;
            assert(item_views(items@).take(0) =~= Seq::empty());
            assert(views(out@) =~= Seq::empty());
            while i < items.len()
                invariant
                    doc@ == JsonView::Array(item_views(items@)),
                    i <= items.len(),
                    list_of(item_views(items@).take(i as int), http_check_reader(at@)) == Ok::<
                        Seq<FlyServiceHttpCheckView>,
                        Seq<char>,
                    >(views(out@)),
                decreases items.len() - i,
            {
                proof {
                    lemma_list_of_next(item_views(items@), http_check_reader(at@), i as int);
                }
                let ghost before = views(out@);
                match read_http_check(&items[i], at) {
                    Ok(x) => {
                        out.push(x);
                        assert(views(out@) =~= before.push(out[out.len() - 1]@));
                    },
                    Err(e) => {
                        proof {
                            lemma_list_of_refused(
                                item_views(items@),
                                http_check_reader(at@),
                                i + 1,
                            );
                        }
                        return Err(e);
                    },
                }
                i += 1;
            }
            assert(item_views(items@).take(items.len() as int) =~= item_views(items@));
            Ok(out)
        },
        _ => refused(at),
    }
}


/// The service that a document is.
pub open spec fn service_of(doc: JsonView, at: Seq<char>) -> Decoded<FlyServiceView> {
    match doc {
        JsonView::Object(m) => {
            let internal_port = required_unsigned(m, "internal_port"@);
            let processes = required_texts(m, "processes"@);
            let concurrency = required(
                m,
                "concurrency"@,
                concurrency_of(m["concurrency"@], "concurrency"@),
            );
            let ports = required(
                m,
                "ports"@,
                array_of(m["ports"@], "ports"@, port_reader("ports"@)),
            );
            let tcp_checks = optional(
                m,
                "tcp_checks"@,
                array_of(m["tcp_checks"@], "tcp_checks"@, tcp_check_reader("tcp_checks"@)),
            );
            let http_checks = optional(
                m,
                "http_checks"@,
                array_of(m["http_checks"@], "http_checks"@, http_check_reader("http_checks"@)),
            );
            let protocol = optional(
                m,
                "protocol"@,
                service_protocol_of(m["protocol"@], "protocol"@),
            );
            if internal_port is Err {
                Err(internal_port->Err_0)
            } else if processes is Err {
                Err(processes->Err_0)
            } else if concurrency is Err {
                Err(concurrency->Err_0)
            } else if ports is Err {
                Err(ports->Err_0)
            } else if tcp_checks is Err {
                Err(tcp_checks->Err_0)
            } else if http_checks is Err {
                Err(http_checks->Err_0)
            } else if protocol is Err {
                Err(protocol->Err_0)
            } else {
                Ok(
                    FlyServiceView {
                        internal_port: internal_port->Ok_0,
                        processes: processes->Ok_0,
                        concurrency: concurrency->Ok_0,
                        ports: ports->Ok_0,
                        tcp_checks: tcp_checks->Ok_0,
                        http_checks: http_checks->Ok_0,
                        protocol: protocol->Ok_0,
                    },
                )
            }
        },
        _ => Err(at),
    }
}

fn read_service(doc: &Json, at: &str) -> (r: Result<FlyService, String>)
    ensures
        decoded_as(r, service_of(doc@, at@)),
{
    match doc {
        Json::Object(members) => {
            let internal_port = read_required_unsigned(members, "internal_port")?;
            let processes = read_required_texts(members, "processes")?;
            let concurrency = match get_member(members, "concurrency") {
                Some(v) => read_concurrency(v, "concurrency")?,
                None => { return refused("concurrency"); },
            };
            let ports = match get_member(members, "ports") {
                Some(v) => read_ports(v, "ports")?,
                None => { return refused("ports"); },
            };
            let tcp_checks = match member_present(members, "tcp_checks") {
                Some(v) => Some(read_tcp_checks(v, "tcp_checks")?),
                None => None,
            };
            let http_checks = match member_present(members, "http_checks") {
                Some(v) => Some(read_http_checks(v, "http_checks")?),
                None => None,
            };
            let protocol = match member_present(members, "protocol") {
                Some(v) => Some(read_service_protocol(v, "protocol")?),
                None => None,
            };
            Ok(
                FlyService {
                    internal_port,
                    processes,
                    concurrency,
                    ports,
                    tcp_checks,
                    http_checks,
                    protocol,
                },
            )
        },
        _ => refused(at),
    }
}

/// What reads one item of a list of this kind.
pub open spec fn service_reader(at: Seq<char>) -> spec_fn(JsonView) -> Decoded<FlyServiceView> {
    |d: JsonView| service_of(d, at)
}

fn read_services(doc: &Json, at: &str) -> (r: Result<Vec<FlyService>, String>)
    ensures
        decoded_list(r, array_of(doc@, at@, service_reader(at@))),
{
    match doc {
        Json::Array(items) => {
            let mut out: Vec<FlyService> = Vec::new();
            let mut i: usize = 0;
            assert(item_views(items@).take(0) =~= Seq::empty());
            assert(views(out@) =~= Seq::empty());
            while i < items.len()
                invariant
                    doc@ == JsonView::Array(item_views(items@)),
                    i <= items.len(),
                    list_of(item_views(items@).take(i as int), service_reader(at@)) == Ok::<
                        Seq<FlyServiceView>,
                        Seq<char>,
                    >(views(out@)),
                decreases items.len() - i,
            {
                proof {
                    lemma_list_of_next(item_views(items@), service_reader(at@), i as int);
                }
                let ghost before = views(out@);
                match read_service(&items[i], at) {
                    Ok(x) => {
                        out.push(x);
                        assert(views(out@) =~= before.push(out[out.len() - 1]@));
                    },
                    Err(e) => {
                        proof {
                            lemma_list_of_refused(
                                item_views(items@),
                                service_reader(at@),
                                i + 1,
                            );
                        }
                        return Err(e);
                    },
                }
                i += 1;
            }
            assert(item_views(items@).take(items.len() as int) =~= item_views(items@));
            Ok(out)
        },
        _ => refused(at),
    }
}



/// The version of a secret that a document is.
pub open spec fn version_of(doc: JsonView, at: Seq<char>) -> Decoded<u16> {
    match doc {
        JsonView::Number(NumberView::Integer(i)) if 0 <= i <= u16::MAX => Ok(i as u16),
        _ => Err(at),
    }
}

/// The ciphertext that a document holds under `value`.
pub open spec fn kms_source_of(
    doc: JsonView,
    at: Seq<char>,
) -> Decoded<EnvironmentVariableValueView> {
    match doc {
        JsonView::Object(m) => match required_text(m, "value"@) {
            Ok(value) => Ok(EnvironmentVariableValueView::FromGcpKms { value }),
            Err(e) => Err(e),
        },
        _ => Err(at),
    }
}

/// The secret that a document names under `name` and `version`.
pub open spec fn ssm_source_of(
    doc: JsonView,
    at: Seq<char>,
) -> Decoded<EnvironmentVariableValueView> {
    match doc {
        JsonView::Object(m) => {
            let name = required_text(m, "name"@);
            let version = required(m, "version"@, version_of(m["version"@], "version"@));
            if name is Err {
                Err(name->Err_0)
            } else if version is Err {
                Err(version->Err_0)
            } else {
                Ok(
                    EnvironmentVariableValueView::FromGcpSsm {
                        name: name->Ok_0,
                        version: version->Ok_0,
                    },
                )
            }
        },
        _ => Err(at),
    }
}

/// Where the value of a variable comes from. The members of the variable
/// say so: `from_gcp_kms` before `from_gcp_ssm` before `value`.
pub open spec fn source_of(m: Members) -> Decoded<EnvironmentVariableValueView> {
    if m.contains_key("from_gcp_kms"@) {
        kms_source_of(m["from_gcp_kms"@], "from_gcp_kms"@)
    } else if m.contains_key("from_gcp_ssm"@) {
        ssm_source_of(m["from_gcp_ssm"@], "from_gcp_ssm"@)
    } else if m.contains_key("value"@) {
        match text_of(m["value"@], "value"@) {
            Ok(s) => Ok(EnvironmentVariableValueView::Value(s)),
            Err(e) => Err(e),
        }
    } else {
        Err("value"@)
    }
}

/// The environment variable that a document is.
pub open spec fn variable_of(doc: JsonView, at: Seq<char>) -> Decoded<EnvironmentVariableView> {
    match doc {
        JsonView::Object(m) => {
            let key = required_text(m, "key"@);
            let value = source_of(m);
            if key is Err {
                Err(key->Err_0)
            } else if value is Err {
                Err(value->Err_0)
            } else {
                Ok(EnvironmentVariableView { key: key->Ok_0, value: value->Ok_0 })
            }
        },
        _ => Err(at),
    }
}

fn read_version(doc: &Json, at: &str) -> (r: Result<u16, String>)
    ensures
        decoded_plain(r, version_of(doc@, at@)),
{
    match doc {
        Json::Number(n) => match number_as_u64(n) {
            Some(v) => if v <= 65535 {
                Ok(v as u16)
            } else {
                refused(at)
            },
            None => refused(at),
        },
        _ => refused(at),
    }
}

fn read_kms_source(doc: &Json, at: &str) -> (r: Result<EnvironmentVariableValue, String>)
    ensures
        decoded_as(r, kms_source_of(doc@, at@)),
{
    match doc {
        Json::Object(members) => {
            let value = read_required_text(members, "value")?;
            Ok(EnvironmentVariableValue::FromGcpKms { value })
        },
        _ => refused(at),
    }
}

fn read_ssm_source(doc: &Json, at: &str) -> (r: Result<EnvironmentVariableValue, String>)
    ensures
        decoded_as(r, ssm_source_of(doc@, at@)),
{
    match doc {
        Json::Object(members) => {
            let name = read_required_text(members, "name")?;
            let version = match get_member(members, "version") {
                Some(v) => read_version(v, "version")?,
                None => { return refused("version"); },
            };
            Ok(EnvironmentVariableValue::FromGcpSsm { name, version })
        },
        _ => refused(at),
    }
}

fn read_source(members: &Vec<(String, Json)>) -> (r: Result<EnvironmentVariableValue, String>)
    ensures
        decoded_as(r, source_of(member_map(members@))),
{
    match get_member(members, "from_gcp_kms") {
        Some(v) => { return read_kms_source(v, "from_gcp_kms"); },
        None => {},
    }
    match get_member(members, "from_gcp_ssm") {
        Some(v) => { return read_ssm_source(v, "from_gcp_ssm"); },
        None => {},
    }
    match get_member(members, "value") {
        Some(v) => {
            let s = read_text(v, "value")?;
            Ok(EnvironmentVariableValue::Value(s))
        },
        None => refused("value"),
    }
}

fn read_variable(doc: &Json, at: &str) -> (r: Result<EnvironmentVariable, String>)
    ensures
        decoded_as(r, variable_of(doc@, at@)),
{
    match doc {
        Json::Object(members) => {
            let key = read_required_text(members, "key")?;
            let value = read_source(members)?;
            Ok(EnvironmentVariable { key, value })
        },
        _ => refused(at),
    }
}

/// What reads one item of a list of this kind.
pub open spec fn variable_reader(
    at: Seq<char>,
) -> spec_fn(JsonView) -> Decoded<EnvironmentVariableView> {
    |d: JsonView| variable_of(d, at)
}

fn read_variables(doc: &Json, at: &str) -> (r: Result<Vec<EnvironmentVariable>, String>)
    ensures
        decoded_list(r, array_of(doc@, at@, variable_reader(at@))),
{
    match doc {
        Json::Array(items) => {
            let mut out: Vec<EnvironmentVariable> = Vec::new();
            let mut i: usize = 0;
            assert(item_views(items@).take(0) =~= Seq::empty());
            assert(views(out@) =~= Seq::empty());
            while i < items.len()
                invariant
                    doc@ == JsonView::Array(item_views(items@)),
                    i <= items.len(),
                    list_of(item_views(items@).take(i as int), variable_reader(at@)) == Ok::<
                        Seq<EnvironmentVariableView>,
                        Seq<char>,
                    >(views(out@)),
                decreases items.len() - i,
            {
                proof {
                    lemma_list_of_next(item_views(items@), variable_reader(at@), i as int);
                }
                let ghost before = views(out@);
                match read_variable(&items[i], at) {
                    Ok(x) => {
                        out.push(x);
                        assert(views(out@) =~= before.push(out[out.len() - 1]@));
                    },
                    Err(e) => {
                        proof {
                            lemma_list_of_refused(
                                item_views(items@),
                                variable_reader(at@),
                                i + 1,
                            );
                        }
                        return Err(e);
                    },
                }
                i += 1;
            }
            assert(item_views(items@).take(items.len() as int) =~= item_views(items@));
            Ok(out)
        },
        _ => refused(at),
    }
}


/// The environment table that a document is: an object whose members are
/// all lists of variables. Whatever is wrong in it, the error names the
/// table.
pub open spec fn scopes_of(doc: JsonView, at: Seq<char>) -> Decoded<
    Map<Seq<char>, Seq<EnvironmentVariableView>>,
> {
    match doc {
        JsonView::Object(t) => if forall|k: Seq<char>|
            t.contains_key(k) ==> #[trigger] array_of(t[k], at, variable_reader(at)) is Ok {
            Ok(
                Map::new(
                    |k: Seq<char>| t.contains_key(k),
                    |k: Seq<char>| array_of(t[k], at, variable_reader(at))->Ok_0,
                ),
            )
        } else {
            Err(at)
        },
        _ => Err(at),
    }
}

fn read_scopes(doc: &Json, at: &str) -> (r: Result<EnvironmentTable, String>)
    ensures
        decoded_as(r, scopes_of(doc@, at@)),
{
    match doc {
        Json::Object(members) => {
            let ghost m = member_map(members@);
            let ghost each = variable_reader(at@);
            let mut scopes: Vec<(String, Vec<EnvironmentVariable>)> = Vec::new();
            let mut i: usize = 0;
            while i < members.len()
                invariant
                    doc@ == JsonView::Object(m),
                    m == member_map(members@),
                    each == variable_reader(at@),
                    i <= members.len(),
                    scopes.len() == i,
                    forall|j: int|
                        0 <= j < i ==> (#[trigger] scopes[j]).0@ == members[j].0@ && m.contains_key(
                            members[j].0@,
                        ) && array_of(m[members[j].0@], at@, each) == Ok::<
                            Seq<EnvironmentVariableView>,
                            Seq<char>,
                        >(views(scopes[j].1@)),
                decreases members.len() - i,
            {
                let key = &members[i].0;
                proof {
                    assert(member_views(members@)[i as int].0 == key@);
                    lemma_to_map_contains(member_views(members@), key@);
                }
                match get_member(members, key.as_str()) {
                    Some(v) => match read_variables(v, at) {
                        Ok(variables) => {
                            scopes.push((key.clone(), variables));
                        },
                        Err(_) => {
                            assert(m.contains_key(key@) && array_of(m[key@], at@, each) is Err);
                            return refused(at);
                        },
                    },
                    None => {
                        return refused(at);
                    },
                }
                i += 1;
            }
            let out = EnvironmentTable { scopes };
            proof {
                let target = Map::new(
                    |k: Seq<char>| m.contains_key(k),
                    |k: Seq<char>| array_of(m[k], at@, each)->Ok_0,
                );
                let sv = scope_views(out.scopes@);
                let mv = member_views(members@);
                assert forall|k: Seq<char>| m.contains_key(k) implies #[trigger] array_of(
                    m[k],
                    at@,
                    each,
                ) is Ok by {
                    lemma_to_map_contains(mv, k);
                    let j = choose|j: int| 0 <= j < mv.len() && mv[j].0 == k;
                    assert(out.scopes[j].0@ == members[j].0@);
                }
                assert forall|k: Seq<char>| out@.contains_key(k) == target.contains_key(k) by {
                    lemma_to_map_contains(mv, k);
                    lemma_to_map_contains(sv, k);
                    if out@.contains_key(k) {
                        let j = choose|j: int| 0 <= j < sv.len() && sv[j].0 == k;
                        assert(out.scopes[j].0@ == members[j].0@);
                        assert(mv[j].0 == k);
                    }
                    if target.contains_key(k) {
                        let j = choose|j: int| 0 <= j < mv.len() && mv[j].0 == k;
                        assert(out.scopes[j].0@ == members[j].0@);
                        assert(sv[j].0 == k);
                    }
                }
                assert forall|k: Seq<char>| out@.contains_key(k) implies out@[k] == target[k] by {
                    lemma_to_map_value(sv, k);
                    let j = choose|j: int| 0 <= j < sv.len() && sv[j].0 == k && sv[j].1 == out@[k];
                    assert(out.scopes[j].0@ == members[j].0@);
                    assert(array_of(m[k], at@, each) == Ok::<
                        Seq<EnvironmentVariableView>,
                        Seq<char>,
                    >(views(out.scopes[j].1@)));
                    assert(target.contains_key(k));
                }
                assert(out@ =~= target);
            }
            Ok(out)
        },
        _ => refused(at),
    }
}

/// The deploy configuration that a document is.
pub open spec fn config_of(doc: JsonView, at: Seq<char>) -> Decoded<DeployConfigView> {
    match doc {
        JsonView::Object(m) => {
            let name = required_text(m, "name"@);
            let organization = required_text(m, "organization"@);
            let default_region = required_text(m, "default_region"@);
            let regions = texts_or_none(m, "regions"@);
            let backup_regions = texts_or_none(m, "backup_regions"@);
            let scaling = or_default(
                m,
                "scaling"@,
                scaling_of(m["scaling"@], "scaling"@),
                FlyScaling::initial(),
            );
            let gcp_kms = optional(m, "gcp_kms"@, gcp_kms_of(m["gcp_kms"@], "gcp_kms"@));
            let gcp_ssm = optional(m, "gcp_ssm"@, gcp_ssm_of(m["gcp_ssm"@], "gcp_ssm"@));
            let database = optional(m, "database"@, database_of(m["database"@], "database"@));
            let kill_signal = optional(
                m,
                "kill_signal"@,
                kill_signal_of(m["kill_signal"@], "kill_signal"@),
            );
            let kill_timeout = optional_unsigned(m, "kill_timeout"@);
            let build = optional(m, "build"@, build_of(m["build"@], "build"@));
            let deploy = optional(m, "deploy"@, deploy_of(m["deploy"@], "deploy"@));
            let statics = optional(
                m,
                "statics"@,
                array_of(m["statics"@], "statics"@, static_reader("statics"@)),
            );
            let services = optional(
                m,
                "services"@,
                array_of(m["services"@], "services"@, service_reader("services"@)),
            );
            let mounts = optional(
                m,
                "mounts"@,
                array_of(m["mounts"@], "mounts"@, mount_reader("mounts"@)),
            );
            let environment = optional(
                m,
                "environment"@,
                scopes_of(m["environment"@], "environment"@),
            );
            if name is Err {
                Err(name->Err_0)
            } else if organization is Err {
                Err(organization->Err_0)
            } else if default_region is Err {
                Err(default_region->Err_0)
            } else if regions is Err {
                Err(regions->Err_0)
            } else if backup_regions is Err {
                Err(backup_regions->Err_0)
            } else if scaling is Err {
                Err(scaling->Err_0)
            } else if gcp_kms is Err {
                Err(gcp_kms->Err_0)
            } else if gcp_ssm is Err {
                Err(gcp_ssm->Err_0)
            } else if database is Err {
                Err(database->Err_0)
            } else if kill_signal is Err {
                Err(kill_signal->Err_0)
            } else if kill_timeout is Err {
                Err(kill_timeout->Err_0)
            } else if build is Err {
                Err(build->Err_0)
            } else if deploy is Err {
                Err(deploy->Err_0)
            } else if statics is Err {
                Err(statics->Err_0)
            } else if services is Err {
                Err(services->Err_0)
            } else if mounts is Err {
                Err(mounts->Err_0)
            } else if environment is Err {
                Err(environment->Err_0)
            } else {
                Ok(
                    DeployConfigView {
                        name: name->Ok_0,
                        organization: organization->Ok_0,
                        default_region: default_region->Ok_0,
                        regions: regions->Ok_0,
                        backup_regions: backup_regions->Ok_0,
                        scaling: scaling->Ok_0,
                        gcp_kms: gcp_kms->Ok_0,
                        gcp_ssm: gcp_ssm->Ok_0,
                        database: database->Ok_0,
                        kill_signal: kill_signal->Ok_0,
                        kill_timeout: kill_timeout->Ok_0,
                        build: build->Ok_0,
                        deploy: deploy->Ok_0,
                        statics: statics->Ok_0,
                        services: services->Ok_0,
                        mounts: mounts->Ok_0,
                        environment: environment->Ok_0,
                    },
                )
            }
        },
        _ => Err(at),
    }
}

fn read_config(doc: &Json, at: &str) -> (r: Result<DeployConfig, String>)
    ensures
        decoded_as(r, config_of(doc@, at@)),
{
    match doc {
        Json::Object(members) => {
            let name = read_required_text(members, "name")?;
            let organization = read_required_text(members, "organization")?;
            let default_region = read_required_text(members, "default_region")?;
            let regions = read_texts_or_none(members, "regions")?;
            let backup_regions = read_texts_or_none(members, "backup_regions")?;
            let scaling = match get_member(members, "scaling") {
                Some(v) => read_scaling(v, "scaling")?,
                None => FlyScaling::default(),
            };
            let gcp_kms = match member_present(members, "gcp_kms") {
                Some(v) => Some(read_gcp_kms(v, "gcp_kms")?),
                None => None,
            };
            let gcp_ssm = match member_present(members, "gcp_ssm") {
                Some(v) => Some(read_gcp_ssm(v, "gcp_ssm")?),
                None => None,
            };
            let database = match member_present(members, "database") {
                Some(v) => Some(read_database(v, "database")?),
                None => None,
            };
            let kill_signal = match member_present(members, "kill_signal") {
                Some(v) => Some(read_kill_signal(v, "kill_signal")?),
                None => None,
            };
            let kill_timeout = read_optional_unsigned(members, "kill_timeout")?;
            let build = match member_present(members, "build") {
                Some(v) => Some(read_build(v, "build")?),
                None => None,
            };
            let deploy = match member_present(members, "deploy") {
                Some(v) => Some(read_deploy(v, "deploy")?),
                None => None,
            };
            let statics = match member_present(members, "statics") {
                Some(v) => Some(read_statics(v, "statics")?),
                None => None,
            };
            let services = match member_present(members, "services") {
                Some(v) => Some(read_services(v, "services")?),
                None => None,
            };
            let mounts = match member_present(members, "mounts") {
                Some(v) => Some(read_mounts(v, "mounts")?),
                None => None,
            };
            let environment = match member_present(members, "environment") {
                Some(v) => Some(read_scopes(v, "environment")?),
                None => None,
            };
            Ok(
                DeployConfig {
                    name,
                    organization,
                    default_region,
                    regions,
                    backup_regions,
                    scaling,
                    gcp_kms,
                    gcp_ssm,
                    database,
                    kill_signal,
                    kill_timeout,
                    build,
                    deploy,
                    statics,
                    services,
                    mounts,
                    environment,
                },
            )
        },
        _ => refused(at),
    }
}

/// The deploy configuration that a document is. An error is the key of
/// the member that is missing or has the wrong type; it is empty where the
/// document is no object.
pub open spec fn decoded(doc: JsonView) -> Decoded<DeployConfigView> {
    config_of(doc, Seq::empty())
}

/// Reads a deploy configuration out of a document.
pub fn decode(doc: &Json) -> (r: Result<DeployConfig, String>)
    ensures
        decoded_as(r, decoded(doc@)),
{
    proof {
        reveal_strlit("");
        assert(""@ =~= Seq::<char>::empty());
    }
    read_config(doc, "")
}

} // verus!
