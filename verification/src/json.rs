//! JSON objects whose members are texts: written and read by `serde_json`,
//! searched here.

use serde::Serializer;
use vstd::prelude::*;
use vstd::string::*;

verus! {

/// `serde_json::Error`, carried through as an opaque value.
#[verifier::external_type_specification]
#[verifier::external_body]
pub struct ExJsonError(serde_json::Error);

/// The members of an object that is to be written: names and texts, in order.
pub type Entries = Seq<(Seq<char>, Seq<char>)>;

/// The members of an object that was read: each name with its text, or with
/// `None` where the member holds anything but a text.
pub type Members = Seq<(Seq<char>, Option<Seq<char>>)>;

/// The pretty-printed JSON object with the members `entries`, in that order,
/// or `None` where `serde_json` does not write them.
pub uninterp spec fn pretty_object(entries: Seq<(Seq<char>, Seq<char>)>) -> Option<Seq<u8>>;

/// The compact JSON object with the members `entries`, in that order, or
/// `None` where `serde_json` does not write them.
pub uninterp spec fn compact_object(entries: Seq<(Seq<char>, Seq<char>)>) -> Option<Seq<u8>>;

/// The members of the JSON object that `text` holds, or `None` where `text`
/// is no JSON object.
pub uninterp spec fn parsed_object(text: Seq<u8>) -> Option<Seq<(Seq<char>, Option<Seq<char>>)>>;

/// What the first member of `members` named `name` holds: `None` without
/// such a member, `Some(None)` where it holds no text.
pub open spec fn lookup(members: Members, name: Seq<char>) -> Option<Option<Seq<char>>>
    decreases members.len(),
{
    if members.len() == 0 {
        None
    } else if members[0].0 == name {
        Some(members[0].1)
    } else {
        lookup(members.drop_first(), name)
    }
}

/// Builds a pretty-printing `serde_json::Serializer` over a byte vector and
/// hands it the entries through `serde::Serializer::collect_map`. The claim:
/// whether this succeeds, and the bytes if it does, are determined by the
/// names and texts of `entries` in their order, and `pretty_object` is their
/// name. That it succeeds is not claimed.
#[verifier::external_body]
pub(crate) fn write_pretty(entries: &Vec<(String, String)>) -> (r: Result<
    Vec<u8>,
    serde_json::Error,
>)
    ensures
        r matches Ok(text) ==> pretty_object(entries.deep_view()) == Some(text@),
        r is Err ==> pretty_object(entries.deep_view()) is None,
{
    let mut text = Vec::new();
    let mut ser = serde_json::Serializer::pretty(&mut text);
    (&mut ser).collect_map(entries.iter().map(|e| (&e.0, &e.1)))?;
    Ok(text)
}

/// Builds a compact `serde_json::Serializer` over a byte vector and hands it
/// the entries through `serde::Serializer::collect_map`. The claim: whether
/// this succeeds, and the bytes if it does, are determined by the names and
/// texts of `entries` in their order, and `compact_object` is their name.
/// That it succeeds is not claimed.
#[verifier::external_body]
pub(crate) fn write_compact(entries: &Vec<(String, String)>) -> (r: Result<
    Vec<u8>,
    serde_json::Error,
>)
    ensures
        r matches Ok(text) ==> compact_object(entries.deep_view()) == Some(text@),
        r is Err ==> compact_object(entries.deep_view()) is None,
{
    let mut text = Vec::new();
    let mut ser = serde_json::Serializer::new(&mut text);
    (&mut ser).collect_map(entries.iter().map(|e| (&e.0, &e.1)))?;
    Ok(text)
}

/// Calls `serde_json::from_slice` for a `serde_json::Map` and hands out its
/// members, each text as it is and `None` for any other value. The claim:
/// whether this succeeds, and the members if it does, are determined by
/// `text`, and `parsed_object` is their name.
#[verifier::external_body]
pub(crate) fn read_object(text: &[u8]) -> (r: Result<
    Vec<(String, Option<String>)>,
    serde_json::Error,
>)
    ensures
        r matches Ok(members) ==> parsed_object(text@) == Some(members.deep_view()),
        r is Err ==> parsed_object(text@) is None,
{
    let object: serde_json::Map<String, serde_json::Value> = serde_json::from_slice(text)?;
    Ok(
        object.into_iter().map(
            |(name, value)|
                match value {
                    serde_json::Value::String(s) => (name, Some(s)),
                    _ => (name, None),
                },
        ).collect(),
    )
}

/// Formats a `serde_json::Error` for the user. Nothing is claimed of the
/// text.
#[verifier::external_body]
pub(crate) fn error_text(e: &serde_json::Error) -> String {
    format!("{}", e)
}

/// Why a member that was asked for could not be had.
#[derive(Debug, Clone, Copy, PartialEq, Eq, Structural)]
pub enum Absence {
    /// The object has no member of that name.
    Missing,
    /// The member holds something other than a text.
    NotText,
}

/// What the member `name` yields to a caller that needs a text.
pub open spec fn text_of(members: Members, name: Seq<char>) -> Result<Seq<char>, Absence> {
    match lookup(members, name) {
        None => Err(Absence::Missing),
        Some(None) => Err(Absence::NotText),
        Some(Some(text)) => Ok(text),
    }
}

/// Finds the text of the member `name`; members of other names are passed
/// over, whatever they hold.
pub fn member_text(members: &Vec<(String, Option<String>)>, name: &str) -> (r: Result<
    String,
    Absence,
>)
    ensures
        match text_of(members.deep_view(), name@) {
            Ok(text) => r matches Ok(found) && found@ == text,
            Err(why) => r == Err::<String, Absence>(why),
        },
{
    let wanted = String::from_str(name);
    let ghost all = members.deep_view();
    let mut i: usize = 0;
    assert(all.skip(0) =~= all);
    while i < members.len()
        invariant
            i <= members.len(),
            all == members.deep_view(),
            wanted@ == name@,
            lookup(all, name@) == lookup(all.skip(i as int), name@),
        decreases members.len() - i,
    {
        let ghost rest = all.skip(i as int);
        assert(rest[0] == all[i as int]);
        assert(all[i as int] == members[i as int].deep_view());
        assert(rest.drop_first() =~= all.skip(i + 1));
        if members[i].0 == wanted {
            return match &members[i].1 {
                Some(text) => Ok(text.clone()),
                None => Err(Absence::NotText),
            };
        }
        i += 1;
    }
    Err(Absence::Missing)
}

/// A lookup finds the first member of the name asked for: where the member
/// at `k` has that name and none before it has, the lookup yields what that
/// member holds.
pub proof fn lemma_lookup_first(members: Members, name: Seq<char>, k: int)
    requires
        0 <= k < members.len(),
        members[k].0 == name,
        forall|j: int| 0 <= j < k ==> (#[trigger] members[j]).0 != name,
    ensures
        lookup(members, name) == Some(members[k].1),
    decreases k,
{
    if k > 0 {
        let rest = members.drop_first();
        assert(members[0].0 != name);
        assert forall|j: int| 0 <= j < k - 1 implies (#[trigger] rest[j]).0 != name by {
            assert(rest[j] == members[j + 1]);
        }
        lemma_lookup_first(rest, name, k - 1);
    }
}

/// A member of another name does not change what a lookup finds, wherever it
/// is put.
pub proof fn lemma_lookup_insert(
    members: Members,
    at: int,
    extra: (Seq<char>, Option<Seq<char>>),
    name: Seq<char>,
)
    requires
        0 <= at <= members.len(),
        extra.0 != name,
    ensures
        lookup(members.insert(at, extra), name) == lookup(members, name),
    decreases at,
{
    let longer = members.insert(at, extra);
    if at == 0 {
        assert(longer.drop_first() =~= members);
    } else {
        assert(longer[0] == members[0]);
        assert(longer.drop_first() =~= members.drop_first().insert(at - 1, extra));
        lemma_lookup_insert(members.drop_first(), at - 1, extra, name);
    }
}

} // verus!
