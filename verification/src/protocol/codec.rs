//! What all payloads share: the rule by which a type is written as JSON and
//! read back, and the reading of members and lists.

use crate::json;
use crate::json::{json_of, jsons_of, named_jsons, optional_json, Json};
use crate::model::{optional_view, optional_views, views};
use crate::named::{
    distinct_names, entries_map, lemma_entries_map, named_map, named_views, optional_named_map,
};
use serde_json::Value;
use vstd::prelude::*;

verus! {

/// A type with a place on the wire. `encode` says which JSON document stands
/// for a value, `decode` which value a document stands for, if any.
pub trait Wire: View + Sized {
    spec fn encode(model: Self::V) -> Json;

    spec fn decode(json: Json) -> Option<Self::V>;

    /// Whether a value, once written, is read back as itself. It is not
    /// where it holds `null` in a place that may be left out: what is read
    /// back there is nothing.
    spec fn survives(model: Self::V) -> bool;

    /// Writing and reading back gives the value again.
    proof fn lemma_survives(model: Self::V)
        requires
            Self::survives(model),
        ensures
            Self::decode(Self::encode(model)) == Some(model),
    ;

    fn to_json(&self) -> (result: Value)
        ensures
            json_of(result) == Self::encode(self@),
    ;

    fn from_json(value: &Value) -> (result: Option<Self>)
        ensures
            match result {
                Some(read) => Self::decode(json_of(*value)) == Some(read@),
                None => Self::decode(json_of(*value)) is None,
            },
    ;
}

/// A list is written as the array of its items.
pub open spec fn encode_list<T: Wire>(items: Seq<T::V>) -> Json {
    Json::Array(Seq::new(items.len(), |i: int| T::encode(items[i])))
}

/// A list is read from an array all of whose items can be read.
pub open spec fn decode_list<T: Wire>(json: Json) -> Option<Seq<T::V>> {
    match json {
        Json::Array(items) => if forall|i: int|
            0 <= i < items.len() ==> (#[trigger] T::decode(items[i])) is Some {
            Some(Seq::new(items.len(), |i: int| T::decode(items[i])->0))
        } else {
            None
        },
        _ => None,
    }
}

/// Writes a list as the array of its items.
pub fn list_to_json<T: Wire>(items: &Vec<T>) -> (result: Value)
    ensures
        json_of(result) == encode_list::<T>(views(items@)),
{
    let mut values: Vec<Value> = Vec::new();
    let mut i: usize = 0;
    while i < items.len()
        invariant
            i <= items.len(),
            values@.len() == i,
            forall|k: int| 0 <= k < i ==> json_of(#[trigger] values@[k]) == T::encode(items@[k]@),
        decreases items.len() - i,
    {
        values.push(items[i].to_json());
        i += 1;
    }
    assert(jsons_of(values@) =~= Seq::new(
        items@.len(),
        |i: int| T::encode(views(items@)[i]),
    ));
    json::array(values)
}

/// Reads a list from an array: `Some` exactly where the value is an array and
/// every item can be read.
pub fn list_from_json<T: Wire>(value: &Value) -> (result: Option<Vec<T>>)
    ensures
        match result {
            Some(list) => decode_list::<T>(json_of(*value)) == Some(views(list@)),
            None => decode_list::<T>(json_of(*value)) is None,
        },
{
    let values = match json::as_array(value) {
        Some(values) => values,
        None => return None,
    };
    let ghost items = jsons_of(values@);
    let mut list: Vec<T> = Vec::new();
    let mut i: usize = 0;
    while i < values.len()
        invariant
            i <= values.len(),
            items == jsons_of(values@),
            json_of(*value) == Json::Array(items),
            list@.len() == i,
            forall|k: int| 0 <= k < i ==> #[trigger] T::decode(items[k]) == Some(list@[k]@),
        decreases values.len() - i,
    {
        match T::from_json(&values[i]) {
            Some(item) => {
                list.push(item);
            },
            None => {
                assert(T::decode(items[i as int]) is None);
                return None;
            },
        }
        i += 1;
    }
    assert(views(list@) =~= Seq::new(items.len(), |i: int| T::decode(items[i])->0));
    Some(list)
}

impl Wire for String {
    open spec fn encode(model: Seq<char>) -> Json {
        Json::Str(model)
    }

    open spec fn decode(json: Json) -> Option<Seq<char>> {
        json.as_str()
    }


    open spec fn survives(model: Seq<char>) -> bool {
        true
    }

    proof fn lemma_survives(model: Seq<char>) {
    
    }
    fn to_json(&self) -> (result: Value) {
        json::string(self.as_str())
    }

    fn from_json(value: &Value) -> (result: Option<String>) {
        match json::as_str(value) {
            Some(text) => Some(text.to_owned()),
            None => None,
        }
    }
}

impl Json {
    /// The member under `key` unless it is missing or null: what a member
    /// that may be left out holds.
    pub open spec fn present(self, key: Seq<char>) -> Option<Json> {
        match self.member(key) {
            Some(Json::Null) => None,
            other => other,
        }
    }

    /// The document with `key` set to `value` where there is a value, and
    /// unchanged where there is none.
    pub open spec fn with_some(self, key: Seq<char>, value: Option<Json>) -> Json {
        match value {
            Some(value) => self.with(key, value),
            None => self,
        }
    }
}

/// What a member that may be left out holds: `None` where it is missing or
/// null.
pub fn present<'a>(value: &'a Value, key: &str) -> (result: Option<&'a Value>)
    ensures
        match result {
            Some(found) => json_of(*value).present(key@) == Some(json_of(*found)),
            None => json_of(*value).present(key@) is None,
        },
{
    match json::member(value, key) {
        Some(found) => if json::is_null(found) {
            None
        } else {
            Some(found)
        },
        None => None,
    }
}

/// A member that must be there and be read as a `T`.
pub open spec fn decode_required<T: Wire>(json: Json, key: Seq<char>) -> Option<T::V> {
    match json.member(key) {
        Some(member) => T::decode(member),
        None => None,
    }
}

/// A member that may be left out: `Some(None)` where it is missing or null,
/// `None` where it is there and cannot be read as a `T`.
pub open spec fn decode_optional<T: Wire>(json: Json, key: Seq<char>) -> Option<Option<T::V>> {
    match json.present(key) {
        Some(member) => match T::decode(member) {
            Some(read) => Some(Some(read)),
            None => None,
        },
        None => Some(None),
    }
}

/// The encoding of a value that may be missing.
pub open spec fn encode_optional<T: Wire>(item: Option<T::V>) -> Option<Json> {
    match item {
        Some(item) => Some(T::encode(item)),
        None => None,
    }
}

/// Reads the member under `key`, which must be there, as a `T`.
pub fn required<T: Wire>(value: &Value, key: &str) -> (result: Option<T>)
    ensures
        match result {
            Some(read) => decode_required::<T>(json_of(*value), key@) == Some(read@),
            None => decode_required::<T>(json_of(*value), key@) is None,
        },
{
    match json::member(value, key) {
        Some(member) => T::from_json(member),
        None => None,
    }
}

/// Reads the member under `key`, which may be left out, as a `T`: `None`
/// where it is there and cannot be read.
pub fn optional<T: Wire>(value: &Value, key: &str) -> (result: Option<Option<T>>)
    ensures
        match result {
            Some(read) => decode_optional::<T>(json_of(*value), key@) == Some(optional_view(read)),
            None => decode_optional::<T>(json_of(*value), key@) is None,
        },
{
    match present(value, key) {
        Some(member) => match T::from_json(member) {
            Some(read) => Some(Some(read)),
            None => None,
        },
        None => Some(None),
    }
}

/// A member that must be there and be a list of `T`.
pub open spec fn decode_required_list<T: Wire>(json: Json, key: Seq<char>) -> Option<Seq<T::V>> {
    match json.member(key) {
        Some(member) => decode_list::<T>(member),
        None => None,
    }
}

/// A list that may be left out.
pub open spec fn decode_optional_list<T: Wire>(json: Json, key: Seq<char>) -> Option<
    Option<Seq<T::V>>,
> {
    match json.present(key) {
        Some(member) => match decode_list::<T>(member) {
            Some(read) => Some(Some(read)),
            None => None,
        },
        None => Some(None),
    }
}

/// Named values that may be left out.
pub open spec fn decode_optional_object<T: Wire>(json: Json, key: Seq<char>) -> Option<
    Option<Map<Seq<char>, T::V>>,
> {
    match json.present(key) {
        Some(member) => match decode_object::<T>(member) {
            Some(read) => Some(Some(read)),
            None => None,
        },
        None => Some(None),
    }
}

/// The encoding of a list that may be missing.
pub open spec fn encode_optional_list<T: Wire>(items: Option<Seq<T::V>>) -> Option<Json> {
    match items {
        Some(items) => Some(encode_list::<T>(items)),
        None => None,
    }
}

/// The encoding of named values that may be missing.
pub open spec fn encode_optional_object<T: Wire>(entries: Option<Map<Seq<char>, T::V>>) -> Option<
    Json,
> {
    match entries {
        Some(entries) => Some(encode_object::<T>(entries)),
        None => None,
    }
}

/// Reads the member under `key`, which must be there, as a list of `T`.
pub fn required_list<T: Wire>(value: &Value, key: &str) -> (result: Option<Vec<T>>)
    ensures
        match result {
            Some(read) => decode_required_list::<T>(json_of(*value), key@) == Some(views(read@)),
            None => decode_required_list::<T>(json_of(*value), key@) is None,
        },
{
    match json::member(value, key) {
        Some(member) => list_from_json::<T>(member),
        None => None,
    }
}

/// Reads the member under `key`, which may be left out, as a list of `T`.
pub fn optional_list<T: Wire>(value: &Value, key: &str) -> (result: Option<Option<Vec<T>>>)
    ensures
        match result {
            Some(read) => decode_optional_list::<T>(json_of(*value), key@) == Some(
                optional_views(read),
            ),
            None => decode_optional_list::<T>(json_of(*value), key@) is None,
        },
{
    match present(value, key) {
        Some(member) => match list_from_json::<T>(member) {
            Some(read) => Some(Some(read)),
            None => None,
        },
        None => Some(None),
    }
}

/// Reads the member under `key`, which may be left out, as named values.
pub fn optional_object<T: Wire>(value: &Value, key: &str) -> (result: Option<
    Option<Vec<(String, T)>>,
>)
    ensures
        match result {
            Some(read) => decode_optional_object::<T>(json_of(*value), key@) == Some(
                optional_named_map(read),
            ),
            None => decode_optional_object::<T>(json_of(*value), key@) is None,
        },
{
    match present(value, key) {
        Some(member) => match object_from_json::<T>(member) {
            Some(read) => Some(Some(read)),
            None => None,
        },
        None => Some(None),
    }
}

/// A member that must be there, whatever it holds.
pub fn required_value(value: &Value, key: &str) -> (result: Option<Value>)
    ensures
        optional_json(result) == json_of(*value).member(key@),
{
    match json::member(value, key) {
        Some(member) => Some(json::copy(member)),
        None => None,
    }
}

/// A member that may be left out, whatever it holds.
pub fn optional_value(value: &Value, key: &str) -> (result: Option<Value>)
    ensures
        optional_json(result) == json_of(*value).present(key@),
{
    match present(value, key) {
        Some(member) => Some(json::copy(member)),
        None => None,
    }
}

/// Sets `key` to a copy of `item` where there is an item.
pub(crate) fn set_optional_value(target: &mut Value, key: &str, item: &Option<Value>)
    requires
        json_of(*old(target)) is Object,
    ensures
        json_of(*final(target)) == json_of(*old(target)).with_some(key@, optional_json(*item)),
{
    match item {
        Some(item) => {
            json::set_member(target, key, json::copy(item));
        },
        None => {},
    }
}

/// Sets `key` to the encoding of `items` where there is a list.
pub(crate) fn set_optional_list<T: Wire>(target: &mut Value, key: &str, items: &Option<Vec<T>>)
    requires
        json_of(*old(target)) is Object,
    ensures
        json_of(*final(target)) == json_of(*old(target)).with_some(
            key@,
            encode_optional_list::<T>(optional_views(*items)),
        ),
{
    match items {
        Some(items) => {
            json::set_member(target, key, list_to_json::<T>(items));
        },
        None => {},
    }
}

/// Sets `key` to the encoding of `entries` where there are any.
pub(crate) fn set_optional_object<T: Wire>(
    target: &mut Value,
    key: &str,
    entries: &Option<Vec<(String, T)>>,
)
    requires
        json_of(*old(target)) is Object,
    ensures
        json_of(*final(target)) == json_of(*old(target)).with_some(
            key@,
            encode_optional_object::<T>(optional_named_map(*entries)),
        ),
{
    match entries {
        Some(entries) => {
            json::set_member(target, key, object_to_json::<T>(entries));
        },
        None => {},
    }
}

/// The encoding of a value that is written as null where it is missing.
pub open spec fn encode_nullable<T: Wire>(item: Option<T::V>) -> Json {
    match item {
        Some(item) => T::encode(item),
        None => Json::Null,
    }
}

/// Writes a value that may be missing: null where it is.
pub fn nullable_to_json<T: Wire>(item: &Option<T>) -> (result: Value)
    ensures
        json_of(result) == encode_nullable::<T>(optional_view(*item)),
{
    match item {
        Some(item) => item.to_json(),
        None => json::null(),
    }
}

/// Sets `key` to the encoding of `item` where there is an item.
pub(crate) fn set_optional<T: Wire>(target: &mut Value, key: &str, item: &Option<T>)
    requires
        json_of(*old(target)) is Object,
    ensures
        json_of(*final(target)) == json_of(*old(target)).with_some(
            key@,
            encode_optional::<T>(optional_view(*item)),
        ),
{
    match item {
        Some(item) => {
            json::set_member(target, key, item.to_json());
        },
        None => {},
    }
}

/// The encodings of a list of named values.
pub open spec fn encode_entries<T: Wire>(entries: Seq<(Seq<char>, T::V)>) -> Seq<
    (Seq<char>, Json),
> {
    Seq::new(entries.len(), |i: int| (entries[i].0, T::encode(entries[i].1)))
}

/// Named values are written as an object with one member for each name.
pub open spec fn encode_object<T: Wire>(entries: Map<Seq<char>, T::V>) -> Json {
    Json::Object(
        Map::new(
            |key: Seq<char>| entries.contains_key(key),
            |key: Seq<char>| T::encode(entries[key]),
        ),
    )
}

/// Encoding the values of a list one by one encodes the map that the list
/// stands for.
pub proof fn lemma_encode_entries<T: Wire>(entries: Seq<(Seq<char>, T::V)>)
    ensures
        Json::Object(entries_map(encode_entries::<T>(entries))) == encode_object::<T>(
            entries_map(entries),
        ),
    decreases entries.len(),
{
    let encoded = encode_entries::<T>(entries);
    if entries.len() > 0 {
        lemma_encode_entries::<T>(entries.drop_last());
        assert(encoded.drop_last() =~= encode_entries::<T>(entries.drop_last()));
    }
    assert(entries_map(encoded) =~= encode_object::<T>(entries_map(entries))->Object_0);
}

/// Named values are read from an object all of whose members can be read.
pub open spec fn decode_object<T: Wire>(json: Json) -> Option<Map<Seq<char>, T::V>> {
    match json {
        Json::Object(fields) => if forall|key: Seq<char>|
            fields.contains_key(key) ==> (#[trigger] T::decode(fields[key])) is Some {
            Some(Map::new(|key: Seq<char>| fields.contains_key(key), |key: Seq<char>| T::decode(fields[key])->0))
        } else {
            None
        },
        _ => None,
    }
}

/// Writes named values as an object. Where a name is listed twice, its last
/// value counts.
pub fn object_to_json<T: Wire>(entries: &Vec<(String, T)>) -> (result: Value)
    ensures
        json_of(result) == encode_object::<T>(named_map(entries@)),
{
    let ghost all = encode_entries::<T>(named_views(entries@));
    let mut object = json::object();
    let mut i: usize = 0;
    while i < entries.len()
        invariant
            i <= entries.len(),
            all == encode_entries::<T>(named_views(entries@)),
            json_of(object) == Json::Object(entries_map(all.take(i as int))),
        decreases entries.len() - i,
    {
        json::set_member(&mut object, entries[i].0.as_str(), entries[i].1.to_json());
        proof {
            let next = all.take(i + 1);
            assert(next.drop_last() =~= all.take(i as int));
            assert(next.last() == all[i as int]);
        }
        i += 1;
    }
    proof {
        assert(all.take(i as int) =~= all);
        lemma_encode_entries::<T>(named_views(entries@));
    }
    object
}

/// Reads named values from an object: `Some` exactly where the value is an
/// object and every member can be read. The list names no member twice.
#[verifier::loop_isolation(false)]
pub fn object_from_json<T: Wire>(value: &Value) -> (result: Option<Vec<(String, T)>>)
    ensures
        match result {
            Some(list) => distinct_names(named_views(list@)) && decode_object::<T>(json_of(*value))
                == Some(named_map(list@)),
            None => decode_object::<T>(json_of(*value)) is None,
        },
{
    let members = match json::entries(value) {
        Some(members) => members,
        None => return None,
    };
    let ghost listed = named_jsons(members@);
    let ghost fields = entries_map(listed);
    proof {
        lemma_entries_map(listed);
    }
    let mut list: Vec<(String, T)> = Vec::new();
    let mut i: usize = 0;
    while i < members.len()
        invariant
            i <= members.len(),
            list@.len() == i,
            forall|k: int|
                0 <= k < i ==> (#[trigger] list@[k]).0@ == listed[k].0 && T::decode(listed[k].1)
                    == Some(list@[k].1@),
        decreases members.len() - i,
    {
        match T::from_json(&members[i].1) {
            Some(item) => {
                list.push((members[i].0.clone(), item));
            },
            None => {
                proof {
                    let key = listed[i as int].0;
                    assert(fields.contains_key(key) && fields[key] == listed[i as int].1);
                    assert(T::decode(fields[key]) is None);
                }
                return None;
            },
        }
        i += 1;
    }
    proof {
        let named = named_views(list@);
        assert forall|a: int, b: int| 0 <= a < b < named.len() implies (#[trigger] named[a]).0 != (
        #[trigger] named[b]).0 by {
            assert(list@[a].0@ == listed[a].0);
            assert(list@[b].0@ == listed[b].0);
        }
        lemma_entries_map(named);
        let read = Map::new(
            |key: Seq<char>| fields.contains_key(key),
            |key: Seq<char>| T::decode(fields[key])->0,
        );
        assert forall|key: Seq<char>| fields.contains_key(key) implies (#[trigger] T::decode(
            fields[key],
        )) is Some && entries_map(named).contains_key(key) && entries_map(named)[key] == read[key] by {
            let k = choose|k: int| 0 <= k < listed.len() && (#[trigger] listed[k]).0 == key;
            assert(list@[k].0@ == key);
            assert(named[k].0 == key);
        }
        assert forall|key: Seq<char>| entries_map(named).contains_key(key) implies fields.contains_key(
            key,
        ) by {
            let k = choose|k: int| 0 <= k < named.len() && (#[trigger] named[k]).0 == key;
            assert(list@[k].0@ == listed[k].0);
        }
        assert(entries_map(named) =~= read);
    }
    Some(list)
}

impl Wire for bool {
    open spec fn encode(model: bool) -> Json {
        Json::Bool(model)
    }

    open spec fn decode(json: Json) -> Option<bool> {
        json.as_bool()
    }


    open spec fn survives(model: bool) -> bool {
        true
    }

    proof fn lemma_survives(model: bool) {
    
    }
    fn to_json(&self) -> (result: Value) {
        json::boolean(*self)
    }

    fn from_json(value: &Value) -> (result: Option<bool>) {
        json::as_bool(value)
    }
}

impl Wire for i64 {
    open spec fn encode(model: i64) -> Json {
        Json::Int(model as int)
    }

    open spec fn decode(json: Json) -> Option<i64> {
        json.as_i64()
    }


    open spec fn survives(model: i64) -> bool {
        true
    }

    proof fn lemma_survives(model: i64) {
    
    }
    fn to_json(&self) -> (result: Value) {
        json::integer(*self)
    }

    fn from_json(value: &Value) -> (result: Option<i64>) {
        json::as_i64(value)
    }
}

impl Wire for u64 {
    open spec fn encode(model: u64) -> Json {
        Json::Int(model as int)
    }

    open spec fn decode(json: Json) -> Option<u64> {
        json.as_u64()
    }


    open spec fn survives(model: u64) -> bool {
        true
    }

    proof fn lemma_survives(model: u64) {
    
    }
    fn to_json(&self) -> (result: Value) {
        json::unsigned(*self)
    }

    fn from_json(value: &Value) -> (result: Option<u64>) {
        json::as_u64(value)
    }
}

impl Wire for u32 {
    open spec fn encode(model: u32) -> Json {
        Json::Int(model as int)
    }

    /// An integer from 0 to `u32::MAX`.
    open spec fn decode(json: Json) -> Option<u32> {
        match json {
            Json::Int(number) => if 0 <= number <= u32::MAX {
                Some(number as u32)
            } else {
                None
            },
            _ => None,
        }
    }


    open spec fn survives(model: u32) -> bool {
        true
    }

    proof fn lemma_survives(model: u32) {
    
    }
    fn to_json(&self) -> (result: Value) {
        json::unsigned(*self as u64)
    }

    fn from_json(value: &Value) -> (result: Option<u32>) {
        match json::as_u64(value) {
            Some(number) => if number <= u32::MAX as u64 {
                Some(number as u32)
            } else {
                None
            },
            None => None,
        }
    }
}

impl Wire for usize {
    open spec fn encode(model: usize) -> Json {
        Json::Int(model as int)
    }

    /// An integer from 0 to `usize::MAX`.
    open spec fn decode(json: Json) -> Option<usize> {
        match json {
            Json::Int(number) => if 0 <= number <= usize::MAX {
                Some(number as usize)
            } else {
                None
            },
            _ => None,
        }
    }


    open spec fn survives(model: usize) -> bool {
        true
    }

    proof fn lemma_survives(model: usize) {
    
    }
    fn to_json(&self) -> (result: Value) {
        json::unsigned(*self as u64)
    }

    fn from_json(value: &Value) -> (result: Option<usize>) {
        match json::as_u64(value) {
            Some(number) => if number <= usize::MAX as u64 {
                Some(number as usize)
            } else {
                None
            },
            None => None,
        }
    }
}

/// Whether content that may be left out is read back as itself: it is
/// unless it is `null`.
pub open spec fn json_survives(item: Option<Json>) -> bool {
    item != Some(Json::Null)
}

/// Whether a value that may be missing is read back as itself.
pub open spec fn optional_survives<T: Wire>(item: Option<T::V>) -> bool {
    item matches Some(item) ==> T::survives(item)
}

/// Whether all items of a list are read back as themselves.
pub open spec fn list_survives<T: Wire>(items: Seq<T::V>) -> bool {
    forall|i: int| 0 <= i < items.len() ==> T::survives(#[trigger] items[i])
}

/// Whether all items of a list that may be missing are read back as
/// themselves.
pub open spec fn optional_list_survives<T: Wire>(items: Option<Seq<T::V>>) -> bool {
    items matches Some(items) ==> list_survives::<T>(items)
}

/// Whether all named values are read back as themselves.
pub open spec fn object_survives<T: Wire>(entries: Map<Seq<char>, T::V>) -> bool {
    forall|key: Seq<char>| entries.contains_key(key) ==> T::survives(#[trigger] entries[key])
}

/// Whether all named values that may be missing are read back as
/// themselves.
pub open spec fn optional_object_survives<T: Wire>(entries: Option<Map<Seq<char>, T::V>>) -> bool {
    entries matches Some(entries) ==> object_survives::<T>(entries)
}

/// A list whose items survive the wire survives it.
pub proof fn lemma_list_survives<T: Wire>(items: Seq<T::V>)
    requires
        list_survives::<T>(items),
    ensures
        decode_list::<T>(encode_list::<T>(items)) == Some(items),
{
    let encoded = Seq::new(items.len(), |i: int| T::encode(items[i]));
    assert forall|i: int| 0 <= i < encoded.len() implies (#[trigger] T::decode(encoded[i]))
        == Some(items[i]) by {
        assert(T::survives(items[i]));
        T::lemma_survives(items[i]);
    }
    assert(Seq::new(encoded.len(), |i: int| T::decode(encoded[i])->0) =~= items);
}

/// Named values that survive the wire survive it together.
pub proof fn lemma_object_survives<T: Wire>(entries: Map<Seq<char>, T::V>)
    requires
        object_survives::<T>(entries),
    ensures
        decode_object::<T>(encode_object::<T>(entries)) == Some(entries),
{
    let encoded = encode_object::<T>(entries)->Object_0;
    assert forall|key: Seq<char>| encoded.contains_key(key) implies (#[trigger] T::decode(
        encoded[key],
    )) == Some(entries[key]) by {
        assert(T::survives(entries[key]));
        T::lemma_survives(entries[key]);
    }
    assert(Map::new(
        |key: Seq<char>| encoded.contains_key(key),
        |key: Seq<char>| T::decode(encoded[key])->0,
    ) =~= entries);
}

} // verus!
