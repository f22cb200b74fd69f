use vstd::prelude::*;
use vstd::string::*;

use crate::telemetry_payloads::json_value::JsonValue;

verus! {

/// Message of a property that is absent.
pub open spec fn empty_msg() -> Seq<char> {
    "Attribute is empty"@
}

/// Message of a property that is present but not of the expected kind.
pub open spec fn invalid_msg() -> Seq<char> {
    "Could not find valid attribute value"@
}

/// The text of a string result or of its error.
pub open spec fn text_result<A>(r: Result<A, String>) -> Result<A, Seq<char>> {
    match r {
        Ok(a) => Ok(a),
        Err(e) => Err(e@),
    }
}

/// The texts of a list of strings.
pub open spec fn texts(v: Seq<String>) -> Seq<Seq<char>> {
    v.map_values(|s: String| s@)
}

/// The value of a property, if present.
pub open spec fn present(prop: Option<&JsonValue>) -> Option<JsonValue> {
    match prop {
        Some(v) => Some(*v),
        None => None,
    }
}

/// A boolean property.
pub open spec fn bool_prop(prop: Option<JsonValue>) -> Result<bool, Seq<char>> {
    match prop {
        None => Err(empty_msg()),
        Some(JsonValue::Bool(b)) => Ok(b),
        Some(_) => Err(invalid_msg()),
    }
}

/// A string property.
pub open spec fn string_prop(prop: Option<JsonValue>) -> Result<Seq<char>, Seq<char>> {
    match prop {
        None => Err(empty_msg()),
        Some(JsonValue::String(s)) => Ok(s@),
        Some(_) => Err(invalid_msg()),
    }
}

/// An integer property.
pub open spec fn int_prop(prop: Option<JsonValue>) -> Result<i64, Seq<char>> {
    match prop {
        None => Err(empty_msg()),
        Some(JsonValue::Int(i)) => Ok(i),
        Some(_) => Err(invalid_msg()),
    }
}

/// The strings among `items`, in order; other items are skipped.
pub open spec fn strings_in(items: Seq<JsonValue>) -> Seq<Seq<char>>
    decreases items.len(),
{
    if items.len() == 0 {
        Seq::empty()
    } else {
        let rest = strings_in(items.drop_last());
        match items.last() {
            JsonValue::String(s) => rest.push(s@),
            _ => rest,
        }
    }
}

/// A property holding a list of strings: the strings of an array, or a lone string.
pub open spec fn string_array_prop(prop: Option<JsonValue>) -> Result<Seq<Seq<char>>, Seq<char>> {
    match prop {
        Some(JsonValue::Array(items)) => Ok(strings_in(items@)),
        Some(JsonValue::String(s)) => Ok(seq![s@]),
        _ => Err(invalid_msg()),
    }
}

/// An array item read as a boolean: a JSON boolean, or the integers 1 and 0.
pub open spec fn bool_item(v: JsonValue) -> Option<bool> {
    match v {
        JsonValue::Bool(b) => Some(b),
        JsonValue::Int(i) => if i == 1 {
            Some(true)
        } else if i == 0 {
            Some(false)
        } else {
            None
        },
        _ => None,
    }
}

/// A JSON boolean reads as itself, the integers 1 and 0 as true and false, and any other
/// item (another integer, a string, null, ...) as unknown.
pub proof fn lemma_bool_item_reading(v: JsonValue)
    ensures
        v matches JsonValue::Bool(b) ==> bool_item(v) == Some(b),
        v == JsonValue::Int(1) ==> bool_item(v) == Some(true),
        v == JsonValue::Int(0) ==> bool_item(v) == Some(false),
        v matches JsonValue::Int(i) && i != 1 && i != 0 ==> bool_item(v) is None,
        !(v is Bool) && !(v is Int) ==> bool_item(v) is None,
{
}

/// A property holding an array of booleans.
pub open spec fn bool_array_prop(prop: Option<JsonValue>) -> Result<Seq<Option<bool>>, Seq<char>> {
    match prop {
        Some(JsonValue::Array(items)) => Ok(items@.map_values(|v: JsonValue| bool_item(v))),
        _ => Err(invalid_msg()),
    }
}

/// Reads a boolean property.
pub fn get_bool_prop(prop_o: &Option<&JsonValue>) -> (r: Result<bool, String>)
    ensures
        text_result(r) == bool_prop(present(*prop_o)),
{
    match prop_o {
        None => Err(String::from_str("Attribute is empty")),
        Some(prop_a) => match prop_a.as_bool() {
            Some(value) => Ok(value),
            None => Err(String::from_str("Could not find valid attribute value")),
        },
    }
}

/// Reads a string property.
pub fn get_string_prop(prop_o: &Option<&JsonValue>) -> (r: Result<String, String>)
    ensures
        match (r, string_prop(present(*prop_o))) {
            (Ok(s), Ok(t)) => s@ == t,
            (Err(e), Err(m)) => e@ == m,
            _ => false,
        },
{
    match prop_o {
        None => Err(String::from_str("Attribute is empty")),
        Some(prop_a) => match prop_a.as_str() {
            Some(value) => Ok(value.to_owned()),
            None => Err(String::from_str("Could not find valid attribute value")),
        },
    }
}

/// Reads an integer property.
pub fn get_int_number_prop(prop_o: &Option<&JsonValue>) -> (r: Result<i64, String>)
    ensures
        text_result(r) == int_prop(present(*prop_o)),
{
    match prop_o {
        None => Err(String::from_str("Attribute is empty")),
        Some(prop_a) => match prop_a.as_i64() {
            Some(value) => Ok(value),
            None => Err(String::from_str("Could not find valid attribute value")),
        },
    }
}

/// Reads a property holding a list of strings: the strings of an array (other items are
/// skipped), or a lone string.
pub fn get_string_array_prop(prop_o: &Option<&JsonValue>) -> (r: Result<Vec<String>, String>)
    ensures
        match (r, string_array_prop(present(*prop_o))) {
            (Ok(v), Ok(t)) => texts(v@) == t,
            (Err(e), Err(m)) => e@ == m,
            _ => false,
        },
{
    let prop_a = match prop_o {
        Some(a) => a,
        None => {
            return Err(String::from_str("Could not find valid attribute value"));
        },
    };
    if let Some(vec) = prop_a.as_array() {
        let mut arr: Vec<String> = Vec::new();
        let mut i: usize = 0;
        while i < vec.len()
            invariant
                i <= vec@.len(),
                texts(arr@) == strings_in(vec@.take(i as int)),
            decreases vec@.len() - i,
        {
            assert(vec@.take(i + 1).drop_last() =~= vec@.take(i as int));
            if let Some(v) = vec[i].as_str() {
                arr.push(v.to_owned());
                assert(texts(arr@) =~= strings_in(vec@.take(i + 1)));
            }
            i = i + 1;
        }
        assert(vec@.take(vec@.len() as int) =~= vec@);
        return Ok(arr);
    } else if let Some(value) = prop_a.as_str() {
        let mut arr: Vec<String> = Vec::new();
        arr.push(value.to_owned());
        assert(texts(arr@) =~= seq![value@]);
        return Ok(arr);
    }
    Err(String::from_str("Could not find valid attribute value"))
}

/// Reads an array item as a boolean.
fn read_bool_item(v: &JsonValue) -> (r: Option<bool>)
    ensures
        r == bool_item(*v),
{
    if let Some(b) = v.as_bool() {
        Some(b)
    } else if let Some(val_n) = v.as_i64() {
        if val_n == 1 {
            Some(true)
        } else if val_n == 0 {
            Some(false)
        } else {
            None
        }
    } else {
        None
    }
}

/// Reads a property holding an array of booleans, where the integers 1 and 0 also stand
/// for true and false and any other item is unknown.
pub fn get_bool_array_prop(prop_o: &Option<&JsonValue>) -> (r: Result<Vec<Option<bool>>, String>)
    ensures
        match (r, bool_array_prop(present(*prop_o))) {
            (Ok(v), Ok(t)) => v@ == t,
            (Err(e), Err(m)) => e@ == m,
            _ => false,
        },
{
    let prop_a = match prop_o {
        Some(a) => a,
        None => {
            return Err(String::from_str("Could not find valid attribute value"));
        },
    };
    if let Some(vec) = prop_a.as_array() {
        let mut arr: Vec<Option<bool>> = Vec::new();
        let mut i: usize = 0;
        while i < vec.len()
            invariant
                i <= vec@.len(),
                arr@ == vec@.take(i as int).map_values(|v: JsonValue| bool_item(v)),
            decreases vec@.len() - i,
        {
            arr.push(read_bool_item(&vec[i]));
            i = i + 1;
            assert(arr@ =~= vec@.take(i as int).map_values(|v: JsonValue| bool_item(v)));
        }
        assert(vec@.take(vec@.len() as int) =~= vec@);
        return Ok(arr);
    }
    Err(String::from_str("Could not find valid attribute value"))
}

/// What serde_json makes of `text` when asked for a JSON value and that value is read as an
/// array of integers: the text of serde_json's error when the text is not JSON, `None`
/// when it is JSON but not an array, and otherwise the items read with serde_json's
/// `as_i64` (`None` for an item that is not an integer fitting in an `i64`).
pub uninterp spec fn json_text_int_array(text: Seq<char>) -> Result<Option<Seq<Option<i64>>>, Seq<char>>;

/// Calls `serde_json::from_str::<serde_json::Value>(text)`, then reads the value with
/// `as_array` and each item with `as_i64`; a parse error becomes its `to_string()`. The
/// contract only names serde_json's answer; what serde_json accepts is left to serde_json.
#[verifier::external_body]
fn parse_json_int_array(text: &str) -> (r: Result<Option<Vec<Option<i64>>>, String>)
    ensures
        match r {
            Ok(Some(v)) => json_text_int_array(text@) == Ok::<Option<Seq<Option<i64>>>, Seq<char>>(Some(v@)),
            Ok(None) => json_text_int_array(text@) == Ok::<Option<Seq<Option<i64>>>, Seq<char>>(None),
            Err(e) => json_text_int_array(text@) == Err::<Option<Seq<Option<i64>>>, Seq<char>>(e@),
        },
{
    match serde_json::from_str::<serde_json::Value>(text) {
        Ok(v) => Ok(v.as_array().map(|a| a.iter().map(|x| x.as_i64()).collect())),
        Err(e) => Err(e.to_string()),
    }
}

/// An optional integer that fits in an `i16` (an absent one always does).
pub open spec fn fits_i16(v: Option<i64>) -> bool {
    v matches Some(i) ==> i16::MIN <= i <= i16::MAX
}

/// The integer of an array item, when it holds one.
pub open spec fn int_item(v: JsonValue) -> Option<i64> {
    match v {
        JsonValue::Int(i) => Some(i),
        _ => None,
    }
}

/// The integers of a property holding an array of them, directly or as JSON text: `Err`
/// with the message, `Ok` with the items read as `i64`s.
pub open spec fn int_array_source(prop: JsonValue) -> Result<Seq<Option<i64>>, Seq<char>> {
    match prop {
        JsonValue::Array(items) => Ok(items@.map_values(|v: JsonValue| int_item(v))),
        JsonValue::String(s) => match json_text_int_array(s@) {
            Err(e) => Err("EROR40 "@ + e),
            Ok(Some(items)) => Ok(items),
            Ok(None) => Err(invalid_msg()),
        },
        _ => Err(invalid_msg()),
    }
}

/// Every integer of the property fits in an `i16`.
pub open spec fn int_array_fits(prop: JsonValue) -> bool {
    int_array_source(prop) matches Ok(items) ==> forall|i: int|
        0 <= i < items.len() ==> fits_i16(#[trigger] items[i])
}

/// An item narrowed to `i16`.
pub open spec fn narrowed(v: Option<i64>) -> Option<i16> {
    match v {
        Some(i) => Some(i as i16),
        None => None,
    }
}

/// Narrows every item to `i16`.
fn narrow_items(items: &Vec<Option<i64>>) -> (r: Vec<Option<i16>>)
    requires
        forall|i: int| 0 <= i < items@.len() ==> fits_i16(#[trigger] items@[i]),
    ensures
        r@ == items@.map_values(|v: Option<i64>| narrowed(v)),
{
    let mut arr: Vec<Option<i16>> = Vec::new();
    let mut i: usize = 0;
    while i < items.len()
        invariant
            i <= items@.len(),
            forall|i: int| 0 <= i < items@.len() ==> fits_i16(#[trigger] items@[i]),
            arr@ == items@.take(i as int).map_values(|v: Option<i64>| narrowed(v)),
        decreases items@.len() - i,
    {
        let item = match items[i] {
            Some(v) => {
                assert(fits_i16(items@[i as int]));
                Some(v as i16)
            },
            None => None,
        };
        arr.push(item);
        i = i + 1;
        assert(arr@ =~= items@.take(i as int).map_values(|v: Option<i64>| narrowed(v)));
    }
    assert(items@.take(items@.len() as int) =~= items@);
    arr
}

/// Reads a property holding an array of 16-bit integers, given either as a JSON array or
/// as a string that holds one: items that are not integers are unknown.
pub fn get_int_number_array_prop(prop_a: &JsonValue) -> (r: Result<Vec<Option<i16>>, String>)
    requires
        int_array_fits(*prop_a),
    ensures
        match (r, int_array_source(*prop_a)) {
            (Ok(v), Ok(items)) => v@ == items.map_values(|x: Option<i64>| narrowed(x)),
            (Err(e), Err(m)) => e@ == m,
            _ => false,
        },
{
    if let Some(vec) = prop_a.as_array() {
        let mut items: Vec<Option<i64>> = Vec::new();
        let mut i: usize = 0;
        while i < vec.len()
            invariant
                i <= vec@.len(),
                items@ == vec@.take(i as int).map_values(|v: JsonValue| int_item(v)),
            decreases vec@.len() - i,
        {
            items.push(vec[i].as_i64());
            i = i + 1;
            assert(items@ =~= vec@.take(i as int).map_values(|v: JsonValue| int_item(v)));
        }
        assert(vec@.take(vec@.len() as int) =~= vec@);
        assert(int_array_source(*prop_a) == Ok::<Seq<Option<i64>>, Seq<char>>(items@));
        assert forall|k: int| 0 <= k < items@.len() implies fits_i16(#[trigger] items@[k]) by {
            assert(int_array_fits(*prop_a));
            assert(fits_i16(int_array_source(*prop_a)->Ok_0[k]));
        }
        return Ok(narrow_items(&items));
    } else if let Some(vec_str) = prop_a.as_str() {
        match parse_json_int_array(vec_str) {
            Err(e) => {
                let mut msg = String::from_str("EROR40 ");
                msg.append(e.as_str());
                return Err(msg);
            },
            Ok(Some(items)) => {
                assert(int_array_source(*prop_a) == Ok::<Seq<Option<i64>>, Seq<char>>(items@));
                assert forall|k: int| 0 <= k < items@.len() implies fits_i16(
                    #[trigger] items@[k],
                ) by {
                    assert(int_array_fits(*prop_a));
                    assert(fits_i16(int_array_source(*prop_a)->Ok_0[k]));
                }
        assert forall|k: int| 0 <= k < items@.len() implies fits_i16(#[trigger] items@[k]) by {
            assert(int_array_fits(*prop_a));
            assert(fits_i16(int_array_source(*prop_a)->Ok_0[k]));
        }
                return Ok(narrow_items(&items));
            },
            Ok(None) => {},
        }
    }
    Err(String::from_str("Could not find valid attribute value"))
}


/// Whether every item fits in an `i16`.
fn items_fit_i16(items: &Vec<Option<i64>>) -> (r: bool)
    ensures
        r == forall|i: int| 0 <= i < items@.len() ==> fits_i16(#[trigger] items@[i]),
{
    let mut i: usize = 0;
    while i < items.len()
        invariant
            i <= items@.len(),
            forall|j: int| 0 <= j < i ==> fits_i16(#[trigger] items@[j]),
        decreases items@.len() - i,
    {
        if let Some(v) = items[i] {
            if v < i16::MIN as i64 || v > i16::MAX as i64 {
                return false;
            }
        }
        i = i + 1;
    }
    true
}

/// Tests [`int_array_fits`].
fn int_array_prop_fits(prop_a: &JsonValue) -> (r: bool)
    ensures
        r == int_array_fits(*prop_a),
{
    if let Some(vec) = prop_a.as_array() {
        let mut i: usize = 0;
        while i < vec.len()
            invariant
                i <= vec@.len(),
                int_array_source(*prop_a) == Ok::<Seq<Option<i64>>, Seq<char>>(
                    vec@.map_values(|v: JsonValue| int_item(v)),
                ),
                forall|j: int|
                    0 <= j < i ==> fits_i16(#[trigger] int_item(vec@[j])),
            decreases vec@.len() - i,
        {
            if let Some(v) = vec[i].as_i64() {
                if v < i16::MIN as i64 || v > i16::MAX as i64 {
                    assert(!fits_i16(int_array_source(*prop_a)->Ok_0[i as int]));
                    return false;
                }
            }
            i = i + 1;
        }
        assert forall|k: int|
            0 <= k < int_array_source(*prop_a)->Ok_0.len() implies fits_i16(
            #[trigger] int_array_source(*prop_a)->Ok_0[k],
        ) by {
            assert(fits_i16(int_item(vec@[k])));
        }
        assert(int_array_fits(*prop_a));
        true
    } else if let Some(vec_str) = prop_a.as_str() {
        match parse_json_int_array(vec_str) {
            Ok(Some(items)) => {
                let r = items_fit_i16(&items);
                assert(int_array_source(*prop_a) == Ok::<Seq<Option<i64>>, Seq<char>>(items@));
                assert(int_array_source(*prop_a)->Ok_0 == items@);
                if r {
                    assert forall|k: int|
                        0 <= k < int_array_source(*prop_a)->Ok_0.len() implies fits_i16(
                        #[trigger] int_array_source(*prop_a)->Ok_0[k],
                    ) by {
                        assert(fits_i16(items@[k]));
                    }
                } else {
                    proof {
                        let k = choose|k: int| 0 <= k < items@.len() && !fits_i16(items@[k]);
                        assert(!fits_i16(int_array_source(*prop_a)->Ok_0[k]));
                    }
                }
                r
            },
            Ok(None) => {
                assert(int_array_source(*prop_a) is Err);
                true
            },
            Err(e) => {
                assert(int_array_source(*prop_a) is Err);
                true
            },
        }
    } else {
        assert(int_array_source(*prop_a) is Err);
        true
    }
}

/// [`get_int_number_array_prop`] for any property: `None` when one of its integers does not
/// fit in an `i16`.
pub fn get_int_number_array_prop_checked(prop_a: &JsonValue) -> (r: Option<
    Result<Vec<Option<i16>>, String>,
>)
    ensures
        r is None <==> !int_array_fits(*prop_a),
        r matches Some(res) ==> match (res, int_array_source(*prop_a)) {
            (Ok(v), Ok(items)) => v@ == items.map_values(|x: Option<i64>| narrowed(x)),
            (Err(e), Err(m)) => e@ == m,
            _ => false,
        },
{
    if int_array_prop_fits(prop_a) {
        Some(get_int_number_array_prop(prop_a))
    } else {
        None
    }
}

} // verus!
