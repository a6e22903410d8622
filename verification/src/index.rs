use vstd::prelude::*;

use crate::errors::SourceError;

verus! {

/// A plugin descriptor as the remote repository's manifest lists it:
/// untrusted, ephemeral, decoded fresh on every fetch and never persisted.
#[derive(Debug)]
pub struct SourceDto {
    pub id: i64,
    pub name: String,
    pub url: String,
    pub version: String,
    pub rustc_version: String,
    pub lib_version: String,
    pub icon: String,
}

/// The mathematical value of a descriptor.
#[verifier::ext_equal]
pub struct DescriptorView {
    pub id: i64,
    pub name: Seq<char>,
    pub url: Seq<char>,
    pub version: Seq<char>,
    pub rustc_version: Seq<char>,
    pub lib_version: Seq<char>,
    pub icon: Seq<char>,
}

impl View for SourceDto {
    type V = DescriptorView;

    open spec fn view(&self) -> DescriptorView {
        DescriptorView {
            id: self.id,
            name: self.name@,
            url: self.url@,
            version: self.version@,
            rustc_version: self.rustc_version@,
            lib_version: self.lib_version@,
            icon: self.icon@,
        }
    }
}

impl SourceDto {
    /// A field-by-field copy, equal to `*self`.
    pub fn duplicate(&self) -> (r: SourceDto)
        ensures
            r == *self,
    {
        SourceDto {
            id: self.id,
            name: self.name.clone(),
            url: self.url.clone(),
            version: self.version.clone(),
            rustc_version: self.rustc_version.clone(),
            lib_version: self.lib_version.clone(),
            icon: self.icon.clone(),
        }
    }
}

#[verifier::external_type_specification]
#[verifier::external_body]
pub struct ExJsonValue(serde_json::Value);

#[verifier::external_type_specification]
#[verifier::external_body]
pub struct ExJsonError(serde_json::Error);

/// Whether a document is valid JSON (within serde_json's nesting limit).
pub uninterp spec fn is_json(s: Seq<char>) -> bool;

/// The value tree a valid JSON document denotes.
pub uninterp spec fn json_of(s: Seq<char>) -> serde_json::Value;

/// The elements of a value that is a JSON array, `None` for any other value.
pub uninterp spec fn array_of(v: serde_json::Value) -> Option<Seq<serde_json::Value>>;

/// The number held by a value that is an integer in `i64` range, `None`
/// otherwise.
pub uninterp spec fn int_of(v: serde_json::Value) -> Option<i64>;

/// The characters held by a value that is a JSON string, `None` otherwise.
pub uninterp spec fn str_of(v: serde_json::Value) -> Option<Seq<char>>;

/// The boolean held by a value that is one, `None` otherwise.
pub uninterp spec fn bool_of(v: serde_json::Value) -> Option<bool>;

/// The member of an object value under a key, `None` when the value is not
/// an object or has no such member.
pub uninterp spec fn member_of(v: serde_json::Value, key: Seq<char>) -> Option<serde_json::Value>;

/// Relies on serde_json::from_str: parsing is a function of the document
/// text alone, succeeds exactly on valid JSON, and yields the value tree
/// the text denotes.
#[verifier::external_body]
fn parse_json(s: &str) -> (r: Result<serde_json::Value, serde_json::Error>)
    ensures
        r is Ok <==> is_json(s@),
        r matches Ok(v) ==> v == json_of(s@),
{
    serde_json::from_str(s)
}

/// Relies on serde_json::Value::as_array: the array elements when the value
/// is a JSON array, `None` otherwise.
pub assume_specification [ serde_json::Value::as_array ](v: &serde_json::Value) -> (r: Option<
    &Vec<serde_json::Value>,
>)
    ensures
        r matches Some(a) ==> array_of(*v) == Some(a@),
        r is None ==> array_of(*v) is None,
;

/// Relies on serde_json::Value::as_i64: the number as an `i64` when the
/// value is an integer in range, `None` otherwise.
pub assume_specification [ serde_json::Value::as_i64 ](v: &serde_json::Value) -> (r: Option<i64>)
    ensures
        r == int_of(*v),
;

/// Relies on serde_json::Value::as_str: the characters when the value is a
/// JSON string, `None` otherwise.
pub assume_specification [ serde_json::Value::as_str ](v: &serde_json::Value) -> (r: Option<&str>)
    ensures
        r matches Some(s) ==> str_of(*v) == Some(s@),
        r is None ==> str_of(*v) is None,
;

/// Relies on serde_json::Value::as_bool: the boolean when the value is one,
/// `None` otherwise.
pub assume_specification [ serde_json::Value::as_bool ](v: &serde_json::Value) -> (r: Option<bool>)
    ensures
        r == bool_of(*v),
;

/// Relies on serde_json::Value::get with a string key: the member under the
/// key, a function of the value and the key alone.
#[verifier::external_body]
pub(crate) fn json_member<'a>(v: &'a serde_json::Value, key: &str) -> (r: Option<
    &'a serde_json::Value,
>)
    ensures
        r matches Some(m) ==> member_of(*v, key@) == Some(*m),
        r is None ==> member_of(*v, key@) is None,
{
    v.get(key)
}

/// The integer member of an object value under a key.
pub open spec fn member_int(v: serde_json::Value, key: Seq<char>) -> Option<i64> {
    match member_of(v, key) {
        Some(m) => int_of(m),
        None => None,
    }
}

/// The string member of an object value under a key.
pub open spec fn member_string(v: serde_json::Value, key: Seq<char>) -> Option<Seq<char>> {
    match member_of(v, key) {
        Some(m) => str_of(m),
        None => None,
    }
}

/// The descriptor a manifest object denotes: `Some` exactly when the value
/// carries all seven members with their expected types.
pub open spec fn spec_descriptor(v: serde_json::Value) -> Option<DescriptorView> {
    match (
        member_int(v, "id"@),
        member_string(v, "name"@),
        member_string(v, "url"@),
        member_string(v, "version"@),
        member_string(v, "rustc_version"@),
        member_string(v, "lib_version"@),
        member_string(v, "icon"@),
    ) {
        (
            Some(id),
            Some(name),
            Some(url),
            Some(version),
            Some(rustc_version),
            Some(lib_version),
            Some(icon),
        ) => Some(
            DescriptorView { id, name, url, version, rustc_version, lib_version, icon },
        ),
        _ => None,
    }
}

/// Every element of the array denotes a descriptor.
pub open spec fn spec_all_descriptors(elems: Seq<serde_json::Value>) -> bool {
    forall|k: int| 0 <= k < elems.len() ==> spec_descriptor(#[trigger] elems[k]) is Some
}

/// Reads one string member of a manifest object.
fn member_str(v: &serde_json::Value, key: &str) -> (r: Result<String, SourceError>)
    ensures
        r is Ok <==> member_string(*v, key@) is Some,
        r matches Ok(s) ==> member_string(*v, key@) == Some(s@),
        r matches Err(e) ==> e == SourceError::MalformedIndex,
{
    match json_member(v, key) {
        Some(m) => match m.as_str() {
            Some(s) => Ok(s.to_owned()),
            None => Err(SourceError::MalformedIndex),
        },
        None => Err(SourceError::MalformedIndex),
    }
}

/// Decodes one manifest object into a descriptor: `Ok` exactly when the
/// object denotes one, with every field pinned to the document's member;
/// every shape defect is `MalformedIndex`.
fn decode_descriptor(v: &serde_json::Value) -> (r: Result<SourceDto, SourceError>)
    ensures
        r is Ok <==> spec_descriptor(*v) is Some,
        r matches Ok(d) ==> spec_descriptor(*v) == Some(d@),
        r matches Err(e) ==> e == SourceError::MalformedIndex,
{
    let id = match json_member(v, "id") {
        Some(m) => match m.as_i64() {
            Some(n) => n,
            None => {
                return Err(SourceError::MalformedIndex);
            },
        },
        None => {
            return Err(SourceError::MalformedIndex);
        },
    };
    let name = member_str(v, "name")?;
    let url = member_str(v, "url")?;
    let version = member_str(v, "version")?;
    let rustc_version = member_str(v, "rustc_version")?;
    let lib_version = member_str(v, "lib_version")?;
    let icon = member_str(v, "icon")?;
    Ok(SourceDto { id, name, url, version, rustc_version, lib_version, icon })
}

/// Decodes the manifest document fetched from the repository's well-known
/// path.  `Ok` exactly when the text is valid JSON denoting an array whose
/// every element is a well-shaped descriptor object; the result then holds
/// one descriptor per element, in order, with every field the document's.
/// Anything else is `MalformedIndex`; the descriptors themselves stay
/// untrusted data for the lifecycle checks to judge.
pub fn decode_index(body: &str) -> (r: Result<Vec<SourceDto>, SourceError>)
    ensures
        r matches Err(e) ==> e == SourceError::MalformedIndex,
        r is Ok <==> is_json(body@) && array_of(json_of(body@)) is Some && spec_all_descriptors(
            array_of(json_of(body@)).unwrap(),
        ),
        r matches Ok(out) ==> (array_of(json_of(body@)) matches Some(elems) && out@.len()
            == elems.len() && forall|k: int|
            0 <= k < elems.len() ==> Some(#[trigger] out@[k]@) == spec_descriptor(elems[k])),
{
    let parsed = match parse_json(body) {
        Ok(v) => v,
        Err(_) => {
            return Err(SourceError::MalformedIndex);
        },
    };
    let arr = match parsed.as_array() {
        Some(a) => a,
        None => {
            return Err(SourceError::MalformedIndex);
        },
    };
    let ghost elems = arr@;
    let mut out: Vec<SourceDto> = Vec::new();
    let mut i: usize = 0;
    while i < arr.len()
        invariant
            is_json(body@),
            array_of(json_of(body@)) == Some(elems),
            arr@ == elems,
            0 <= i <= elems.len(),
            out@.len() == i,
            forall|k: int| 0 <= k < i ==> Some(#[trigger] out@[k]@) == spec_descriptor(elems[k]),
        decreases elems.len() - i,
    {
        match decode_descriptor(&arr[i]) {
            Ok(d) => out.push(d),
            Err(e) => {
                proof {
                    assert(spec_descriptor(elems[i as int]) is None);
                }
                return Err(e);
            },
        }
        i += 1;
    }
    proof {
        assert forall|k: int|
            0 <= k < elems.len() implies spec_descriptor(#[trigger] elems[k]) is Some by {
            assert(Some(out@[k]@) == spec_descriptor(elems[k]));
        }
    }
    Ok(out)
}

} // verus!
