//! Request parameter validation: the parameter object handed in by the
//! transport, modeled as plain values, and the typed video parameters
//! drawn from it.

use vstd::prelude::*;
use crate::text::str_eq;

verus! {

/// A loosely typed value of the request's parameter object. Only booleans,
/// integers and strings are meaningful to any action; every other JSON
/// shape is carried as `Other` and rejected by the typed readers.
pub enum ParamValue {
    Bool(bool),
    Int(i64),
    Str(String),
    Other,
}

/// The mathematical image of a parameter value.
pub ghost enum ParamValueView {
    Bool(bool),
    Int(i64),
    Str(Seq<char>),
    Other,
}

impl View for ParamValue {
    type V = ParamValueView;

    open spec fn view(&self) -> ParamValueView {
        match self {
            ParamValue::Bool(b) => ParamValueView::Bool(*b),
            ParamValue::Int(n) => ParamValueView::Int(*n),
            ParamValue::Str(s) => ParamValueView::Str(s@),
            ParamValue::Other => ParamValueView::Other,
        }
    }
}

/// One key/value pair of the parameter object, in object order.
pub struct ParamEntry {
    pub key: String,
    pub value: ParamValue,
}

/// The mathematical image of one entry.
#[verifier::ext_equal]
pub ghost struct ParamEntryView {
    pub key: Seq<char>,
    pub value: ParamValueView,
}

impl View for ParamEntry {
    type V = ParamEntryView;

    open spec fn view(&self) -> ParamEntryView {
        ParamEntryView { key: self.key@, value: self.value@ }
    }
}

/// The images of a whole entry list.
pub open spec fn entries_view(entries: Seq<ParamEntry>) -> Seq<ParamEntryView> {
    entries.map_values(|e: ParamEntry| e@)
}

/// The request's `params` field: a JSON object's entries in order, or the
/// mark that the field was not an object at all.
pub enum JsonParams {
    Obj { entries: Vec<ParamEntry> },
    NonObj,
}

/// The mathematical image of a parameter object.
pub ghost enum JsonParamsView {
    Obj(Seq<ParamEntryView>),
    NonObj,
}

impl View for JsonParams {
    type V = JsonParamsView;

    open spec fn view(&self) -> JsonParamsView {
        match self {
            JsonParams::Obj { entries } => JsonParamsView::Obj(entries_view(entries@)),
            JsonParams::NonObj => JsonParamsView::NonObj,
        }
    }
}

/// The value under the first entry with the given key, if any.
pub open spec fn lookup(es: Seq<ParamEntryView>, key: Seq<char>) -> Option<ParamValueView>
    decreases es.len(),
{
    if es.len() == 0 {
        None
    } else if es[0].key == key {
        Some(es[0].value)
    } else {
        lookup(es.drop_first(), key)
    }
}

proof fn lemma_lookup_at(es: Seq<ParamEntryView>, key: Seq<char>, i: int)
    requires
        0 <= i < es.len(),
        es[i].key == key,
        forall|j: int| 0 <= j < i ==> es[j].key != key,
    ensures
        lookup(es, key) == Some(es[i].value),
    decreases i,
{
    if i > 0 {
        let rest = es.drop_first();
        assert(forall|j: int| 0 <= j < i - 1 ==> rest[j] == es[j + 1]);
        lemma_lookup_at(rest, key, i - 1);
    }
}

proof fn lemma_lookup_none(es: Seq<ParamEntryView>, key: Seq<char>)
    requires
        forall|j: int| 0 <= j < es.len() ==> es[j].key != key,
    ensures
        lookup(es, key) is None,
    decreases es.len(),
{
    if es.len() > 0 {
        lemma_lookup_none(es.drop_first(), key);
    }
}

/// Finds the first entry with the given key.
fn lookup_idx(entries: &Vec<ParamEntry>, key: &str) -> (r: Option<usize>)
    ensures
        match r {
            Some(i) => i < entries.len() && entries@[i as int].key@ == key@ && lookup(
                entries_view(entries@),
                key@,
            ) == Some(entries@[i as int].value@),
            None => lookup(entries_view(entries@), key@) is None,
        },
{
    let ghost es = entries_view(entries@);
    let mut i: usize = 0;
    while i < entries.len()
        invariant
            i <= entries.len() == es.len(),
            es == entries_view(entries@),
            forall|j: int| 0 <= j < i ==> es[j].key != key@,
        decreases entries.len() - i,
    {
        proof {
            assert(es[i as int] == entries@[i as int]@);
        }
        if str_eq(entries[i].key.as_str(), key) {
            proof {
                lemma_lookup_at(es, key@, i as int);
            }
            return Some(i);
        }
        i += 1;
    }
    proof {
        lemma_lookup_none(es, key@);
    }
    None
}

/// The boolean under a key, or the default when the key is absent; a value
/// of any other type is a validation error naming the key.
pub open spec fn parse_bool_spec(es: Seq<ParamEntryView>, key: Seq<char>, default: bool) -> Result<
    bool,
    Seq<char>,
> {
    match lookup(es, key) {
        None => Ok(default),
        Some(ParamValueView::Bool(b)) => Ok(b),
        Some(_) => Err(key + " must be a boolean"@),
    }
}

/// Reads an optional boolean parameter.
pub fn parse_bool(entries: &Vec<ParamEntry>, key: &str, default: bool) -> (r: Result<bool, String>)
    ensures
        match r {
            Ok(b) => parse_bool_spec(entries_view(entries@), key@, default) == Ok::<
                bool,
                Seq<char>,
            >(b),
            Err(e) => parse_bool_spec(entries_view(entries@), key@, default) == Err::<
                bool,
                Seq<char>,
            >(e@),
        },
{
    match lookup_idx(entries, key) {
        None => Ok(default),
        Some(i) => match &entries[i].value {
            ParamValue::Bool(b) => Ok(*b),
            _ => Err(String::from_str(key).concat(" must be a boolean")),
        },
    }
}

/// The integer under a key, or the default when the key is absent; a value
/// of any other type is a validation error naming the key.
pub open spec fn parse_i64_spec(es: Seq<ParamEntryView>, key: Seq<char>, default: i64) -> Result<
    i64,
    Seq<char>,
> {
    match lookup(es, key) {
        None => Ok(default),
        Some(ParamValueView::Int(n)) => Ok(n),
        Some(_) => Err(key + " must be an integer"@),
    }
}

/// Reads an optional integer parameter.
pub fn parse_i64(entries: &Vec<ParamEntry>, key: &str, default: i64) -> (r: Result<i64, String>)
    ensures
        match r {
            Ok(n) => parse_i64_spec(entries_view(entries@), key@, default) == Ok::<
                i64,
                Seq<char>,
            >(n),
            Err(e) => parse_i64_spec(entries_view(entries@), key@, default) == Err::<
                i64,
                Seq<char>,
            >(e@),
        },
{
    match lookup_idx(entries, key) {
        None => Ok(default),
        Some(i) => match &entries[i].value {
            ParamValue::Int(n) => Ok(*n),
            _ => Err(String::from_str(key).concat(" must be an integer")),
        },
    }
}

/// The string under a key, or the default when the key is absent; a value
/// of any other type is a validation error naming the key.
pub open spec fn parse_string_spec(
    es: Seq<ParamEntryView>,
    key: Seq<char>,
    default: Seq<char>,
) -> Result<Seq<char>, Seq<char>> {
    match lookup(es, key) {
        None => Ok(default),
        Some(ParamValueView::Str(s)) => Ok(s),
        Some(_) => Err(key + " must be a string"@),
    }
}

/// Reads an optional string parameter.
pub fn parse_string(entries: &Vec<ParamEntry>, key: &str, default: &str) -> (r: Result<
    String,
    String,
>)
    ensures
        match r {
            Ok(s) => parse_string_spec(entries_view(entries@), key@, default@) == Ok::<
                Seq<char>,
                Seq<char>,
            >(s@),
            Err(e) => parse_string_spec(entries_view(entries@), key@, default@) == Err::<
                Seq<char>,
                Seq<char>,
            >(e@),
        },
{
    match lookup_idx(entries, key) {
        None => Ok(String::from_str(default)),
        Some(i) => match &entries[i].value {
            ParamValue::Str(s) => Ok(s.clone()),
            _ => Err(String::from_str(key).concat(" must be a string")),
        },
    }
}

/// A key the video actions accept.
pub open spec fn video_param_key(k: Seq<char>) -> bool {
    k == "video_nr"@ || k == "label"@ || k == "exclusive_caps"@ || k == "force"@ || k
        == "always_reload"@
}

/// The first key the video actions do not accept, if any.
pub open spec fn first_bad_video_key(es: Seq<ParamEntryView>) -> Option<Seq<char>>
    decreases es.len(),
{
    if es.len() == 0 {
        None
    } else if !video_param_key(es[0].key) {
        Some(es[0].key)
    } else {
        first_bad_video_key(es.drop_first())
    }
}

proof fn lemma_first_bad_at(es: Seq<ParamEntryView>, i: int)
    requires
        0 <= i < es.len(),
        !video_param_key(es[i].key),
        forall|j: int| 0 <= j < i ==> video_param_key(es[j].key),
    ensures
        first_bad_video_key(es) == Some(es[i].key),
    decreases i,
{
    if i > 0 {
        let rest = es.drop_first();
        assert(forall|j: int| 0 <= j < i - 1 ==> rest[j] == es[j + 1]);
        lemma_first_bad_at(rest, i - 1);
    }
}

proof fn lemma_first_bad_none(es: Seq<ParamEntryView>)
    requires
        forall|j: int| 0 <= j < es.len() ==> video_param_key(es[j].key),
    ensures
        first_bad_video_key(es) is None,
    decreases es.len(),
{
    if es.len() > 0 {
        lemma_first_bad_none(es.drop_first());
    }
}

/// A character allowed in a device label: ASCII letters and digits, space,
/// underscore and hyphen.
pub open spec fn label_char(c: char) -> bool {
    (48 <= c as u32 && c as u32 <= 57) || (65 <= c as u32 && c as u32 <= 90) || (97 <= c as u32
        && c as u32 <= 122) || c == ' ' || c == '_' || c == '-'
}

/// A valid device label: 1 to 64 characters of the label charset.
pub open spec fn valid_label_of(s: Seq<char>) -> bool {
    1 <= s.len() <= 64 && forall|i: int| 0 <= i < s.len() ==> label_char(s[i])
}

/// Whether a label may be written into the module options and the config
/// file: 1 to 64 characters from `[A-Za-z0-9 _-]`.
pub fn valid_label(label: &str) -> (r: bool)
    ensures
        r == valid_label_of(label@),
{
    let n = label.unicode_len();
    if n == 0 || n > 64 {
        return false;
    }
    let mut i: usize = 0;
    while i < n
        invariant
            1 <= n <= 64,
            n == label@.len(),
            i <= n,
            forall|j: int| 0 <= j < i ==> label_char(label@[j]),
        decreases n - i,
    {
        let c = label.get_char(i);
        let u = c as u32;
        let ok = (48 <= u && u <= 57) || (65 <= u && u <= 90) || (97 <= u && u <= 122) || c == ' '
            || c == '_' || c == '-';
        if !ok {
            return false;
        }
        i += 1;
    }
    true
}

/// A character allowed in a request id: ASCII letters and digits, hyphen,
/// underscore and dot.
pub open spec fn request_id_char(c: char) -> bool {
    (48 <= c as u32 && c as u32 <= 57) || (65 <= c as u32 && c as u32 <= 90) || (97 <= c as u32
        && c as u32 <= 122) || c == '-' || c == '_' || c == '.'
}

/// A valid request id: 1 to 128 characters of the request-id charset.
pub open spec fn valid_request_id_of(s: Seq<char>) -> bool {
    1 <= s.len() <= 128 && forall|i: int| 0 <= i < s.len() ==> request_id_char(s[i])
}

/// What validating a request id reports: fine, a length complaint, or a
/// charset complaint.
pub open spec fn validate_request_id_spec(s: Seq<char>) -> Result<(), Seq<char>> {
    if !(1 <= s.len() <= 128) {
        Err("request_id must be 1..128 chars"@)
    } else if !(forall|i: int| 0 <= i < s.len() ==> request_id_char(s[i])) {
        Err("request_id contains unsupported characters"@)
    } else {
        Ok(())
    }
}

/// Validates the request id: 1 to 128 characters from `[A-Za-z0-9._-]`.
pub fn validate_request_id(request_id: &str) -> (r: Result<(), String>)
    ensures
        r is Ok <==> valid_request_id_of(request_id@),
        match r {
            Ok(u) => validate_request_id_spec(request_id@) == Ok::<(), Seq<char>>(()),
            Err(e) => validate_request_id_spec(request_id@) == Err::<(), Seq<char>>(e@),
        },
{
    let n = request_id.unicode_len();
    if n == 0 || n > 128 {
        return Err(String::from_str("request_id must be 1..128 chars"));
    }
    let mut i: usize = 0;
    while i < n
        invariant
            1 <= n <= 128,
            n == request_id@.len(),
            i <= n,
            forall|j: int| 0 <= j < i ==> request_id_char(request_id@[j]),
        decreases n - i,
    {
        let c = request_id.get_char(i);
        let u = c as u32;
        let ok = (48 <= u && u <= 57) || (65 <= u && u <= 90) || (97 <= u && u <= 122) || c == '-'
            || c == '_' || c == '.';
        if !ok {
            return Err(String::from_str("request_id contains unsupported characters"));
        }
        i += 1;
    }
    Ok(())
}

/// The typed parameters of every video action, validated and defaulted.
pub struct VideoParams {
    pub video_nr: i64,
    pub label: String,
    pub exclusive_caps: bool,
    pub force: bool,
    pub always_reload: bool,
}

/// The mathematical image of the typed video parameters.
#[verifier::ext_equal]
pub ghost struct VideoParamsView {
    pub video_nr: i64,
    pub label: Seq<char>,
    pub exclusive_caps: bool,
    pub force: bool,
    pub always_reload: bool,
}

impl View for VideoParams {
    type V = VideoParamsView;

    open spec fn view(&self) -> VideoParamsView {
        VideoParamsView {
            video_nr: self.video_nr,
            label: self.label@,
            exclusive_caps: self.exclusive_caps,
            force: self.force,
            always_reload: self.always_reload,
        }
    }
}

/// What parsing the video parameters yields: every key checked against the
/// allowed set, the device number checked against 0..=255, the label
/// checked against its charset, and each missing key defaulted
/// (`video_nr` 10, label `AVream Camera`, `exclusive_caps` true, `force`
/// and `always_reload` false). Validation fails exactly on the first
/// violation in that order.
pub open spec fn parse_video_params_spec(p: JsonParamsView) -> Result<VideoParamsView, Seq<char>> {
    match p {
        JsonParamsView::NonObj => Err("params must be an object"@),
        JsonParamsView::Obj(es) => match first_bad_video_key(es) {
            Some(k) => Err("unsupported param: "@ + k),
            None => match parse_i64_spec(es, "video_nr"@, 10) {
                Err(e) => Err(e),
                Ok(nr) => if !(0 <= nr <= 255) {
                    Err("video_nr must be in range 0..255"@)
                } else {
                    match parse_string_spec(es, "label"@, "AVream Camera"@) {
                        Err(e) => Err(e),
                        Ok(label) => if !valid_label_of(label) {
                            Err("label must be 1..64 chars and use [A-Za-z0-9 _-]"@)
                        } else {
                            match parse_bool_spec(es, "exclusive_caps"@, true) {
                                Err(e) => Err(e),
                                Ok(excl) => match parse_bool_spec(es, "force"@, false) {
                                    Err(e) => Err(e),
                                    Ok(force) => match parse_bool_spec(
                                        es,
                                        "always_reload"@,
                                        false,
                                    ) {
                                        Err(e) => Err(e),
                                        Ok(always) => Ok(
                                            VideoParamsView {
                                                video_nr: nr,
                                                label,
                                                exclusive_caps: excl,
                                                force,
                                                always_reload: always,
                                            },
                                        ),
                                    },
                                },
                            }
                        },
                    }
                },
            },
        },
    }
}

/// Parses and validates the parameters of a video action, applying the
/// documented defaults for absent keys and rejecting unknown keys, an
/// out-of-range device number and an invalid label.
pub fn parse_video_params(params: &JsonParams) -> (r: Result<VideoParams, String>)
    ensures
        match r {
            Ok(p) => parse_video_params_spec(params@) == Ok::<VideoParamsView, Seq<char>>(p@),
            Err(e) => parse_video_params_spec(params@) == Err::<VideoParamsView, Seq<char>>(e@),
        },
{
    let entries = match params {
        JsonParams::Obj { entries } => entries,
        JsonParams::NonObj => {
            return Err(String::from_str("params must be an object"));
        },
    };
    let ghost es = entries_view(entries@);
    proof {
        assert(params@ == JsonParamsView::Obj(es));
    }
    let mut i: usize = 0;
    while i < entries.len()
        invariant
            i <= entries.len() == es.len(),
            es == entries_view(entries@),
            params@ == JsonParamsView::Obj(es),
            forall|j: int| 0 <= j < i ==> video_param_key(es[j].key),
        decreases entries.len() - i,
    {
        proof {
            assert(es[i as int] == entries@[i as int]@);
        }
        let key = entries[i].key.as_str();
        let ok = str_eq(key, "video_nr") || str_eq(key, "label") || str_eq(key, "exclusive_caps")
            || str_eq(key, "force") || str_eq(key, "always_reload");
        if !ok {
            proof {
                lemma_first_bad_at(es, i as int);
            }
            return Err(String::from_str("unsupported param: ").concat(key));
        }
        i += 1;
    }
    proof {
        lemma_first_bad_none(es);
    }
    let video_nr = match parse_i64(entries, "video_nr", 10) {
        Ok(n) => n,
        Err(e) => {
            return Err(e);
        },
    };
    if !(0 <= video_nr && video_nr <= 255) {
        return Err(String::from_str("video_nr must be in range 0..255"));
    }
    let label = match parse_string(entries, "label", "AVream Camera") {
        Ok(s) => s,
        Err(e) => {
            return Err(e);
        },
    };
    if !valid_label(label.as_str()) {
        return Err(String::from_str("label must be 1..64 chars and use [A-Za-z0-9 _-]"));
    }
    let exclusive_caps = match parse_bool(entries, "exclusive_caps", true) {
        Ok(b) => b,
        Err(e) => {
            return Err(e);
        },
    };
    let force = match parse_bool(entries, "force", false) {
        Ok(b) => b,
        Err(e) => {
            return Err(e);
        },
    };
    let always_reload = match parse_bool(entries, "always_reload", false) {
        Ok(b) => b,
        Err(e) => {
            return Err(e);
        },
    };
    let p = VideoParams { video_nr, label, exclusive_caps, force, always_reload };
    proof {
        assert(parse_video_params_spec(params@) matches Ok(v) && v =~= p@);
    }
    Ok(p)
}

/// What validating an empty parameter object yields: any entry at all is
/// an unsupported key.
pub open spec fn parse_empty_params_spec(p: JsonParamsView) -> Result<(), Seq<char>> {
    match p {
        JsonParamsView::NonObj => Err("params must be an object"@),
        JsonParamsView::Obj(es) => if es.len() == 0 {
            Ok(())
        } else {
            Err("unsupported param: "@ + es[0].key)
        },
    }
}

/// Validates that an action expecting no parameters received none.
pub fn parse_empty_params(params: &JsonParams) -> (r: Result<(), String>)
    ensures
        match r {
            Ok(u) => parse_empty_params_spec(params@) == Ok::<(), Seq<char>>(()),
            Err(e) => parse_empty_params_spec(params@) == Err::<(), Seq<char>>(e@),
        },
{
    match params {
        JsonParams::NonObj => Err(String::from_str("params must be an object")),
        JsonParams::Obj { entries } => {
            if entries.len() == 0 {
                Ok(())
            } else {
                proof {
                    assert(entries_view(entries@)[0] == entries@[0]@);
                }
                Err(String::from_str("unsupported param: ").concat(entries[0].key.as_str()))
            }
        },
    }
}

} // verus!
