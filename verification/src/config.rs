//! The blacklist configuration: which process names to terminate and how
//! often to rescan, with a fallback-to-defaults policy for missing or
//! malformed configuration text.
//!
//! The policy: text that is not a TOML document, or holds a recognized field
//! of the wrong shape (a non-array blacklist, a non-string entry, a
//! non-integer or negative interval), resolves to the full defaults; a
//! missing field resolves to that field's default; a zero interval resolves
//! to the default interval, so the configuration invariant (`Config::wf`)
//! always holds. `follows_config_policy` states the whole policy over the
//! named readings of the text.

use vstd::prelude::*;

verus! {

/// The immutable configuration the watchdog runs with.
pub struct Config {
    pub blacklisted_processes: Vec<String>,
    pub refresh_interval: u64,
}

impl Config {
    /// The configuration invariant: the scan interval is at least one second.
    pub open spec fn wf(self) -> bool {
        self.refresh_interval >= 1
    }
}

/// The names of a blacklist, as character sequences.
pub open spec fn names_of(bl: Seq<String>) -> Seq<Seq<char>> {
    bl.map_values(|s: String| s@)
}

/// The default blacklist, as character sequences.
pub open spec fn spec_default_processes() -> Seq<Seq<char>> {
    seq!["software_reporter_tool"@]
}

/// The default scan interval, in seconds.
pub open spec fn spec_default_interval() -> u64 {
    8
}

/// Whether a configuration carries the full defaults.
pub open spec fn is_default_config(c: Config) -> bool {
    &&& names_of(c.blacklisted_processes@) == spec_default_processes()
    &&& c.refresh_interval == spec_default_interval()
}

/// The default scan interval, in seconds.
pub fn default_interval() -> (r: u64)
    ensures
        r == spec_default_interval(),
{
    8
}

/// The default blacklist: the single well-known offender.
pub fn default_processes() -> (r: Vec<String>)
    ensures
        names_of(r@) == spec_default_processes(),
{
    let mut v: Vec<String> = Vec::new();
    v.push("software_reporter_tool".to_string());
    proof {
        assert(names_of(v@) =~= spec_default_processes());
    }
    v
}

/// The configuration used when the configuration source is absent or
/// malformed.
pub fn default_config() -> (c: Config)
    ensures
        c.wf(),
        is_default_config(c),
{
    Config { blacklisted_processes: default_processes(), refresh_interval: default_interval() }
}

/// What reading the recognized fields out of a parsed configuration document
/// yielded: either evidence that the document is malformed, or each field's
/// value where the document supplied one.
pub enum ParseOutcome {
    Malformed,
    Fields { processes: Option<Vec<String>>, interval: Option<u64> },
}

/// The effective configuration for a given parse outcome: a malformed
/// document resolves to the full defaults, a missing field to that field's
/// default, and a zero interval to the default interval.
pub fn effective_config(outcome: ParseOutcome) -> (c: Config)
    ensures
        c.wf(),
        outcome is Malformed ==> is_default_config(c),
        outcome matches ParseOutcome::Fields { processes: Some(p), interval: _ }
            ==> c.blacklisted_processes == p,
        outcome matches ParseOutcome::Fields { processes: None, interval: _ } ==> names_of(
            c.blacklisted_processes@,
        ) == spec_default_processes(),
        outcome matches ParseOutcome::Fields { processes: _, interval: Some(i) } ==> (i >= 1
            ==> c.refresh_interval == i) && (i == 0 ==> c.refresh_interval
            == spec_default_interval()),
        outcome matches ParseOutcome::Fields { processes: _, interval: None }
            ==> c.refresh_interval == spec_default_interval(),
{
    match outcome {
        ParseOutcome::Malformed => default_config(),
        ParseOutcome::Fields { processes, interval } => {
            let blacklisted_processes = match processes {
                Some(p) => p,
                None => default_processes(),
            };
            let refresh_interval = match interval {
                Some(i) => if i >= 1 {
                    i
                } else {
                    default_interval()
                },
                None => default_interval(),
            };
            Config { blacklisted_processes, refresh_interval }
        },
    }
}

#[verifier::external_type_specification]
#[verifier::external_body]
pub struct ExTomlValue(toml::Value);

/// Whether the text is a valid TOML document. Parsing is a function of the
/// text alone.
pub uninterp spec fn toml_parses(text: Seq<char>) -> bool;

/// The document a valid TOML text parses to.
pub uninterp spec fn toml_doc(text: Seq<char>) -> toml::Value;

/// Whether a parsed TOML value is a table with an entry under the given key.
pub uninterp spec fn toml_has_key(v: toml::Value, key: Seq<char>) -> bool;

/// The entry a TOML table holds under a key it has.
pub uninterp spec fn toml_entry(v: toml::Value, key: Seq<char>) -> toml::Value;

/// Whether a parsed TOML value is an array.
pub uninterp spec fn toml_is_array(v: toml::Value) -> bool;

/// The items of a TOML array value.
pub uninterp spec fn toml_array(v: toml::Value) -> Seq<toml::Value>;

/// Whether a parsed TOML value is a string.
pub uninterp spec fn toml_is_str(v: toml::Value) -> bool;

/// The characters of a TOML string value.
pub uninterp spec fn toml_str(v: toml::Value) -> Seq<char>;

/// Whether a parsed TOML value is an integer.
pub uninterp spec fn toml_is_int(v: toml::Value) -> bool;

/// The value of a TOML integer value.
pub uninterp spec fn toml_int(v: toml::Value) -> int;

/// The key of the blacklist field.
pub open spec fn processes_key() -> Seq<char> {
    "blacklisted_processes"@
}

/// The key of the interval field.
pub open spec fn interval_key() -> Seq<char> {
    "refresh_interval"@
}

/// Whether the document's blacklist field, if supplied, has the recognized
/// shape: an array of strings.
pub open spec fn processes_wellshaped(doc: toml::Value) -> bool {
    toml_has_key(doc, processes_key()) ==> {
        let entry = toml_entry(doc, processes_key());
        &&& toml_is_array(entry)
        &&& forall|k: int|
            0 <= k < toml_array(entry).len() ==> toml_is_str(#[trigger] toml_array(entry)[k])
    }
}

/// The names the document's blacklist field supplies, when it is well
/// shaped and present.
pub open spec fn processes_names(doc: toml::Value) -> Seq<Seq<char>> {
    toml_array(toml_entry(doc, processes_key())).map_values(|e: toml::Value| toml_str(e))
}

/// Whether the document's interval field, if supplied, has the recognized
/// shape: a non-negative integer.
pub open spec fn interval_wellshaped(doc: toml::Value) -> bool {
    toml_has_key(doc, interval_key()) ==> {
        let entry = toml_entry(doc, interval_key());
        &&& toml_is_int(entry)
        &&& toml_int(entry) >= 0
    }
}

/// The interval the document's interval field supplies, when it is well
/// shaped and present.
pub open spec fn interval_value(doc: toml::Value) -> int {
    toml_int(toml_entry(doc, interval_key()))
}

/// Whether a parsed document holds a recognized field of the wrong shape —
/// the case that resolves to the full defaults.
pub open spec fn doc_malformed(doc: toml::Value) -> bool {
    !processes_wellshaped(doc) || !interval_wellshaped(doc)
}

/// The whole fallback policy, stated over the named readings of the text:
/// unparseable or malformed-shape text resolves to the full defaults; a
/// supplied well-shaped field comes out as supplied (a zero interval as the
/// default interval); a missing field comes out as its default.
pub open spec fn follows_config_policy(text: Seq<char>, c: Config) -> bool {
    &&& !toml_parses(text) ==> is_default_config(c)
    &&& toml_parses(text) && doc_malformed(toml_doc(text)) ==> is_default_config(c)
    &&& toml_parses(text) && !doc_malformed(toml_doc(text)) ==> {
        let doc = toml_doc(text);
        &&& toml_has_key(doc, processes_key()) ==> names_of(c.blacklisted_processes@)
            == processes_names(doc)
        &&& !toml_has_key(doc, processes_key()) ==> names_of(c.blacklisted_processes@)
            == spec_default_processes()
        &&& toml_has_key(doc, interval_key()) && interval_value(doc) >= 1 ==> c.refresh_interval
            == interval_value(doc)
        &&& toml_has_key(doc, interval_key()) && interval_value(doc) == 0 ==> c.refresh_interval
            == spec_default_interval()
        &&& !toml_has_key(doc, interval_key()) ==> c.refresh_interval == spec_default_interval()
    }
}

/// Relies on toml::from_str: parses the text as a TOML document; `None` on
/// any parse error. Parsing is a function of the text alone, and an empty
/// text is a valid TOML document — a table with no keys at all.
#[verifier::external_body]
fn parse_toml(text: &str) -> (r: Option<toml::Value>)
    ensures
        r is Some <==> toml_parses(text@),
        r matches Some(v) ==> v == toml_doc(text@),
        text@.len() == 0 ==> r is Some,
        text@.len() == 0 ==> forall|key: Seq<char>| !toml_has_key(r->Some_0, key),
{
    toml::from_str::<toml::Value>(text).ok()
}

/// Relies on toml::Value::get: looks the key up in a TOML table; it returns
/// an entry exactly when the value is a table holding that key, and the
/// entry is a function of the value and the key alone.
#[verifier::external_body]
fn value_get<'a>(v: &'a toml::Value, key: &str) -> (r: Option<&'a toml::Value>)
    ensures
        r is Some <==> toml_has_key(*v, key@),
        r matches Some(e) ==> *e == toml_entry(*v, key@),
{
    v.get(key)
}

/// Relies on toml::Value::as_array: the value's items, exactly when it is
/// an array.
#[verifier::external_body]
fn value_as_array<'a>(v: &'a toml::Value) -> (r: Option<&'a Vec<toml::Value>>)
    ensures
        r is Some <==> toml_is_array(*v),
        r matches Some(a) ==> a@ == toml_array(*v),
{
    v.as_array()
}

/// Relies on toml::Value::as_str: the value's text, exactly when it is a
/// string.
#[verifier::external_body]
fn value_as_str(v: &toml::Value) -> (r: Option<String>)
    ensures
        r is Some <==> toml_is_str(*v),
        r matches Some(s) ==> s@ == toml_str(*v),
{
    v.as_str().map(str::to_string)
}

/// Relies on toml::Value::as_integer: the value's integer, exactly when it
/// is one.
#[verifier::external_body]
fn value_as_integer(v: &toml::Value) -> (r: Option<i64>)
    ensures
        r is Some <==> toml_is_int(*v),
        r matches Some(i) ==> i as int == toml_int(*v),
{
    v.as_integer()
}

/// Reads the two recognized fields out of a parsed document. A recognized
/// field of the wrong shape makes the whole document malformed; a missing
/// field is simply absent from the outcome; a supplied well-shaped field is
/// read exactly.
fn extract_outcome(root: &toml::Value) -> (o: ParseOutcome)
    ensures
        o is Malformed <==> doc_malformed(*root),
        o matches ParseOutcome::Fields { processes, interval } ==> ((processes is Some
            <==> toml_has_key(*root, processes_key())) && (processes matches Some(p) ==> names_of(
            p@,
        ) == processes_names(*root)) && (interval is Some <==> toml_has_key(
            *root,
            interval_key(),
        )) && (interval matches Some(iv) ==> iv as int == interval_value(*root))),
{
    let processes: Option<Vec<String>> = match value_get(root, "blacklisted_processes") {
        None => None,
        Some(v) => match value_as_array(v) {
            None => {
                return ParseOutcome::Malformed;
            },
            Some(arr) => {
                let mut names: Vec<String> = Vec::new();
                let mut i: usize = 0;
                while i < arr.len()
                    invariant
                        i <= arr.len(),
                        names@.len() == i,
                        toml_has_key(*root, processes_key()),
                        toml_is_array(toml_entry(*root, processes_key())),
                        arr@ == toml_array(toml_entry(*root, processes_key())),
                        forall|k: int|
                            0 <= k < i ==> toml_is_str(
                                #[trigger] toml_array(toml_entry(*root, processes_key()))[k],
                            ),
                        forall|k: int|
                            0 <= k < i ==> names@[k]@ == toml_str(
                                #[trigger] toml_array(toml_entry(*root, processes_key()))[k],
                            ),
                    decreases arr.len() - i,
                {
                    match value_as_str(&arr[i]) {
                        None => {
                            return ParseOutcome::Malformed;
                        },
                        Some(s) => { names.push(s); },
                    }
                    i += 1;
                }
                proof {
                    assert(names_of(names@) =~= processes_names(*root));
                }
                Some(names)
            },
        },
    };
    let interval: Option<u64> = match value_get(root, "refresh_interval") {
        None => None,
        Some(v) => match value_as_integer(v) {
            None => {
                return ParseOutcome::Malformed;
            },
            Some(i) => {
                if i < 0 {
                    return ParseOutcome::Malformed;
                }
                Some(i as u64)
            },
        },
    };
    ParseOutcome::Fields { processes, interval }
}

/// The effective configuration for a piece of configuration text: the
/// fallback policy of `follows_config_policy`, applied to what the outside
/// parser read out of the text. An empty text is a document without fields,
/// so it resolves to the full defaults.
pub fn config_from_toml(text: &str) -> (c: Config)
    ensures
        c.wf(),
        follows_config_policy(text@, c),
        text@.len() == 0 ==> is_default_config(c),
{
    match parse_toml(text) {
        None => effective_config(ParseOutcome::Malformed),
        Some(root) => {
            let outcome = extract_outcome(&root);
            proof {
                if text@.len() == 0 {
                    assert(!toml_has_key(root, processes_key()));
                    assert(!toml_has_key(root, interval_key()));
                }
            }
            effective_config(outcome)
        },
    }
}

/// The effective configuration for a configuration source that may be
/// absent: a missing or empty source resolves to the full defaults, and a
/// present one is read under the fallback policy.
pub fn config_from_source(contents: Option<&str>) -> (c: Config)
    ensures
        c.wf(),
        contents is None ==> is_default_config(c),
        contents matches Some(t) ==> follows_config_policy(t@, c),
        contents matches Some(t) && t@.len() == 0 ==> is_default_config(c),
{
    match contents {
        None => default_config(),
        Some(text) => config_from_toml(text),
    }
}

} // verus!
