//! Backend presets: the export mode, endpoint and headers that a named
//! backend implies, given the values of the environment variables it honours.

use vstd::prelude::*;

use crate::export::ExportMode;
use crate::header_map::HeaderMap;
use crate::text::{
    chars_of, find_char, first_index, has_char, is_first_index, split_chars, split_on, string_of,
    trim_ascii, trim_ascii_bounds,
};

pub mod elastic;
pub mod gcp;
pub mod grafana_tempo;
pub mod newrelic;
pub mod otlp_grpc;
pub mod otlp_http;
pub mod stdout;
pub mod zipkin;

verus! {

/// Why a preset could not be built.
#[derive(Clone, Copy, Debug, PartialEq, Eq, Structural)]
pub enum PresetError {
    /// The headers variable holds an entry without `=` or with an empty name.
    MalformedHeaders,
}

/// What a preset configures. Presets never set a sampling ratio.
#[derive(Debug)]
pub struct PresetConfig {
    pub export_mode: Option<ExportMode>,
    pub otlp_endpoint: Option<String>,
    pub otlp_headers: HeaderMap,
}

/// One comma-separated entry of a headers variable: `None` when malformed,
/// `Some(None)` when blank, otherwise the trimmed name and value around the first `=`.
pub open spec fn parse_header_entry(seg: Seq<char>) -> Option<Option<(Seq<char>, Seq<char>)>> {
    let t = trim_ascii(seg);
    if t.len() == 0 {
        Some(None)
    } else if !has_char(t, '=') {
        None
    } else {
        let p = first_index(t, '=');
        let key = trim_ascii(t.take(p));
        let value = trim_ascii(t.skip(p + 1));
        if key.len() == 0 {
            None
        } else {
            Some(Some((key, value)))
        }
    }
}

/// The headers that a sequence of entries sets, a later entry overriding an
/// earlier one with the same name; `None` when some entry is malformed.
pub open spec fn parse_header_entries(segs: Seq<Seq<char>>) -> Option<Map<Seq<char>, Seq<char>>>
    decreases segs.len(),
{
    if segs.len() == 0 {
        Some(Map::empty())
    } else {
        match parse_header_entries(segs.drop_last()) {
            None => None,
            Some(m) => match parse_header_entry(segs.last()) {
                None => None,
                Some(None) => Some(m),
                Some(Some(kv)) => Some(m.insert(kv.0, kv.1)),
            },
        }
    }
}

/// The headers that a headers variable (`name=value,name=value`) sets; an unset
/// variable sets none.
pub open spec fn parse_headers(raw: Option<Seq<char>>) -> Option<Map<Seq<char>, Seq<char>>> {
    match raw {
        None => Some(Map::empty()),
        Some(s) => parse_header_entries(split_on(s, ',')),
    }
}

/// The view of an optional string.
pub open spec fn opt_string_view(s: Option<String>) -> Option<Seq<char>> {
    match s {
        Some(t) => Some(t@),
        None => None,
    }
}

fn parse_entry_at(chars: &Vec<char>, lo: usize, hi: usize) -> (res: Result<
    Option<(String, String)>,
    PresetError,
>)
    requires
        lo <= hi <= chars@.len(),
    ensures
        match parse_header_entry(chars@.subrange(lo as int, hi as int)) {
            None => res is Err,
            Some(None) => res matches Ok(None),
            Some(Some(kv)) => res matches Ok(Some(p)) && p.0@ == kv.0 && p.1@ == kv.1,
        },
{
    let ghost seg = chars@.subrange(lo as int, hi as int);
    let (a, b) = trim_ascii_bounds(chars, lo, hi);
    let ghost t = chars@.subrange(a as int, b as int);
    assert(trim_ascii(seg) == t);
    if a == b {
        return Ok(None);
    }
    match find_char(chars, a, b, '=') {
        None => Err(PresetError::MalformedHeaders),
        Some(p) => {
            proof {
                let q = first_index(t, '=');
                assert(is_first_index(t, '=', q));
                if q < p {
                    assert(t[q] != '=');
                } else if p < q {
                    assert(t[p as int] != '=');
                }
                assert(t.take(p as int) =~= chars@.subrange(a as int, (a + p) as int));
                assert(t.skip(p + 1) =~= chars@.subrange((a + p + 1) as int, b as int));
            }
            let (ka, kb) = trim_ascii_bounds(chars, a, a + p);
            let (va, vb) = trim_ascii_bounds(chars, a + p + 1, b);
            if ka == kb {
                return Err(PresetError::MalformedHeaders);
            }
            Ok(Some((string_of(chars, ka, kb), string_of(chars, va, vb))))
        },
    }
}

/// Parses a headers variable of the form `name=value,name=value` (blank
/// entries are skipped, names and values are trimmed of ASCII whitespace, a
/// later entry overrides an earlier one). An entry without `=` or with an
/// empty name is an error.
pub fn parse_headers_from_env(raw: Option<String>) -> (res: Result<HeaderMap, PresetError>)
    ensures
        match parse_headers(opt_string_view(raw)) {
            Some(m) => res matches Ok(h) && h.wf() && h@ == m,
            None => res is Err,
        },
{
    let ghost raw_view = opt_string_view(raw);
    let mut headers = HeaderMap::new();
    let s = match raw {
        None => {
            return Ok(headers);
        },
        Some(s) => s,
    };
    let chars = chars_of(s.as_str());
    let pieces = split_chars(&chars, ',');
    let ghost segs = split_on(chars@, ',');
    assert(raw_view == Some(chars@));
    assert(parse_headers(raw_view) == parse_header_entries(segs));
    let n = pieces.len();
    assert(segs.take(0) =~= Seq::<Seq<char>>::empty());
    for i in 0..n
        invariant
            n == pieces@.len(),
            n == segs.len(),
            segs == split_on(chars@, ','),
            forall|k: int|
                0 <= k < pieces@.len() ==> {
                    &&& (#[trigger] pieces@[k]).0 <= pieces@[k].1 <= chars@.len()
                    &&& chars@.subrange(pieces@[k].0 as int, pieces@[k].1 as int) == segs[k]
                },
            headers.wf(),
            parse_header_entries(segs.take(i as int)) == Some(headers@),
            parse_headers(raw_view) == parse_header_entries(segs),
            raw_view == opt_string_view(raw),
    {
        let ghost before = segs.take(i as int);
        assert(segs.take(i + 1).drop_last() =~= before);
        assert(segs.take(i + 1).last() == segs[i as int]);
        let (lo, hi) = pieces[i];
        assert(chars@.subrange(lo as int, hi as int) == segs[i as int]);
        match parse_entry_at(&chars, lo, hi) {
            Err(e) => {
                proof {
                    assert(parse_header_entries(segs.take(i + 1)) is None);
                    lemma_entries_error_persists(segs, i + 1);
                    assert(segs.take(n as int) =~= segs);
                }
                return Err(e);
            },
            Ok(None) => {},
            Ok(Some((k, v))) => {
                headers.insert(k, v);
            },
        }
    }
    assert(segs.take(n as int) =~= segs);
    Ok(headers)
}

proof fn lemma_entries_error_persists(segs: Seq<Seq<char>>, i: int)
    requires
        0 <= i <= segs.len(),
        parse_header_entries(segs.take(i)) is None,
    ensures
        parse_header_entries(segs) is None,
    decreases segs.len() - i,
{
    if i < segs.len() {
        assert(segs.take(i + 1).drop_last() =~= segs.take(i));
        lemma_entries_error_persists(segs, i + 1);
    } else {
        assert(segs.take(i) =~= segs);
    }
}

/// The endpoint variable when it is set and not empty.
pub fn non_empty(value: Option<String>) -> (res: Option<String>)
    ensures
        opt_string_view(res) == match opt_string_view(value) {
            Some(v) => if v.len() == 0 {
                None
            } else {
                Some(v)
            },
            None => None,
        },
{
    match value {
        Some(v) => {
            if v.as_str().is_empty() {
                None
            } else {
                Some(v)
            }
        },
        None => None,
    }
}

} // verus!

verus! {

/// A set, non-empty variable value.
pub open spec fn non_empty_view(value: Option<Seq<char>>) -> Option<Seq<char>> {
    match value {
        Some(v) => if v.len() == 0 {
            None
        } else {
            Some(v)
        },
        None => None,
    }
}

/// The endpoint a preset uses: the set, non-empty variable, else the preset's default.
pub open spec fn endpoint_or(env: Option<String>, default: Option<Seq<char>>) -> Option<Seq<char>> {
    match non_empty_view(opt_string_view(env)) {
        Some(v) => Some(v),
        None => default,
    }
}

/// `headers` with `name` set to `value` when a value is given and `name` has none yet.
pub open spec fn with_default_header(
    headers: Map<Seq<char>, Seq<char>>,
    name: Seq<char>,
    value: Option<Seq<char>>,
) -> Map<Seq<char>, Seq<char>> {
    match value {
        Some(v) => if headers.contains_key(name) {
            headers
        } else {
            headers.insert(name, v)
        },
        None => headers,
    }
}

/// Whether `c` is the preset configuration with the given mode, endpoint and headers.
pub open spec fn preset_is(
    c: PresetConfig,
    mode: ExportMode,
    endpoint: Option<Seq<char>>,
    headers: Map<Seq<char>, Seq<char>>,
) -> bool {
    &&& c.export_mode == Some(mode)
    &&& opt_string_view(c.otlp_endpoint) == endpoint
    &&& c.otlp_headers.wf()
    &&& c.otlp_headers@ == headers
}

/// A preset with fixed endpoint and no headers.
pub fn fixed_preset(mode: ExportMode, endpoint: Option<&str>) -> (res: PresetConfig)
    ensures
        preset_is(
            res,
            mode,
            match endpoint {
                Some(e) => Some(e@),
                None => None,
            },
            Map::empty(),
        ),
{
    let otlp_endpoint = match endpoint {
        Some(e) => Some(e.to_owned()),
        None => None,
    };
    PresetConfig { export_mode: Some(mode), otlp_endpoint, otlp_headers: HeaderMap::new() }
}

/// The endpoint variable when set and not empty, else `default`.
pub fn endpoint_from_env(env: Option<String>, default: Option<&str>) -> (res: Option<String>)
    ensures
        opt_string_view(res) == endpoint_or(
            env,
            match default {
                Some(d) => Some(d@),
                None => None,
            },
        ),
{
    match non_empty(env) {
        Some(v) => Some(v),
        None => match default {
            Some(d) => Some(d.to_owned()),
            None => None,
        },
    }
}

} // verus!
