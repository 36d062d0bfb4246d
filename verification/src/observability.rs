use vstd::prelude::*;

use crate::text::{characters, clone_pairs, pairs_view};

verus! {

/// How the console log is written.
#[derive(Debug, Clone, Copy, PartialEq, Eq, Structural)]
pub enum LogFormat {
    Json,
    Pretty,
}

/// `text` in lower case, as `str::to_lowercase` gives it.
pub uninterp spec fn lowercased(text: Seq<char>) -> Seq<char>;

/// Calls `str::to_lowercase`. The contract only names the result.
#[verifier::external_body]
fn to_lowercase(text: &str) -> (lower: String)
    ensures
        lower@ == lowercased(text@),
{
    text.to_lowercase()
}

/// Whether `c` is white space, as `char::is_whitespace` says.
pub uninterp spec fn is_whitespace(c: char) -> bool;

/// Calls `char::is_whitespace`. The contract only names the result.
#[verifier::external_body]
fn char_is_whitespace(c: char) -> (white: bool)
    ensures
        white == is_whitespace(c),
{
    c.is_whitespace()
}

/// Whether tonic takes `name` as the name of a text header of a request.
pub uninterp spec fn is_metadata_key(name: Seq<char>) -> bool;

/// Calls `tonic::metadata::MetadataKey::from_bytes` for a text header and
/// says whether it gave a key. The contract only names the result.
#[verifier::external_body]
fn tonic_takes_key(name: &str) -> (taken: bool)
    ensures
        taken == is_metadata_key(name@),
{
    tonic::metadata::MetadataKey::<tonic::metadata::Ascii>::from_bytes(name.as_bytes()).is_ok()
}

/// Whether tonic takes `value` as the value of a text header of a request.
pub uninterp spec fn is_metadata_value(value: Seq<char>) -> bool;

/// Calls `TryFrom<&str>` of `tonic::metadata::MetadataValue` for a text
/// header and says whether it gave a value. The contract only names the
/// result.
#[verifier::external_body]
fn tonic_takes_value(value: &str) -> (taken: bool)
    ensures
        taken == is_metadata_value(value@),
{
    tonic::metadata::MetadataValue::<tonic::metadata::Ascii>::try_from(value).is_ok()
}

/// The index of the first `c` in `s`, or the length of `s` where it holds
/// none.
pub open spec fn position(s: Seq<char>, c: char) -> nat
    decreases s.len(),
{
    if s.len() == 0 || s[0] == c {
        0
    } else {
        1 + position(s.drop_first(), c)
    }
}

/// `s` without the white space at its start.
pub open spec fn trim_start(s: Seq<char>) -> Seq<char>
    decreases s.len(),
{
    if s.len() > 0 && is_whitespace(s[0]) {
        trim_start(s.drop_first())
    } else {
        s
    }
}

/// `s` without the white space at its end.
pub open spec fn trim_end(s: Seq<char>) -> Seq<char>
    decreases s.len(),
{
    if s.len() > 0 && is_whitespace(s.last()) {
        trim_end(s.drop_last())
    } else {
        s
    }
}

/// `s` without the white space at its start and at its end.
pub open spec fn trimmed(s: Seq<char>) -> Seq<char> {
    trim_end(trim_start(s))
}

/// The header that one piece of the list stands for: the text before the
/// first `=` is the name, the text after it the value, both trimmed. A piece
/// without `=` stands for nothing.
pub open spec fn header_of(piece: Seq<char>) -> Option<(Seq<char>, Seq<char>)> {
    let eq = position(piece, '=') as int;
    if eq >= piece.len() {
        None
    } else {
        Some((trimmed(piece.take(eq)), trimmed(piece.skip(eq + 1))))
    }
}

/// The headers that a list names, in the order of the list. The pieces of
/// the list are parted by commas.
pub open spec fn listed_headers(list: Seq<char>) -> Seq<(Seq<char>, Seq<char>)>
    decreases list.len(),
{
    let end = position(list, ',') as int;
    let head = match header_of(list.take(end)) {
        Some(header) => seq![header],
        None => Seq::empty(),
    };
    if end >= list.len() {
        head
    } else {
        head + listed_headers(list.skip(end + 1))
    }
}

/// Whether `name` is the name of one of `headers`.
pub open spec fn names(headers: Seq<(Seq<char>, Seq<char>)>, name: Seq<char>) -> bool {
    exists|i: int| 0 <= i < headers.len() && #[trigger] headers[i].0 == name
}

/// Whether `i` is the first place among `headers` where `name` stands.
pub open spec fn is_place_of(headers: Seq<(Seq<char>, Seq<char>)>, name: Seq<char>, i: int) -> bool {
    &&& 0 <= i < headers.len()
    &&& headers[i].0 == name
    &&& forall|j: int| 0 <= j < i ==> (#[trigger] headers[j]).0 != name
}

/// The first place of `name` among `headers`, for a name that `names` knows.
pub open spec fn place_of(headers: Seq<(Seq<char>, Seq<char>)>, name: Seq<char>) -> int {
    choose|i: int| is_place_of(headers, name, i)
}

/// `headers` with `name` set to `value`: in the place where the name already
/// stands, else at the end.
pub open spec fn with_header(
    headers: Seq<(Seq<char>, Seq<char>)>,
    name: Seq<char>,
    value: Seq<char>,
) -> Seq<(Seq<char>, Seq<char>)> {
    if names(headers, name) {
        headers.update(place_of(headers, name), (name, value))
    } else {
        headers.push((name, value))
    }
}

/// The headers that remain when `listed` are set one after the other: of
/// two headers with one name the later one stays.
pub open spec fn collected(listed: Seq<(Seq<char>, Seq<char>)>) -> Seq<(Seq<char>, Seq<char>)>
    decreases listed.len(),
{
    if listed.len() == 0 {
        Seq::empty()
    } else {
        with_header(collected(listed.drop_last()), listed.last().0, listed.last().1)
    }
}

/// No name occurs twice among `headers`.
pub open spec fn distinct_names(headers: Seq<(Seq<char>, Seq<char>)>) -> bool {
    forall|i: int, j: int|
        0 <= i < j < headers.len() ==> #[trigger] headers[i].0 != #[trigger] headers[j].0
}

/// The value that `headers` give to each name: the mapping that the list
/// stands for.
pub open spec fn as_map(headers: Seq<(Seq<char>, Seq<char>)>) -> Map<Seq<char>, Seq<char>>
    decreases headers.len(),
{
    if headers.len() == 0 {
        Map::empty()
    } else {
        as_map(headers.drop_last()).insert(headers.last().0, headers.last().1)
    }
}

/// `position` is the only index up to which `c` does not occur and at which
/// it does, or the text ends.
pub proof fn position_is(s: Seq<char>, c: char, p: int)
    requires
        0 <= p <= s.len(),
        forall|i: int| 0 <= i < p ==> s[i] != c,
        p < s.len() ==> s[p] == c,
    ensures
        position(s, c) == p,
    decreases s.len(),
{
    if s.len() == 0 || s[0] == c {
    } else {
        position_is(s.drop_first(), c, p - 1);
    }
}

/// The first index from `from` on, and before `to`, at which `c` stands, or
/// `to` where it stands at none.
fn find(chars: &Vec<char>, from: usize, to: usize, c: char) -> (at: usize)
    requires
        from <= to <= chars.len(),
    ensures
        from <= at <= to,
        position(chars@.subrange(from as int, to as int), c) == at - from,
{
    let mut at = from;
    while at < to && chars[at] != c
        invariant
            from <= at <= to <= chars.len(),
            forall|i: int| from <= i < at ==> chars@[i] != c,
        decreases to - at,
    {
        at += 1;
    }
    proof {
        position_is(chars@.subrange(from as int, to as int), c, at - from);
    }
    at
}

/// The bounds of what is left of `chars[from..to]` when the white space at
/// its two ends is taken away.
fn trim(chars: &Vec<char>, from: usize, to: usize) -> (bounds: (usize, usize))
    requires
        from <= to <= chars.len(),
    ensures
        from <= bounds.0 <= bounds.1 <= to,
        chars@.subrange(bounds.0 as int, bounds.1 as int) == trimmed(
            chars@.subrange(from as int, to as int),
        ),
{
    let mut first = from;
    while first < to && char_is_whitespace(chars[first])
        invariant
            from <= first <= to <= chars.len(),
            trim_start(chars@.subrange(from as int, to as int)) == trim_start(
                chars@.subrange(first as int, to as int),
            ),
        decreases to - first,
    {
        assert(chars@.subrange(first as int, to as int).drop_first() =~= chars@.subrange(
            first + 1,
            to as int,
        ));
        first += 1;
    }
    let mut end = to;
    while first < end && char_is_whitespace(chars[end - 1])
        invariant
            first <= end <= to <= chars.len(),
            trim_end(chars@.subrange(first as int, to as int)) == trim_end(
                chars@.subrange(first as int, end as int),
            ),
        decreases end - first,
    {
        assert(chars@.subrange(first as int, end as int).drop_last() =~= chars@.subrange(
            first as int,
            end - 1,
        ));
        end -= 1;
    }
    (first, end)
}

/// Sets `name` to `value` among `headers`: in the first place where the name
/// already stands, else at the end.
fn set_header(headers: &mut Vec<(String, String)>, name: String, value: String)
    ensures
        pairs_view(final(headers)@) == with_header(pairs_view(old(headers)@), name@, value@),
{
    let ghost before = pairs_view(headers@);
    let mut i: usize = 0;
    while i < headers.len()
        invariant
            i <= headers.len(),
            before == pairs_view(old(headers)@),
            pairs_view(headers@) == before,
            forall|j: int| 0 <= j < i ==> (#[trigger] before[j]).0 != name@,
        decreases headers.len() - i,
    {
        if headers[i].0 == name {
            assert(is_place_of(before, name@, i as int));
            headers.set(i, (name, value));
            return ;
        }
        i += 1;
    }
    headers.push((name, value));
}

/// Reads a list of headers: pieces parted by commas, each a name and a value
/// parted by the first `=`, both without the white space around them. A piece
/// without `=` is passed over. Where a name comes twice, the later value
/// stays.
pub fn parse_otlp_headers(headers_str: &str) -> (headers: Vec<(String, String)>)
    ensures
        pairs_view(headers@) == collected(listed_headers(headers_str@)),
        distinct_names(pairs_view(headers@)),
{
    proof {
        collected_names_are_distinct(listed_headers(headers_str@));
    }
    let chars = characters(headers_str);
    let n = chars.len();
    let mut headers: Vec<(String, String)> = Vec::new();
    let ghost mut listed: Seq<(Seq<char>, Seq<char>)> = Seq::empty();
    let mut start: usize = 0;
    let mut done = false;
    assert(chars@.skip(0) =~= chars@);
    while !done
        invariant
            chars@ == headers_str@,
            n == chars.len(),
            start <= n,
            pairs_view(headers@) == collected(listed),
            !done ==> listed_headers(chars@) == listed + listed_headers(chars@.skip(start as int)),
            done ==> listed_headers(chars@) == listed,
        decreases
                (if done {
                    0
                } else {
                    n - start + 1
                }),
    {
        let end = find(&chars, start, n, ',');
        let eq = find(&chars, start, end, '=');
        let ghost rest = chars@.skip(start as int);
        let ghost piece = chars@.subrange(start as int, end as int);
        proof {
            assert(rest.take(end - start) =~= piece);
            assert(piece.take(eq - start) =~= chars@.subrange(start as int, eq as int));
            if end < n {
                assert(rest.skip(end - start + 1) =~= chars@.skip(end + 1));
            }
            if eq < end {
                assert(piece.skip(eq - start + 1) =~= chars@.subrange(eq + 1, end as int));
            }
        }
        if eq < end {
            let name_bounds = trim(&chars, start, eq);
            let value_bounds = trim(&chars, eq + 1, end);
            let name = String::from_str(headers_str.substring_char(name_bounds.0, name_bounds.1));
            let value = String::from_str(
                headers_str.substring_char(value_bounds.0, value_bounds.1),
            );
            proof {
                assert(listed.push((name@, value@)).drop_last() =~= listed);
                listed = listed.push((name@, value@));
            }
            set_header(&mut headers, name, value);
        }
        if end >= n {
            done = true;
        } else {
            start = end + 1;
        }
    }
    headers
}

/// Setting a header leaves no name twice where none was twice before.
pub proof fn with_header_keeps_names_distinct(
    headers: Seq<(Seq<char>, Seq<char>)>,
    name: Seq<char>,
    value: Seq<char>,
)
    requires
        distinct_names(headers),
    ensures
        distinct_names(with_header(headers, name, value)),
        with_header(headers, name, value).len() <= headers.len() + 1,
{
    if names(headers, name) {
        let k = choose|k: int| 0 <= k < headers.len() && #[trigger] headers[k].0 == name;
        least_place(headers, name, k);
    }
}

/// A name that stands somewhere among the headers has a first place.
pub proof fn least_place(headers: Seq<(Seq<char>, Seq<char>)>, name: Seq<char>, k: int)
    requires
        0 <= k < headers.len(),
        headers[k].0 == name,
    ensures
        is_place_of(headers, name, place_of(headers, name)),
    decreases k,
{
    if forall|j: int| 0 <= j < k ==> (#[trigger] headers[j]).0 != name {
        assert(is_place_of(headers, name, k));
    } else {
        let j = choose|j: int| 0 <= j < k && (#[trigger] headers[j]).0 == name;
        least_place(headers, name, j);
    }
}

/// What a list of headers is read as never holds a name twice.
pub proof fn collected_names_are_distinct(listed: Seq<(Seq<char>, Seq<char>)>)
    ensures
        distinct_names(collected(listed)),
        collected(listed).len() <= listed.len(),
    decreases listed.len(),
{
    if listed.len() > 0 {
        collected_names_are_distinct(listed.drop_last());
        with_header_keeps_names_distinct(
            collected(listed.drop_last()),
            listed.last().0,
            listed.last().1,
        );
    }
}

/// Setting a header among headers with distinct names sets it in the
/// mapping that they stand for.
pub proof fn with_header_is_insert(
    headers: Seq<(Seq<char>, Seq<char>)>,
    name: Seq<char>,
    value: Seq<char>,
)
    requires
        distinct_names(headers),
    ensures
        as_map(with_header(headers, name, value)) == as_map(headers).insert(name, value),
    decreases headers.len(),
{
    if names(headers, name) {
        let witness = choose|k: int| 0 <= k < headers.len() && #[trigger] headers[k].0 == name;
        least_place(headers, name, witness);
        let k = place_of(headers, name);
        let after = headers.update(k, (name, value));
        let last = headers.len() - 1;
        if k == last {
            assert(after.drop_last() =~= headers.drop_last());
        } else {
            least_place(headers.drop_last(), name, k);
            let inner = place_of(headers.drop_last(), name);
            with_header_is_insert(headers.drop_last(), name, value);
            assert(after.drop_last() =~= headers.drop_last().update(k, (name, value)));
        }
    } else {
        assert(headers.push((name, value)).drop_last() =~= headers);
    }
}

/// What a list of headers is read as stands for the mapping that comes of
/// inserting the listed headers one after the other, as into a hash map.
pub proof fn collected_is_the_mapping(listed: Seq<(Seq<char>, Seq<char>)>)
    ensures
        as_map(collected(listed)) == as_map(listed),
    decreases listed.len(),
{
    if listed.len() > 0 {
        collected_is_the_mapping(listed.drop_last());
        collected_names_are_distinct(listed.drop_last());
        with_header_is_insert(collected(listed.drop_last()), listed.last().0, listed.last().1);
    }
}

/// How the service logs and traces.
#[derive(Debug)]
pub struct ObservabilityConfig {
    pub service_name: String,
    pub log_format: LogFormat,
    pub file_logging_enabled: bool,
    pub log_file_dir: String,
    pub log_file_name: String,
    pub otel_enabled: bool,
    pub otel_endpoint: String,
    /// The headers sent with every export, as pairs of a name and a value;
    /// no name occurs twice.
    pub otel_headers: Vec<(String, String)>,
}

/// An `ObservabilityConfig` with every text as a sequence of characters.
pub struct ObservabilityConfigView {
    pub service_name: Seq<char>,
    pub log_format: LogFormat,
    pub file_logging_enabled: bool,
    pub log_file_dir: Seq<char>,
    pub log_file_name: Seq<char>,
    pub otel_enabled: bool,
    pub otel_endpoint: Seq<char>,
    pub otel_headers: Seq<(Seq<char>, Seq<char>)>,
}

impl View for ObservabilityConfig {
    type V = ObservabilityConfigView;

    open spec fn view(&self) -> ObservabilityConfigView {
        ObservabilityConfigView {
            service_name: self.service_name@,
            log_format: self.log_format,
            file_logging_enabled: self.file_logging_enabled,
            log_file_dir: self.log_file_dir@,
            log_file_name: self.log_file_name@,
            otel_enabled: self.otel_enabled,
            otel_endpoint: self.otel_endpoint@,
            otel_headers: pairs_view(self.otel_headers@),
        }
    }
}

/// The settings that the environment gives, each as the text found there,
/// or `None` where the variable is not set.
#[derive(Debug)]
pub struct ObservabilityEnv {
    /// `OTEL_SERVICE_NAME`
    pub service_name: Option<String>,
    /// `LOG_FORMAT`
    pub log_format: Option<String>,
    /// `LOG_FILE_ENABLED`
    pub log_file_enabled: Option<String>,
    /// The directory part of `LOG_FILE_PATH`, where the path has one.
    pub log_file_dir: Option<String>,
    /// The file name at the end of `LOG_FILE_PATH`, where the path has one.
    pub log_file_name: Option<String>,
    /// `OTEL_TRACING_ENABLED`
    pub otel_enabled: Option<String>,
    /// `OTEL_EXPORTER_OTLP_ENDPOINT`
    pub otel_endpoint: Option<String>,
    /// `OTEL_EXPORTER_OTLP_HEADERS`
    pub otel_headers: Option<String>,
}

/// The text of a setting, or `fallback` where it is not set.
pub open spec fn text_or(setting: Option<String>, fallback: Seq<char>) -> Seq<char> {
    match setting {
        Some(text) => text@,
        None => fallback,
    }
}

/// Whether a switch is on: it is set, and its text in lower case is `true`.
pub open spec fn switched_on(setting: Option<String>) -> bool {
    setting matches Some(text) && lowercased(text@) == "true"@
}

impl ObservabilityConfig {
    /// The settings that hold where the environment says nothing.
    pub open spec fn defaults() -> ObservabilityConfigView {
        ObservabilityConfigView {
            service_name: "hexagonal-rust"@,
            log_format: LogFormat::Pretty,
            file_logging_enabled: false,
            log_file_dir: "./logs"@,
            log_file_name: "hexagonal-rust.log"@,
            otel_enabled: false,
            otel_endpoint: "http://localhost:4317"@,
            otel_headers: Seq::empty(),
        }
    }

    /// The settings that hold under `env`: each variable that is set takes
    /// the place of the default. The log format is JSON only for the text
    /// `json` in any case of its letters, and pretty for every other text; a
    /// switch is on only for the text `true` in any case of its letters.
    pub open spec fn configured(env: ObservabilityEnv) -> ObservabilityConfigView {
        ObservabilityConfigView {
            service_name: text_or(env.service_name, Self::defaults().service_name),
            log_format: match env.log_format {
                Some(format) => if lowercased(format@) == "json"@ {
                    LogFormat::Json
                } else {
                    LogFormat::Pretty
                },
                None => LogFormat::Pretty,
            },
            file_logging_enabled: switched_on(env.log_file_enabled),
            log_file_dir: text_or(env.log_file_dir, Self::defaults().log_file_dir),
            log_file_name: text_or(env.log_file_name, Self::defaults().log_file_name),
            otel_enabled: switched_on(env.otel_enabled),
            otel_endpoint: text_or(env.otel_endpoint, Self::defaults().otel_endpoint),
            otel_headers: match env.otel_headers {
                Some(list) => collected(listed_headers(list@)),
                None => Seq::empty(),
            },
        }
    }

    /// Builds the settings from what the environment gives.
    pub fn from_env(env: ObservabilityEnv) -> (config: ObservabilityConfig)
        ensures
            config@ == ObservabilityConfig::configured(env),
            distinct_names(config@.otel_headers),
    {
        let mut config = ObservabilityConfig::default();
        if let Some(name) = env.service_name {
            config.service_name = name;
        }
        if let Some(format) = env.log_format {
            let lower = to_lowercase(format.as_str());
            config.log_format = if lower == String::from_str("json") {
                LogFormat::Json
            } else {
                LogFormat::Pretty
            };
        }
        if let Some(enabled) = env.log_file_enabled {
            let lower = to_lowercase(enabled.as_str());
            config.file_logging_enabled = lower == String::from_str("true");
        }
        if let Some(dir) = env.log_file_dir {
            config.log_file_dir = dir;
        }
        if let Some(name) = env.log_file_name {
            config.log_file_name = name;
        }
        if let Some(enabled) = env.otel_enabled {
            let lower = to_lowercase(enabled.as_str());
            config.otel_enabled = lower == String::from_str("true");
        }
        if let Some(endpoint) = env.otel_endpoint {
            config.otel_endpoint = endpoint;
        }
        if let Some(list) = env.otel_headers {
            config.otel_headers = parse_otlp_headers(list.as_str());
        }
        config
    }
}

impl Clone for ObservabilityConfig {
    fn clone(&self) -> (copy: ObservabilityConfig)
        ensures
            copy@ == self@,
    {
        ObservabilityConfig {
            service_name: self.service_name.clone(),
            log_format: self.log_format,
            file_logging_enabled: self.file_logging_enabled,
            log_file_dir: self.log_file_dir.clone(),
            log_file_name: self.log_file_name.clone(),
            otel_enabled: self.otel_enabled,
            otel_endpoint: self.otel_endpoint.clone(),
            otel_headers: clone_pairs(&self.otel_headers),
        }
    }
}

impl Default for ObservabilityConfig {
    fn default() -> (config: ObservabilityConfig)
        ensures
            config@ == ObservabilityConfig::defaults(),
    {
        let config = ObservabilityConfig {
            service_name: String::from_str("hexagonal-rust"),
            log_format: LogFormat::Pretty,
            file_logging_enabled: false,
            log_file_dir: String::from_str("./logs"),
            log_file_name: String::from_str("hexagonal-rust.log"),
            otel_enabled: false,
            otel_endpoint: String::from_str("http://localhost:4317"),
            otel_headers: Vec::new(),
        };
        assert(config@.otel_headers =~= Seq::empty());
        config
    }
}

/// The headers among `headers` that can go out with an export, in their
/// order: those whose name and value tonic both takes.
pub open spec fn exportable(headers: Seq<(Seq<char>, Seq<char>)>) -> Seq<(Seq<char>, Seq<char>)>
    decreases headers.len(),
{
    if headers.len() == 0 {
        Seq::empty()
    } else {
        let before = exportable(headers.drop_last());
        let header = headers.last();
        if is_metadata_key(header.0) && is_metadata_value(header.1) {
            before.push(header)
        } else {
            before
        }
    }
}

/// Picks the headers that can go out with an export. A header whose name or
/// value tonic does not take is passed over without a word.
pub fn exportable_headers(headers: &Vec<(String, String)>) -> (kept: Vec<(String, String)>)
    ensures
        pairs_view(kept@) == exportable(pairs_view(headers@)),
{
    let mut kept: Vec<(String, String)> = Vec::new();
    let mut i: usize = 0;
    while i < headers.len()
        invariant
            i <= headers.len(),
            pairs_view(kept@) == exportable(pairs_view(headers@).take(i as int)),
        decreases headers.len() - i,
    {
        let ghost all = pairs_view(headers@);
        let ghost before = pairs_view(kept@);
        assert(all.take(i + 1).drop_last() =~= all.take(i as int));
        if tonic_takes_key(headers[i].0.as_str()) && tonic_takes_value(headers[i].1.as_str()) {
            kept.push((headers[i].0.clone(), headers[i].1.clone()));
        }
        i += 1;
    }
    assert(pairs_view(headers@).take(headers.len() as int) =~= pairs_view(headers@));
    kept
}

} // verus!
